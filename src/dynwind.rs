//! The scoped unwind guard: cleanup records that run only when the VM's
//! non-local exit passes the guard.
use vstd::prelude::*;

verus! {

/// The cleanup records protected by one unwind guard, oldest first.
///
/// A record leaves the guard only through `unwind`, which the VM's
/// non-local exit triggers; a guard that ends normally hands out none.
pub struct Dynwind<T> {
    records: Vec<T>,
}

impl<T> View for Dynwind<T> {
    type V = Seq<T>;

    closed spec fn view(&self) -> Seq<T> {
        self.records@
    }
}

impl<T> Dynwind<T> {
    /// A guard with no protected records.
    pub fn new() -> (r: Self)
        ensures
            r@ == Seq::<T>::empty(),
    {
        Dynwind { records: Vec::new() }
    }

    /// The number of records the guard protects.
    pub fn len(&self) -> (r: usize)
        ensures
            r == self@.len(),
    {
        self.records.len()
    }

    /// Protects one more record: its cleanup becomes due if a non-local
    /// exit passes the guard.
    pub fn protect(&mut self, record: T)
        ensures
            final(self)@ == old(self)@.push(record),
    {
        self.records.push(record);
    }

    /// Hands out the records whose cleanup is due because a non-local exit
    /// passes the guard, most recently protected first. The guard keeps
    /// none of them, so each runs at most once.
    pub fn unwind(&mut self) -> (r: Vec<T>)
        ensures
            r@ == old(self)@.reverse(),
            final(self)@ == Seq::<T>::empty(),
    {
        let ghost orig = self.records@;
        let mut due: Vec<T> = Vec::new();
        while self.records.len() > 0
            invariant
                self.records@ == orig.take(self.records@.len() as int),
                due@ == orig.skip(self.records@.len() as int).reverse(),
                self.records@.len() <= orig.len(),
            decreases self.records@.len(),
        {
            let ghost k = self.records@.len() as int;
            let record = self.records.pop().unwrap();
            due.push(record);
            assert(due@ =~= orig.skip(k - 1).reverse());
        }
        assert(orig.skip(0) =~= orig);
        due
    }
}

/// A record protected in a guard that then unwinds is the first cleanup to
/// run; a guard that ends normally runs none, since records leave it only
/// through `unwind`.
pub proof fn lemma_protect_then_unwind<T>(g: Seq<T>, record: T)
    ensures
        g.push(record).reverse()[0] == record,
        g.push(record).reverse().len() == g.len() + 1,
        g.push(record).reverse().drop_first() == g.reverse(),
{
    assert(g.push(record).reverse().drop_first() =~= g.reverse());
}

/// When a non-local exit passes two nested guards, the inner one unwinds
/// first, so all records run most recently protected first.
pub proof fn lemma_nested_unwind_order<T>(outer: Seq<T>, inner: Seq<T>)
    ensures
        inner.reverse() + outer.reverse() == (outer + inner).reverse(),
{
    assert(inner.reverse() + outer.reverse() =~= (outer + inner).reverse());
}

} // verus!
