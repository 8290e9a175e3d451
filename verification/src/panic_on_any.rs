use vstd::prelude::*;

verus! {

/// Utility for taking vectors of Results and unwrapping them into vectors of values in one go
/// if none of them are errors.
pub trait PanicOnAny: Sized {
    type Item;

    type Iterator;

    /// Whether none of the results is an error.
    spec fn all_ok(&self) -> bool;

    fn unwrap_all(self) -> Self::Iterator
        requires
            self.all_ok(),
    ;

    fn expect_all(self, msg: &str) -> Self::Iterator
        requires
            self.all_ok(),
    ;
}

impl<E: std::fmt::Debug, T> PanicOnAny for Vec<Result<T, E>> {
    type Item = T;

    type Iterator = Vec<T>;

    open spec fn all_ok(&self) -> bool {
        forall|i: int| 0 <= i < self@.len() ==> #[trigger] self@[i] is Ok
    }

    fn unwrap_all(self) -> (r: Vec<T>)
        ensures
            r@.len() == self@.len(),
            forall|i: int| 0 <= i < self@.len() ==> Ok::<T, E>(#[trigger] r@[i]) == self@[i],
    {
        let ghost all = self@;
        let mut rest = self;
        let mut r: Vec<T> = Vec::new();
        while rest.len() > 0
            invariant
                forall|i: int| 0 <= i < all.len() ==> #[trigger] all[i] is Ok,
                r@.len() + rest@.len() == all.len(),
                rest@ == all.skip(r@.len() as int),
                forall|i: int| 0 <= i < r@.len() ==> Ok::<T, E>(#[trigger] r@[i]) == all[i],
            decreases rest@.len(),
        {
            let ghost k = r@.len() as int;
            let item = rest.remove(0);
            assert(item == all[k]);
            r.push(item.unwrap());
            assert(rest@ =~= all.skip(r@.len() as int));
        }
        r
    }

    fn expect_all(self, msg: &str) -> (r: Vec<T>)
        ensures
            r@.len() == self@.len(),
            forall|i: int| 0 <= i < self@.len() ==> Ok::<T, E>(#[trigger] r@[i]) == self@[i],
    {
        let ghost all = self@;
        let mut rest = self;
        let mut r: Vec<T> = Vec::new();
        while rest.len() > 0
            invariant
                forall|i: int| 0 <= i < all.len() ==> #[trigger] all[i] is Ok,
                r@.len() + rest@.len() == all.len(),
                rest@ == all.skip(r@.len() as int),
                forall|i: int| 0 <= i < r@.len() ==> Ok::<T, E>(#[trigger] r@[i]) == all[i],
            decreases rest@.len(),
        {
            let ghost k = r@.len() as int;
            let item = rest.remove(0);
            assert(item == all[k]);
            r.push(item.expect(msg));
            assert(rest@ =~= all.skip(r@.len() as int));
        }
        r
    }
}

} // verus!
