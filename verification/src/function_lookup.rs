use crate::typed::FuncRef;
use std::collections::HashMap;
use vstd::prelude::*;

verus! {

broadcast use vstd::std_specs::hash::group_hash_axioms;

/// The generated function for each function reference of a module.
pub struct FunctionLookup<F> {
    lookup: HashMap<u32, F>,
}

impl<F> View for FunctionLookup<F> {
    /// The function for each function reference, keyed by the reference's word.
    type V = Map<u32, F>;

    closed spec fn view(&self) -> Map<u32, F> {
        self.lookup@
    }
}

impl<F> FunctionLookup<F> {
    /// A lookup that holds no function.
    pub fn empty() -> (r: Self)
        ensures
            r@ == Map::<u32, F>::empty(),
    {
        Self { lookup: HashMap::new() }
    }

    /// Records the function for a reference, replacing any that it had.
    pub fn insert(&mut self, ptr: FuncRef, handle: F)
        ensures
            final(self)@ == old(self)@.insert(ptr@, handle),
    {
        self.lookup.insert(ptr.word(), handle);
    }

    /// The function recorded for a reference; every reference of the module has one.
    pub fn lookup(&self, ptr: &FuncRef) -> (r: &F)
        requires
            self@.contains_key(ptr@),
        ensures
            *r == self@[ptr@],
    {
        let word = ptr.word();
        self.lookup.get(&word).unwrap()
    }
}

/// Looking up a reference gives the function last recorded for it; recording a function for one
/// reference leaves the others as they were.
pub proof fn law_lookup_after_insert<F>(m: Map<u32, F>, ptr: FuncRef, handle: F, other: FuncRef)
    requires
        other@ != ptr@,
    ensures
        m.insert(ptr@, handle).contains_key(ptr@),
        m.insert(ptr@, handle)[ptr@] == handle,
        m.insert(ptr@, handle).contains_key(other@) == m.contains_key(other@),
        m.contains_key(other@) ==> m.insert(ptr@, handle)[other@] == m[other@],
{
}

/// The map after recording the given functions in order.
pub open spec fn spec_insert_all<F>(m: Map<u32, F>, later: Seq<(u32, F)>) -> Map<u32, F>
    decreases later.len(),
{
    if later.len() == 0 {
        m
    } else {
        spec_insert_all(m.insert(later[0].0, later[0].1), later.drop_first())
    }
}

/// A function recorded for a reference is what looking the reference up gives, however many
/// functions are recorded after it for other references.
pub proof fn law_lookup_survives_other_inserts<F>(
    m: Map<u32, F>,
    ptr: FuncRef,
    handle: F,
    later: Seq<(u32, F)>,
)
    requires
        forall|k: int| 0 <= k < later.len() ==> (#[trigger] later[k]).0 != ptr@,
    ensures
        spec_insert_all(m.insert(ptr@, handle), later).contains_key(ptr@),
        spec_insert_all(m.insert(ptr@, handle), later)[ptr@] == handle,
    decreases later.len(),
{
    if later.len() > 0 {
        let next = m.insert(ptr@, handle).insert(later[0].0, later[0].1);
        let rest = later.drop_first();
        assert(later[0].0 != ptr@);
        assert forall|k: int| 0 <= k < rest.len() implies (#[trigger] rest[k]).0 != ptr@ by {
            assert(rest[k] == later[k + 1]);
        }
        assert(next =~= m.insert(later[0].0, later[0].1).insert(ptr@, handle));
        law_lookup_survives_other_inserts(m.insert(later[0].0, later[0].1), ptr, handle, rest);
    }
}

} // verus!
