use crate::function_body::FuncType;
use crate::typed::FuncRef;
use vstd::prelude::*;
use vstd::std_specs::convert::FromSpecImpl;

verus! {

/// A reference to a memory of an inputted module.
#[derive(Debug, Copy, Clone, Eq, PartialEq, Ord, PartialOrd, Hash, Structural)]
pub struct MemoryIndex(pub u32);

impl MemoryIndex {
    /// The index as a position in a list.
    pub fn as_usize(&self) -> (r: usize)
        ensures
            r == self.0,
    {
        self.0 as usize
    }

    /// The index at a position in a list; indices are 32-bit words.
    pub fn from_usize(val: usize) -> (r: Self)
        requires
            val <= u32::MAX,
        ensures
            r.0 == val,
    {
        Self(val as u32)
    }

    /// The word that holds the index.
    pub fn as_u32(&self) -> (r: u32)
        ensures
            r == self.0,
    {
        self.0
    }
}

impl From<u32> for MemoryIndex {
    fn from(val: u32) -> (r: Self) {
        Self(val)
    }
}

impl FromSpecImpl<u32> for MemoryIndex {
    open spec fn obeys_from_spec() -> bool {
        true
    }

    open spec fn from_spec(val: u32) -> Self {
        Self(val)
    }
}

/// A reference to a table of an inputted module.
#[derive(Debug, Copy, Clone, Eq, PartialEq, Ord, PartialOrd, Hash, Structural)]
pub struct TableIndex(pub u32);

impl TableIndex {
    /// The index as a position in a list.
    pub fn as_usize(&self) -> (r: usize)
        ensures
            r == self.0,
    {
        self.0 as usize
    }

    /// The index at a position in a list; indices are 32-bit words.
    pub fn from_usize(val: usize) -> (r: Self)
        requires
            val <= u32::MAX,
        ensures
            r.0 == val,
    {
        Self(val as u32)
    }

    /// The word that holds the index.
    pub fn as_u32(&self) -> (r: u32)
        ensures
            r == self.0,
    {
        self.0
    }
}

impl From<u32> for TableIndex {
    fn from(val: u32) -> (r: Self) {
        Self(val)
    }
}

impl FromSpecImpl<u32> for TableIndex {
    open spec fn obeys_from_spec() -> bool {
        true
    }

    open spec fn from_spec(val: u32) -> Self {
        Self(val)
    }
}

/// A reference to a mutable global of an inputted module.
#[derive(Debug, Copy, Clone, Eq, PartialEq, Ord, PartialOrd, Hash, Structural)]
pub struct GlobalMutableIndex(pub u32);

impl GlobalMutableIndex {
    /// The index as a position in a list.
    pub fn as_usize(&self) -> (r: usize)
        ensures
            r == self.0,
    {
        self.0 as usize
    }

    /// The index at a position in a list; indices are 32-bit words.
    pub fn from_usize(val: usize) -> (r: Self)
        requires
            val <= u32::MAX,
        ensures
            r.0 == val,
    {
        Self(val as u32)
    }

    /// The word that holds the index.
    pub fn as_u32(&self) -> (r: u32)
        ensures
            r == self.0,
    {
        self.0
    }
}

impl From<u32> for GlobalMutableIndex {
    fn from(val: u32) -> (r: Self) {
        Self(val)
    }
}

impl FromSpecImpl<u32> for GlobalMutableIndex {
    open spec fn obeys_from_spec() -> bool {
        true
    }

    open spec fn from_spec(val: u32) -> Self {
        Self(val)
    }
}

/// A reference to a immutable global of an inputted module.
#[derive(Debug, Copy, Clone, Eq, PartialEq, Ord, PartialOrd, Hash, Structural)]
pub struct GlobalImmutableIndex(pub u32);

impl GlobalImmutableIndex {
    /// The index as a position in a list.
    pub fn as_usize(&self) -> (r: usize)
        ensures
            r == self.0,
    {
        self.0 as usize
    }

    /// The index at a position in a list; indices are 32-bit words.
    pub fn from_usize(val: usize) -> (r: Self)
        requires
            val <= u32::MAX,
        ensures
            r.0 == val,
    {
        Self(val as u32)
    }

    /// The word that holds the index.
    pub fn as_u32(&self) -> (r: u32)
        ensures
            r == self.0,
    {
        self.0
    }
}

impl From<u32> for GlobalImmutableIndex {
    fn from(val: u32) -> (r: Self) {
        Self(val)
    }
}

impl FromSpecImpl<u32> for GlobalImmutableIndex {
    open spec fn obeys_from_spec() -> bool {
        true
    }

    open spec fn from_spec(val: u32) -> Self {
        Self(val)
    }
}

/// A reference to a element segment of an inputted module.
#[derive(Debug, Copy, Clone, Eq, PartialEq, Ord, PartialOrd, Hash, Structural)]
pub struct ElementIndex(pub u32);

impl ElementIndex {
    /// The index as a position in a list.
    pub fn as_usize(&self) -> (r: usize)
        ensures
            r == self.0,
    {
        self.0 as usize
    }

    /// The index at a position in a list; indices are 32-bit words.
    pub fn from_usize(val: usize) -> (r: Self)
        requires
            val <= u32::MAX,
        ensures
            r.0 == val,
    {
        Self(val as u32)
    }

    /// The word that holds the index.
    pub fn as_u32(&self) -> (r: u32)
        ensures
            r == self.0,
    {
        self.0
    }
}

impl From<u32> for ElementIndex {
    fn from(val: u32) -> (r: Self) {
        Self(val)
    }
}

impl FromSpecImpl<u32> for ElementIndex {
    open spec fn obeys_from_spec() -> bool {
        true
    }

    open spec fn from_spec(val: u32) -> Self {
        Self(val)
    }
}

/// A reference to a data segment of an inputted module.
#[derive(Debug, Copy, Clone, Eq, PartialEq, Ord, PartialOrd, Hash, Structural)]
pub struct DataIndex(pub u32);

impl DataIndex {
    /// The index as a position in a list.
    pub fn as_usize(&self) -> (r: usize)
        ensures
            r == self.0,
    {
        self.0 as usize
    }

    /// The index at a position in a list; indices are 32-bit words.
    pub fn from_usize(val: usize) -> (r: Self)
        requires
            val <= u32::MAX,
        ensures
            r.0 == val,
    {
        Self(val as u32)
    }

    /// The word that holds the index.
    pub fn as_u32(&self) -> (r: u32)
        ensures
            r == self.0,
    {
        self.0
    }
}

impl From<u32> for DataIndex {
    fn from(val: u32) -> (r: Self) {
        Self(val)
    }
}

impl FromSpecImpl<u32> for DataIndex {
    open spec fn obeys_from_spec() -> bool {
        true
    }

    open spec fn from_spec(val: u32) -> Self {
        Self(val)
    }
}

/// A reference to a global of an inputted module, mutable globals and immutable ones being
/// numbered apart.
#[derive(Debug, Copy, Clone, Eq, PartialEq, Ord, PartialOrd, Hash, Structural)]
pub enum GlobalIndex {
    Mutable(GlobalMutableIndex),
    Immutable(GlobalImmutableIndex),
}

/// Data from the parsed module shared by all functions, e.g. function types.
#[derive(Debug)]
pub struct FunctionModuleData {
    pub types: Vec<FuncType>,
}

/// Where the module-level indices that a function uses point to in the instantiated module
/// set.
#[derive(Debug)]
pub struct FuncAccessible {
    pub func_index_lookup: Vec<FuncRef>,
    pub global_index_lookup: Vec<GlobalIndex>,
    pub element_index_lookup: Vec<ElementIndex>,
    pub table_index_lookup: Vec<TableIndex>,
    pub data_index_lookup: Vec<DataIndex>,
    pub memory_index_lookup: Vec<MemoryIndex>,
}

impl FuncAccessible {
    /// A function that can reach no module object.
    pub fn empty() -> (r: Self)
        ensures
            r.func_index_lookup@.len() == 0,
            r.global_index_lookup@.len() == 0,
            r.element_index_lookup@.len() == 0,
            r.table_index_lookup@.len() == 0,
            r.data_index_lookup@.len() == 0,
            r.memory_index_lookup@.len() == 0,
    {
        Self {
            func_index_lookup: Vec::new(),
            global_index_lookup: Vec::new(),
            element_index_lookup: Vec::new(),
            table_index_lookup: Vec::new(),
            data_index_lookup: Vec::new(),
            memory_index_lookup: Vec::new(),
        }
    }
}

/// The functions of a module set, each referred to by its position.
pub struct FuncsInstance<U> {
    pub wasm_functions: Vec<U>,
}

impl<U> FuncsInstance<U> {
    /// The function that a reference refers to: none for the null reference or a position past
    /// the end.
    pub open spec fn spec_get(&self, ptr: FuncRef) -> Option<&U> {
        match ptr.spec_as_u32() {
            None => None,
            Some(i) => if i < self.wasm_functions@.len() {
                Some(&self.wasm_functions@[i as int])
            } else {
                None
            },
        }
    }

    /// A reference to each function, in order.
    pub fn all_funcrefs(&self) -> (r: Vec<FuncRef>)
        requires
            self.wasm_functions@.len() <= u32::MAX,
        ensures
            r@.len() == self.wasm_functions@.len(),
            forall|i: int| 0 <= i < r@.len() ==> #[trigger] r@[i]@ == i,
    {
        let mut r: Vec<FuncRef> = Vec::new();
        let mut i: usize = 0;
        while i < self.wasm_functions.len()
            invariant
                self.wasm_functions@.len() <= u32::MAX,
                i <= self.wasm_functions@.len(),
                r@.len() == i,
                forall|k: int| 0 <= k < i ==> #[trigger] r@[k]@ == k,
            decreases self.wasm_functions.len() - i,
        {
            let ptr = FuncRef::from_word(i as u32);
            proof {
                FuncRef::lemma_word(i as u32, ptr);
            }
            r.push(ptr);
            i = i + 1;
        }
        r
    }

    /// Each function with a reference to it, in order.
    pub fn all_items<'b>(&'b self) -> (r: Vec<(FuncRef, &'b U)>)
        requires
            self.wasm_functions@.len() <= u32::MAX,
        ensures
            r@.len() == self.wasm_functions@.len(),
            forall|i: int|
                0 <= i < r@.len() ==> #[trigger] r@[i].0@ == i && r@[i].1
                    == &self.wasm_functions@[i],
    {
        let mut r: Vec<(FuncRef, &'b U)> = Vec::new();
        let mut i: usize = 0;
        while i < self.wasm_functions.len()
            invariant
                self.wasm_functions@.len() <= u32::MAX,
                i <= self.wasm_functions@.len(),
                r@.len() == i,
                forall|k: int|
                    0 <= k < i ==> #[trigger] r@[k].0@ == k && r@[k].1 == &self.wasm_functions@[k],
            decreases self.wasm_functions.len() - i,
        {
            let ptr = FuncRef::from_word(i as u32);
            proof {
                FuncRef::lemma_word(i as u32, ptr);
            }
            r.push((ptr, &self.wasm_functions[i]));
            i = i + 1;
        }
        r
    }

    /// The function that a reference refers to.
    pub fn get(&self, ptr: FuncRef) -> (r: Option<&U>)
        ensures
            r == self.spec_get(ptr),
    {
        let i = match ptr.as_u32() {
            None => return None,
            Some(i) => i as usize,
        };
        if i < self.wasm_functions.len() {
            Some(&self.wasm_functions[i])
        } else {
            None
        }
    }
}

/// Every reference that `all_funcrefs` hands out refers, through `get`, to the function at its
/// position.
pub proof fn law_funcrefs_get_their_function<U>(funcs: &FuncsInstance<U>, ptr: FuncRef, i: int)
    requires
        funcs.wasm_functions@.len() <= u32::MAX,
        0 <= i < funcs.wasm_functions@.len(),
        ptr@ == i,
    ensures
        funcs.spec_get(ptr) == Some(&funcs.wasm_functions@[i]),
{
}

} // verus!
