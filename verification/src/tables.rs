use crate::globals::{write_at, Capability};
use crate::typed::ValType;
use crate::wasm_front::TableIndex;
use vstd::prelude::*;

verus! {

/// The type of a table: the type of its elements and the limits on its size.
#[derive(Debug, Clone, Copy, PartialEq, Eq, Structural)]
pub struct TableType {
    pub element_type: ValType,
    pub initial: u64,
    pub maximum: Option<u64>,
}

/// Whether limits `initial..maximum` of an object satisfy the limits that a use of it asks
/// for: at least as large initially, and bounded at least as tightly when a bound is asked for.
pub open spec fn spec_limits_match(
    initial: u64,
    maximum: Option<u64>,
    wanted_initial: u64,
    wanted_maximum: Option<u64>,
) -> bool {
    &&& initial >= wanted_initial
    &&& match wanted_maximum {
        None => true,
        Some(w) => match maximum {
            None => false,
            Some(m) => m <= w,
        },
    }
}

/// Checks limits as `spec_limits_match` says.
pub fn wasm_limits_match(
    initial: u64,
    maximum: Option<u64>,
    wanted_initial: u64,
    wanted_maximum: Option<u64>,
) -> (r: bool)
    ensures
        r == spec_limits_match(initial, maximum, wanted_initial, wanted_maximum),
{
    if initial < wanted_initial {
        return false;
    }
    match wanted_maximum {
        None => true,
        Some(w) => match maximum {
            None => false,
            Some(m) => m <= w,
        },
    }
}

/// A pointer to a table in the tables buffer of a module set.
#[derive(Debug, Clone, Copy, PartialEq, Eq, Structural)]
pub struct AbstractTablePtr {
    ptr: usize,
    cap: Capability,
    ty: TableType,
    len: usize,
}

impl AbstractTablePtr {
    /// Where the table starts.
    pub closed spec fn spec_ptr(&self) -> usize {
        self.ptr
    }

    /// The capability of the builder that issued the pointer.
    pub closed spec fn spec_cap(&self) -> Capability {
        self.cap
    }

    pub fn cap(&self) -> (r: Capability)
        ensures
            r == self.spec_cap(),
    {
        self.cap
    }

    /// The table's type.
    pub closed spec fn spec_ty(&self) -> TableType {
        self.ty
    }

    /// The room that the table has.
    pub closed spec fn spec_len(&self) -> usize {
        self.len
    }

    pub fn ptr(&self) -> (r: usize)
        ensures
            r == self.spec_ptr(),
    {
        self.ptr
    }

    pub fn ty(&self) -> (r: TableType)
        ensures
            r == self.spec_ty(),
    {
        self.ty
    }

    pub fn len(&self) -> (r: usize)
        ensures
            r == self.spec_len(),
    {
        self.len
    }

    /// Whether a table of the given type can be served by this one.
    pub fn is_type(&self, ty: &TableType) -> (r: bool)
        ensures
            r == (self.spec_ty().element_type == ty.element_type && spec_limits_match(
                self.spec_ty().initial,
                self.spec_ty().maximum,
                ty.initial,
                ty.maximum,
            )),
    {
        self.ty.element_type == ty.element_type && wasm_limits_match(
            self.ty.initial,
            self.ty.maximum,
            ty.initial,
            ty.maximum,
        )
    }

    pub fn to_index(&self) -> (r: TableIndex)
        requires
            self.spec_ptr() <= u32::MAX,
        ensures
            r.0 == self.spec_ptr(),
    {
        TableIndex::from_usize(self.ptr)
    }
}

/// The tables of a module set being built, one after another in one buffer.
pub struct MappedTableInstanceSetBuilder {
    tables: Vec<u8>,
    cap: Capability,
}

impl MappedTableInstanceSetBuilder {
    /// The bytes of the buffer.
    pub closed spec fn spec_tables(&self) -> Seq<u8> {
        self.tables@
    }

    /// The capability that the builder issues its pointers with.
    pub closed spec fn spec_cap(&self) -> Capability {
        self.cap
    }

    /// An empty buffer, whose pointers carry the given capability.
    pub fn new(cap: Capability) -> (r: Self)
        ensures
            r.spec_tables() == Seq::<u8>::empty(),
            r.spec_cap() == cap,
    {
        Self { tables: Vec::new(), cap }
    }

    /// Whether a pointer was issued by this builder.
    pub fn check(&self, ptr: &AbstractTablePtr) -> (r: bool)
        ensures
            r == (ptr.spec_cap() == self.spec_cap()),
    {
        ptr.cap() == self.cap
    }

    /// Makes room for a table of the given type at the end of the buffer.
    pub fn add_table(&mut self, plan: &TableType) -> (r: AbstractTablePtr)
        requires
            plan.initial <= usize::MAX,
            old(self).spec_tables().len() + plan.initial <= usize::MAX,
        ensures
            r.spec_ptr() == old(self).spec_tables().len(),
            r.spec_ty() == *plan,
            r.spec_len() == plan.initial,
            r.spec_cap() == old(self).spec_cap(),
            final(self).spec_cap() == old(self).spec_cap(),
            final(self).spec_tables() == old(self).spec_tables() + Seq::new(
                plan.initial as nat,
                |i: int| 0u8,
            ),
    {
        let ptr = self.tables.len();
        let len = plan.initial as usize;
        let ghost start = self.tables@;
        let mut k: usize = 0;
        while k < len
            invariant
                k <= len,
                self.cap == old(self).cap,
                self.tables@ == start + Seq::new(k as nat, |i: int| 0u8),
                start.len() + len <= usize::MAX,
            decreases len - k,
        {
            self.tables.push(0u8);
            k = k + 1;
            proof {
                assert(self.tables@ =~= start + Seq::new(k as nat, |i: int| 0u8));
            }
        }
        AbstractTablePtr { ptr, cap: self.cap, ty: *plan, len }
    }

    /// Writes initial data into a table, `offset` bytes in; the data must fit in the table.
    pub fn try_initialize(&mut self, ptr: &AbstractTablePtr, data: &[u8], offset: usize)
        requires
            ptr.spec_cap() == old(self).spec_cap(),
            offset + data@.len() <= ptr.spec_len(),
            ptr.spec_ptr() + ptr.spec_len() <= old(self).spec_tables().len(),
        ensures
            final(self).spec_tables() == write_at(
                old(self).spec_tables(),
                ptr.spec_ptr() + offset,
                data@,
            ),
            final(self).spec_cap() == old(self).spec_cap(),
    {
        let ghost start = self.tables@;
        let total = self.tables.len();
        let at = ptr.ptr() + offset;
        let mut k: usize = 0;
        while k < data.len()
            invariant
                total == start.len(),
                self.cap == old(self).cap,
                k <= data@.len(),
                at + data@.len() <= start.len(),
                self.tables@.len() == start.len(),
                forall|i: int|
                    0 <= i < start.len() ==> #[trigger] self.tables@[i] == if at <= i < at + k {
                        data@[i - at]
                    } else {
                        start[i]
                    },
            decreases data.len() - k,
        {
            self.tables.set(at + k, data[k]);
            k = k + 1;
        }
        proof {
            assert(self.tables@ =~= write_at(start, at as int, data@));
        }
    }
}

/// Initializing one table leaves the bytes of any table that it does not overlap as they were.
pub proof fn law_initialize_keeps_other_tables(
    s: Seq<u8>,
    table: int,
    table_len: int,
    offset: int,
    data: Seq<u8>,
    other: int,
    other_len: int,
)
    requires
        0 <= table,
        0 <= offset,
        offset + data.len() <= table_len,
        0 <= other,
        0 <= other_len,
        other + other_len <= table || table + table_len <= other,
        other + other_len <= s.len(),
    ensures
        write_at(s, table + offset, data).subrange(other, other + other_len) == s.subrange(
            other,
            other + other_len,
        ),
{
    assert(write_at(s, table + offset, data).subrange(other, other + other_len) =~= s.subrange(
        other,
        other + other_len,
    ));
}

} // verus!
