use crate::typed::{law_decode_encode, Val, ValType, ValTypeByteCount, WasmTyVal};
use crate::wasm_front::{GlobalImmutableIndex, GlobalIndex, GlobalMutableIndex};
use vstd::prelude::*;
use vstd::slice::slice_subrange;

verus! {

/// The type of a global: the type of its content and whether it can be changed.
#[derive(Debug, Clone, Copy, PartialEq, Eq, Structural)]
pub struct GlobalType {
    pub content_type: ValType,
    pub mutable: bool,
}

/// The capability that a builder issues its pointers with: a pointer is only good for the
/// builder that holds its capability.
#[derive(Debug, Clone, Copy, PartialEq, Eq, Hash, Structural)]
pub struct Capability(pub u64);

/// A pointer to a mutable global: where its bytes start in the mutable globals buffer, and the
/// type of the value it holds.
#[derive(Debug, Clone, Copy, PartialEq, Eq, Structural)]
pub struct AbstractGlobalMutablePtr {
    ptr: usize,
    cap: Capability,
    content_type: ValType,
}

impl AbstractGlobalMutablePtr {
    pub closed spec fn spec_ptr(&self) -> usize {
        self.ptr
    }

    /// The capability of the builder that issued the pointer.
    pub closed spec fn spec_cap(&self) -> Capability {
        self.cap
    }

    pub closed spec fn spec_content_type(&self) -> ValType {
        self.content_type
    }

    pub fn new(ptr: usize, cap: Capability, content_type: ValType) -> (r: Self)
        ensures
            r.spec_ptr() == ptr,
            r.spec_cap() == cap,
            r.spec_content_type() == content_type,
    {
        Self { ptr, cap, content_type }
    }

    /// The capability of the builder that issued the pointer.
    pub fn cap(&self) -> (r: Capability)
        ensures
            r == self.spec_cap(),
    {
        self.cap
    }

    /// Where the global's bytes start.
    pub fn ptr(&self) -> (r: usize)
        ensures
            r == self.spec_ptr(),
    {
        self.ptr
    }

    pub fn content_type(&self) -> (r: ValType)
        ensures
            r == self.spec_content_type(),
    {
        self.content_type
    }

    /// Whether a global of the given type can be served by this pointer.
    pub fn is_type(&self, ty: &GlobalType) -> (r: bool)
        ensures
            r == (self.spec_content_type() == ty.content_type && ty.mutable),
    {
        self.content_type == ty.content_type && ty.mutable
    }

    pub fn to_index(&self) -> (r: GlobalMutableIndex)
        requires
            self.spec_ptr() <= u32::MAX,
        ensures
            r.0 == self.spec_ptr(),
    {
        GlobalMutableIndex::from_usize(self.ptr)
    }
}

/// A pointer to an immutable global: where its bytes start in the immutable globals buffer, and
/// the type of the value it holds.
#[derive(Debug, Clone, Copy, PartialEq, Eq, Structural)]
pub struct GlobalImmutablePtr {
    ptr: usize,
    content_type: ValType,
}

impl GlobalImmutablePtr {
    pub closed spec fn spec_ptr(&self) -> usize {
        self.ptr
    }

    pub closed spec fn spec_content_type(&self) -> ValType {
        self.content_type
    }

    pub fn new(ptr: usize, content_type: ValType) -> (r: Self)
        ensures
            r.spec_ptr() == ptr,
            r.spec_content_type() == content_type,
    {
        Self { ptr, content_type }
    }

    pub fn content_type(&self) -> (r: ValType)
        ensures
            r == self.spec_content_type(),
    {
        self.content_type
    }

    /// Whether a global of the given type can be served by this pointer.
    pub fn is_type(&self, ty: &GlobalType) -> (r: bool)
        ensures
            r == (self.spec_content_type() == ty.content_type && !ty.mutable),
    {
        self.content_type == ty.content_type && !ty.mutable
    }

    pub fn to_index(&self) -> (r: GlobalImmutableIndex)
        requires
            self.spec_ptr() <= u32::MAX,
        ensures
            r.0 == self.spec_ptr(),
    {
        GlobalImmutableIndex::from_usize(self.ptr)
    }
}

/// A pointer to a global of either kind.
#[derive(Debug, Clone, Copy, PartialEq, Eq, Structural)]
pub enum AbstractGlobalPtr {
    Immutable(GlobalImmutablePtr),
    Mutable(AbstractGlobalMutablePtr),
}

impl AbstractGlobalPtr {
    pub open spec fn spec_content_type(&self) -> ValType {
        match self {
            AbstractGlobalPtr::Immutable(ptr) => ptr.spec_content_type(),
            AbstractGlobalPtr::Mutable(ptr) => ptr.spec_content_type(),
        }
    }

    pub open spec fn spec_mutable(&self) -> bool {
        self is Mutable
    }

    /// The type of the global that this pointer points to.
    pub open spec fn spec_ty(&self) -> GlobalType {
        GlobalType { content_type: self.spec_content_type(), mutable: self.spec_mutable() }
    }

    pub fn is_type(&self, ty: &GlobalType) -> (r: bool)
        ensures
            r == (self.spec_ty() == *ty),
    {
        match self {
            AbstractGlobalPtr::Immutable(ptr) => ptr.is_type(ty),
            AbstractGlobalPtr::Mutable(ptr) => ptr.is_type(ty),
        }
    }

    pub fn content_type(&self) -> (r: ValType)
        ensures
            r == self.spec_content_type(),
    {
        match self {
            AbstractGlobalPtr::Immutable(ptr) => ptr.content_type(),
            AbstractGlobalPtr::Mutable(ptr) => ptr.content_type(),
        }
    }

    pub fn mutable(&self) -> (r: bool)
        ensures
            r == self.spec_mutable(),
    {
        match self {
            AbstractGlobalPtr::Immutable(_) => false,
            AbstractGlobalPtr::Mutable(_) => true,
        }
    }

    pub fn ty(&self) -> (r: GlobalType)
        ensures
            r == self.spec_ty(),
    {
        GlobalType { content_type: self.content_type(), mutable: self.mutable() }
    }

    pub fn to_index(&self) -> (r: GlobalIndex)
        requires
            match self {
                AbstractGlobalPtr::Immutable(ptr) => ptr.spec_ptr() <= u32::MAX,
                AbstractGlobalPtr::Mutable(ptr) => ptr.spec_ptr() <= u32::MAX,
            },
        ensures
            match (self, r) {
                (AbstractGlobalPtr::Immutable(ptr), GlobalIndex::Immutable(i)) => i.0
                    == ptr.spec_ptr(),
                (AbstractGlobalPtr::Mutable(ptr), GlobalIndex::Mutable(i)) => i.0
                    == ptr.spec_ptr(),
                _ => false,
            },
    {
        match self {
            AbstractGlobalPtr::Immutable(ptr) => GlobalIndex::Immutable(ptr.to_index()),
            AbstractGlobalPtr::Mutable(ptr) => GlobalIndex::Mutable(ptr.to_index()),
        }
    }
}

/// `s` with the bytes at `at..at + bytes.len()` replaced by `bytes`.
pub open spec fn write_at(s: Seq<u8>, at: int, bytes: Seq<u8>) -> Seq<u8> {
    Seq::new(
        s.len(),
        |i: int|
            if at <= i < at + bytes.len() {
                bytes[i - at]
            } else {
                s[i]
            },
    )
}

/// The mutable globals of a module set being built, as bytes: the values pushed so far lie
/// one after another before `head`, and the buffer reserved for them goes on after it.
pub struct MappedMutableGlobalsInstanceBuilder {
    mutable_values: Vec<u8>,
    head: usize,
    cap: Capability,
}

impl MappedMutableGlobalsInstanceBuilder {
    /// The bytes of the buffer.
    pub closed spec fn spec_values(&self) -> Seq<u8> {
        self.mutable_values@
    }

    /// Where the next value goes.
    pub closed spec fn spec_head(&self) -> nat {
        self.head as nat
    }

    /// The capability that the builder issues its pointers with.
    pub closed spec fn spec_cap(&self) -> Capability {
        self.cap
    }

    pub closed spec fn wf(&self) -> bool {
        self.head <= self.mutable_values@.len()
    }

    /// An empty buffer, whose pointers carry the given capability.
    pub fn new(cap: Capability) -> (r: Self)
        ensures
            r.wf(),
            r.spec_values() == Seq::<u8>::empty(),
            r.spec_head() == 0,
            r.spec_cap() == cap,
    {
        Self { mutable_values: Vec::new(), head: 0, cap }
    }

    /// Whether a pointer was issued by this builder.
    pub fn check(&self, ptr: &AbstractGlobalMutablePtr) -> (r: bool)
        ensures
            r == (ptr.spec_cap() == self.spec_cap()),
    {
        ptr.cap() == self.cap
    }

    /// The length of the buffer in bytes.
    pub fn len(&self) -> (r: usize)
        ensures
            r == self.spec_values().len(),
    {
        self.mutable_values.len()
    }

    /// Where the next value goes.
    pub fn head(&self) -> (r: usize)
        ensures
            r == self.spec_head(),
    {
        self.head
    }

    /// Makes room for `values_size` more bytes of values, so an f64 is 8 bytes.
    pub fn reserve(&mut self, values_size: usize)
        requires
            old(self).wf(),
            old(self).spec_values().len() + values_size <= usize::MAX,
        ensures
            final(self).wf(),
            final(self).spec_values() == old(self).spec_values() + Seq::new(
                values_size as nat,
                |i: int| 0u8,
            ),
            final(self).spec_head() == old(self).spec_head(),
            final(self).spec_cap() == old(self).spec_cap(),
    {
        let ghost start = self.mutable_values@;
        let ghost head = self.head;
        let mut k: usize = 0;
        while k < values_size
            invariant
                self.head == head,
                self.cap == old(self).cap,
                k <= values_size,
                self.mutable_values@ == start + Seq::new(k as nat, |i: int| 0u8),
                start.len() + values_size <= usize::MAX,
                self.head <= start.len(),
            decreases values_size - k,
        {
            self.mutable_values.push(0u8);
            k = k + 1;
            proof {
                assert(self.mutable_values@ =~= start + Seq::new(k as nat, |i: int| 0u8));
            }
        }
    }

    /// Writes `bytes` at the head and moves the head past them.
    fn write_at_head(&mut self, bytes: &Vec<u8>)
        requires
            old(self).wf(),
            old(self).spec_head() + bytes@.len() <= old(self).spec_values().len(),
        ensures
            final(self).wf(),
            final(self).spec_values() == write_at(
                old(self).spec_values(),
                old(self).spec_head() as int,
                bytes@,
            ),
            final(self).spec_head() == old(self).spec_head() + bytes@.len(),
            final(self).spec_cap() == old(self).spec_cap(),
    {
        let ghost start = self.mutable_values@;
        let at = self.head;
        let total = self.mutable_values.len();
        let mut k: usize = 0;
        while k < bytes.len()
            invariant
                total == start.len(),
                self.cap == old(self).cap,
                k <= bytes@.len(),
                at + bytes@.len() <= start.len(),
                self.mutable_values@.len() == start.len(),
                self.head == at,
                forall|i: int|
                    0 <= i < start.len() ==> #[trigger] self.mutable_values@[i] == if at <= i < at
                        + k {
                        bytes@[i - at]
                    } else {
                        start[i]
                    },
            decreases bytes.len() - k,
        {
            self.mutable_values.set(at + k, bytes[k]);
            k = k + 1;
        }
        self.head = at + bytes.len();
        proof {
            assert(self.mutable_values@ =~= write_at(start, at as int, bytes@));
        }
    }

    /// Pushes a value of a host type at the head, giving a pointer to it.
    pub fn try_push_typed<V: WasmTyVal>(&mut self, v: V) -> (r: AbstractGlobalMutablePtr)
        requires
            old(self).wf(),
            old(self).spec_head() + V::spec_val_type().spec_byte_count() <= old(
                self,
            ).spec_values().len(),
        ensures
            final(self).wf(),
            r.spec_ptr() == old(self).spec_head(),
            r.spec_cap() == old(self).spec_cap(),
            final(self).spec_cap() == old(self).spec_cap(),
            r.spec_content_type() == V::spec_val_type(),
            final(self).spec_values() == write_at(
                old(self).spec_values(),
                old(self).spec_head() as int,
                v.spec_to_val().spec_to_bytes(),
            ),
            final(self).spec_head() == old(self).spec_head()
                + V::spec_val_type().spec_byte_count(),
    {
        let bytes = v.to_bytes();
        proof {
            v.lemma_to_val();
            law_decode_encode(v.spec_to_val());
        }
        let start = self.head;
        self.write_at_head(&bytes);
        AbstractGlobalMutablePtr::new(start, self.cap, V::val_type())
    }

    /// Pushes a value at the head, giving a pointer to it.
    pub fn try_push(&mut self, val: Val) -> (r: AbstractGlobalMutablePtr)
        requires
            old(self).wf(),
            old(self).spec_head() + val.spec_get_type().spec_byte_count() <= old(
                self,
            ).spec_values().len(),
        ensures
            final(self).wf(),
            r.spec_ptr() == old(self).spec_head(),
            r.spec_cap() == old(self).spec_cap(),
            final(self).spec_cap() == old(self).spec_cap(),
            r.spec_content_type() == val.spec_get_type(),
            final(self).spec_values() == write_at(
                old(self).spec_values(),
                old(self).spec_head() as int,
                val.spec_to_bytes(),
            ),
            final(self).spec_head() == old(self).spec_head() + val.spec_get_type().spec_byte_count(),
    {
        let bytes = val.to_bytes();
        proof {
            law_decode_encode(val);
        }
        let start = self.head;
        self.write_at_head(&bytes);
        AbstractGlobalMutablePtr::new(start, self.cap, val.get_type())
    }

    /// Reads the value that a pointer of this builder points to.
    pub fn try_get(&self, ptr: &AbstractGlobalMutablePtr) -> (r: Val)
        requires
            ptr.spec_cap() == self.spec_cap(),
            ptr.spec_ptr() + ptr.spec_content_type().spec_byte_count() <= self.spec_values().len(),
        ensures
            r == Val::spec_from_bytes(
                ptr.spec_content_type(),
                self.spec_values().subrange(
                    ptr.spec_ptr() as int,
                    ptr.spec_ptr() + ptr.spec_content_type().spec_byte_count(),
                ),
            ),
    {
        let ty = ptr.content_type();
        let start = ptr.ptr();
        let total = self.mutable_values.len();
        let end = start + ty.byte_count() as usize;
        let bytes = slice_subrange(self.mutable_values.as_slice(), start, end);
        ty.try_from_bytes(bytes).unwrap()
    }

    /// Reads the value that a pointer points to as a value of a host type, which must be the
    /// pointer's type.
    pub fn try_get_typed<V: WasmTyVal>(&self, ptr: &AbstractGlobalMutablePtr) -> (r: V)
        requires
            ptr.spec_cap() == self.spec_cap(),
            ptr.spec_content_type() == V::spec_val_type(),
            ptr.spec_ptr() + ptr.spec_content_type().spec_byte_count() <= self.spec_values().len(),
        ensures
            r.spec_to_val() == Val::spec_from_bytes(
                ptr.spec_content_type(),
                self.spec_values().subrange(
                    ptr.spec_ptr() as int,
                    ptr.spec_ptr() + ptr.spec_content_type().spec_byte_count(),
                ),
            ),
    {
        let start = ptr.ptr();
        let total = self.mutable_values.len();
        let end = start + V::byte_count() as usize;
        let bytes = slice_subrange(self.mutable_values.as_slice(), start, end);
        V::try_from_bytes(bytes).unwrap()
    }
}

/// Reading a value back from where it was written gives the value, and writing at or past the
/// end of a range of bytes leaves that range unchanged: a global reads back as it was pushed,
/// whatever is pushed after it.
pub proof fn law_global_reads_back(s: Seq<u8>, at: int, v: Val, later_at: int, later: Seq<u8>)
    requires
        0 <= at,
        at + v.spec_get_type().spec_byte_count() <= later_at,
        later_at + later.len() <= s.len(),
    ensures
        Val::spec_from_bytes(
            v.spec_get_type(),
            write_at(write_at(s, at, v.spec_to_bytes()), later_at, later).subrange(
                at,
                at + v.spec_get_type().spec_byte_count(),
            ),
        ) == v,
{
    law_decode_encode(v);
    let n = v.spec_get_type().spec_byte_count() as int;
    let w = write_at(write_at(s, at, v.spec_to_bytes()), later_at, later);
    assert(w.subrange(at, at + n) =~= v.spec_to_bytes());
}

/// The bytes after the given writes, in order, each at its position.
pub open spec fn write_all(s: Seq<u8>, writes: Seq<(int, Seq<u8>)>) -> Seq<u8>
    decreases writes.len(),
{
    if writes.len() == 0 {
        s
    } else {
        write_all(write_at(s, writes[0].0, writes[0].1), writes.drop_first())
    }
}

/// A global reads back as it was pushed, whatever number of values is written after it, so
/// long as none of them overlaps its bytes.
pub proof fn law_global_reads_back_after_writes(
    s: Seq<u8>,
    at: int,
    v: Val,
    writes: Seq<(int, Seq<u8>)>,
)
    requires
        0 <= at,
        at + v.spec_get_type().spec_byte_count() <= s.len(),
        forall|k: int|
            0 <= k < writes.len() ==> (#[trigger] writes[k]).0 + writes[k].1.len() <= at || at
                + v.spec_get_type().spec_byte_count() <= writes[k].0,
    ensures
        Val::spec_from_bytes(
            v.spec_get_type(),
            write_all(write_at(s, at, v.spec_to_bytes()), writes).subrange(
                at,
                at + v.spec_get_type().spec_byte_count(),
            ),
        ) == v,
{
    law_decode_encode(v);
    let n = v.spec_get_type().spec_byte_count() as int;
    let pre = write_at(s, at, v.spec_to_bytes());
    let post = write_all(pre, writes);
    lemma_writes_keep_range(pre, at, at + n, writes);
    assert(post.subrange(at, at + n) =~= v.spec_to_bytes());
}

proof fn lemma_writes_keep_range(s: Seq<u8>, lo: int, hi: int, writes: Seq<(int, Seq<u8>)>)
    requires
        0 <= lo <= hi <= s.len(),
        forall|k: int|
            0 <= k < writes.len() ==> (#[trigger] writes[k]).0 + writes[k].1.len() <= lo || hi
                <= writes[k].0,
    ensures
        write_all(s, writes).len() == s.len(),
        forall|i: int| lo <= i < hi ==> #[trigger] write_all(s, writes)[i] == s[i],
    decreases writes.len(),
{
    if writes.len() > 0 {
        let w = write_at(s, writes[0].0, writes[0].1);
        let rest = writes.drop_first();
        assert(writes[0].0 + writes[0].1.len() <= lo || hi <= writes[0].0);
        assert forall|k: int| 0 <= k < rest.len() implies (#[trigger] rest[k]).0 + rest[k].1.len()
            <= lo || hi <= rest[k].0 by {
            assert(rest[k] == writes[k + 1]);
        }
        lemma_writes_keep_range(w, lo, hi, rest);
        assert forall|i: int| lo <= i < hi implies #[trigger] write_all(s, writes)[i] == s[i] by {
            assert(write_all(s, writes) == write_all(w, rest));
            assert(write_all(w, rest)[i] == w[i]);
        }
    }
}

} // verus!
