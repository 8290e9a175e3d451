use wasm_gpu::atomic_counter::AtomicUsizeCounter;
use wasm_gpu::function_lookup::FunctionLookup;
use wasm_gpu::globals::{
    AbstractGlobalMutablePtr, AbstractGlobalPtr, Capability, GlobalImmutablePtr, GlobalType,
    MappedMutableGlobalsInstanceBuilder,
};
use wasm_gpu::linked_stack::LinkedStack;
use wasm_gpu::panic_on_any::PanicOnAny;
use wasm_gpu::tables::{wasm_limits_match, MappedTableInstanceSetBuilder, TableType};
use wasm_gpu::typed::{FuncRef, Val, ValType, V128};
use wasm_gpu::wasm_front::{
    DataIndex, ElementIndex, FuncAccessible, FuncsInstance, GlobalImmutableIndex, GlobalIndex,
    GlobalMutableIndex, MemoryIndex, TableIndex,
};

#[test]
fn linked_stack_pushes_and_peeks() {
    let bottom = LinkedStack::new(1);
    let middle = bottom.push(2);
    let top = middle.push(3);
    assert_eq!(*top.peek(), 3);
    assert_eq!(top.peek_nth(0), Some(&3));
    assert_eq!(top.peek_nth(2), Some(&1));
    assert_eq!(top.peek_nth(3), None);
    assert_eq!(*middle.peek(), 2);
    assert_eq!(top.pop(), 3);
    assert_eq!(*middle.peek(), 2);
}

#[test]
fn linked_stack_peeks_the_top_n() {
    let bottom = LinkedStack::new('a');
    let middle = bottom.push('b');
    let top = middle.push('c');
    let mut peeked = top.peek_n(2);
    assert_eq!(peeked.next(), Some(&'c'));
    assert_eq!(peeked.next(), Some(&'b'));
    assert_eq!(peeked.next(), None);
    let mut all = top.peek_n(10);
    assert_eq!(all.next(), Some(&'c'));
    assert_eq!(all.next(), Some(&'b'));
    assert_eq!(all.next(), Some(&'a'));
    assert_eq!(all.next(), None);
    assert_eq!(top.peek_n(0).next(), None);
}

#[test]
fn function_lookup_finds_what_was_inserted() {
    let mut lookup = FunctionLookup::empty();
    lookup.insert(FuncRef::from_word(0), "main");
    lookup.insert(FuncRef::from_word(5), "helper");
    assert_eq!(*lookup.lookup(&FuncRef::from_word(0)), "main");
    assert_eq!(*lookup.lookup(&FuncRef::from_word(5)), "helper");
    lookup.insert(FuncRef::from_word(0), "replaced");
    assert_eq!(*lookup.lookup(&FuncRef::from_word(0)), "replaced");
    assert_eq!(*lookup.lookup(&FuncRef::from_word(5)), "helper");
}

#[test]
fn indices_convert_both_ways() {
    assert_eq!(MemoryIndex::from(3u32).as_usize(), 3);
    assert_eq!(TableIndex::from_usize(4).as_u32(), 4);
    assert_eq!(ElementIndex::from(5u32), ElementIndex(5));
    assert_eq!(DataIndex::from_usize(6).0, 6);
    assert!(GlobalMutableIndex(1) < GlobalMutableIndex(2));
    assert_ne!(
        GlobalIndex::Mutable(GlobalMutableIndex(0)),
        GlobalIndex::Immutable(GlobalImmutableIndex(0))
    );
}

#[test]
fn empty_accessible_set_reaches_nothing() {
    let a = FuncAccessible::empty();
    assert!(a.func_index_lookup.is_empty());
    assert!(a.global_index_lookup.is_empty());
    assert!(a.element_index_lookup.is_empty());
    assert!(a.table_index_lookup.is_empty());
    assert!(a.data_index_lookup.is_empty());
    assert!(a.memory_index_lookup.is_empty());
}

#[test]
fn funcs_instance_refers_by_position() {
    let funcs = FuncsInstance { wasm_functions: vec!["a", "b", "c"] };
    let refs = funcs.all_funcrefs();
    assert_eq!(refs.iter().map(|r| r.word()).collect::<Vec<_>>(), vec![0, 1, 2]);
    for (ptr, item) in funcs.all_items() {
        assert_eq!(funcs.get(ptr), Some(item));
    }
    assert_eq!(funcs.get(FuncRef::from_word(1)), Some(&"b"));
    assert_eq!(funcs.get(FuncRef::from_word(3)), None);
    assert_eq!(funcs.get(FuncRef::none()), None);
}

#[test]
fn global_pointers_report_their_types() {
    let m = AbstractGlobalPtr::Mutable(AbstractGlobalMutablePtr::new(8, Capability(1), ValType::I64));
    let i = AbstractGlobalPtr::Immutable(GlobalImmutablePtr::new(4, ValType::F32));
    assert!(m.mutable());
    assert!(!i.mutable());
    assert_eq!(m.ty(), GlobalType { content_type: ValType::I64, mutable: true });
    assert!(m.is_type(&GlobalType { content_type: ValType::I64, mutable: true }));
    assert!(!m.is_type(&GlobalType { content_type: ValType::I64, mutable: false }));
    assert!(i.is_type(&GlobalType { content_type: ValType::F32, mutable: false }));
    assert_eq!(i.content_type(), ValType::F32);
    assert_eq!(m.to_index(), GlobalIndex::Mutable(GlobalMutableIndex(8)));
    assert_eq!(i.to_index(), GlobalIndex::Immutable(GlobalImmutableIndex(4)));
}

#[test]
fn mutable_globals_read_back_as_pushed() {
    let mut b = MappedMutableGlobalsInstanceBuilder::new(Capability(3));
    b.reserve(28);
    assert_eq!(b.len(), 28);
    let p1 = b.try_push(Val::I32(-5));
    let p2 = b.try_push_typed(0x1122_3344_5566_7788i64);
    let p3 = b.try_push(Val::V128(V128::from_bits(77)));
    assert_eq!(p1.ptr(), 0);
    assert_eq!(p2.ptr(), 4);
    assert_eq!(p3.ptr(), 12);
    assert_eq!(b.head(), 28);
    assert!(b.try_get(&p1).bitwise_eq(&Val::I32(-5)));
    assert_eq!(b.try_get_typed::<i64>(&p2), 0x1122_3344_5566_7788);
    assert!(b.try_get(&p3).bitwise_eq(&Val::V128(V128::from_bits(77))));
    assert_eq!(p1.cap(), Capability(3));
    assert!(b.check(&p2));
    let other = MappedMutableGlobalsInstanceBuilder::new(Capability(4));
    assert!(!other.check(&p2));
}

#[test]
fn tables_are_added_and_initialized() {
    let mut b = MappedTableInstanceSetBuilder::new(Capability(9));
    let ty = TableType { element_type: ValType::FuncRef, initial: 8, maximum: Some(16) };
    let t1 = b.add_table(&ty);
    let t2 = b.add_table(&TableType { element_type: ValType::ExternRef, initial: 4, maximum: None });
    assert_eq!(t1.ptr(), 0);
    assert_eq!(t2.ptr(), 8);
    assert_eq!(t2.len(), 4);
    b.try_initialize(&t1, &[1, 2], 6);
    b.try_initialize(&t2, &[3], 0);
    assert!(t1.is_type(&TableType { element_type: ValType::FuncRef, initial: 4, maximum: None }));
    assert!(t1.is_type(&TableType { element_type: ValType::FuncRef, initial: 8, maximum: Some(20) }));
    assert!(!t1.is_type(&TableType { element_type: ValType::FuncRef, initial: 9, maximum: None }));
    assert!(!t2.is_type(&TableType { element_type: ValType::ExternRef, initial: 1, maximum: Some(8) }));
    assert_eq!(t2.to_index(), TableIndex(8));
    assert!(b.check(&t1));
    assert!(!MappedTableInstanceSetBuilder::new(Capability(10)).check(&t1));
    assert!(wasm_limits_match(2, Some(3), 1, Some(3)));
    assert!(!wasm_limits_match(2, Some(4), 1, Some(3)));
}

#[test]
fn counter_counts_up_from_zero() {
    let c = AtomicUsizeCounter::new();
    assert_eq!(c.next(), 0);
    assert_eq!(c.next(), 1);
    assert_eq!(c.next(), 2);
}

#[test]
fn all_results_unwrap_when_none_failed() {
    let rs: Vec<Result<u8, String>> = vec![Ok(1), Ok(2), Ok(3)];
    assert_eq!(rs.unwrap_all(), vec![1, 2, 3]);
    let rs: Vec<Result<u8, String>> = vec![Ok(4)];
    assert_eq!(rs.expect_all("no errors"), vec![4]);
    let empty: Vec<Result<u8, String>> = vec![];
    assert_eq!(empty.unwrap_all(), Vec::<u8>::new());
}
