use wasm_gpu::function_body::FuncType;
use wasm_gpu::globals::GlobalType;
use wasm_gpu::module::{
    ref_val_type, translate, ExportKind, Global, ImportEntity, ImportTypeRef, MemoryType,
    ModuleEnviron, ModuleExport, ParsedData, ParsedDataKind, ParsedElement, ParsedElementKind,
    ParsedTable, ParsedTableInit, RefKind, Section, WasmError,
};
use wasm_gpu::tables::TableType;
use wasm_gpu::typed::ValType;

type Env = ModuleEnviron<u8, u16>;

#[test]
fn components_are_unsupported() {
    let env = Env::new();
    assert_eq!(env.version(false), Ok(()));
    assert_eq!(env.version(true), Err(WasmError::Unsupported("component model".to_string())));
}

#[test]
fn exception_tags_are_unsupported() {
    let mut env = Env::new();
    let err = env.push_import("env".to_string(), "tag".to_string(), ImportEntity::Tag);
    assert_eq!(err, Err(WasmError::Unsupported("exceptions".to_string())));
    let err = env.push_export("t".to_string(), ExportKind::Tag, 0);
    assert_eq!(err, Err(WasmError::Unsupported("exceptions".to_string())));
    assert_eq!(env.tag_section(), WasmError::Unsupported("exceptions".to_string()));
    let module = env.finish();
    assert!(module.imports.is_empty());
    assert!(module.exports.is_empty());
}

#[test]
fn only_the_name_custom_section_is_accepted() {
    let env = Env::new();
    assert_eq!(env.custom_section("name"), Ok(()));
    assert_eq!(
        env.custom_section("producers"),
        Err(WasmError::Unsupported("custom section not supported: producers".to_string()))
    );
}

#[test]
fn imports_and_exports_are_recorded() {
    let mut env = Env::new();
    let g = GlobalType { content_type: ValType::I32, mutable: true };
    env.push_import("env".to_string(), "f".to_string(), ImportEntity::Func(2)).unwrap();
    env.push_import("env".to_string(), "g".to_string(), ImportEntity::Global(g)).unwrap();
    env.push_export("main".to_string(), ExportKind::Func, 3).unwrap();
    env.push_export("mem".to_string(), ExportKind::Memory, 0).unwrap();
    env.push_export("main".to_string(), ExportKind::Global, 1).unwrap();
    let module = env.finish();
    assert_eq!(module.imports.len(), 2);
    assert_eq!(module.imports[0].2, ImportTypeRef::Func(2));
    assert_eq!(module.imports[1].2, ImportTypeRef::Global(g));
    assert_eq!(module.export("mem"), Some(ModuleExport::Memory(0)));
    assert_eq!(module.export("main"), Some(ModuleExport::Global(1)));
    assert_eq!(module.exports.len(), 2);
    assert_eq!(module.export("missing"), None);
}

#[test]
fn function_bodies_take_their_declared_types_in_order() {
    let mut env = Env::new();
    env.push_type(FuncType { params: vec![], results: vec![ValType::I32] });
    env.push_function_type(0);
    env.push_function_type(0);
    env.push_function_type(7);
    assert_eq!(env.next_function_type(), 0);
    env.push_function(vec![(1, ValType::I64)], vec![1, 2, 3]);
    env.push_function(vec![], vec![]);
    assert_eq!(env.next_function_type(), 7);
    env.push_function(vec![], vec![9]);
    let module = env.finish();
    let ids: Vec<u32> = module.functions.iter().map(|f| f.type_id).collect();
    assert_eq!(ids, vec![0, 0, 7]);
    assert_eq!(module.functions[0].locals, vec![(1, ValType::I64)]);
    assert_eq!(module.functions[2].operators, vec![9]);
    assert_eq!(module.types.len(), 1);
}

#[test]
fn other_sections_are_collected() {
    let mut env = Env::new();
    let tt = TableType { element_type: ValType::FuncRef, initial: 1, maximum: None };
    env.push_table(ParsedTable { ty: tt, init: ParsedTableInit::Expr(vec![1]) });
    env.push_memory(MemoryType {
        memory64: false,
        shared: false,
        initial: 1,
        maximum: Some(2),
        page_size_log2: None,
    });
    env.push_global(Global { ty: GlobalType { content_type: ValType::F64, mutable: false }, initializer: vec![4] });
    env.set_start(5);
    env.push_element(ParsedElement {
        kind: ParsedElementKind::Active { table_index: None, offset_expr: vec![0] },
        items: vec![vec![1], vec![2]],
        ty: ValType::FuncRef,
        range: 10..20,
    });
    env.push_data(ParsedData { kind: ParsedDataKind::Passive, data: vec![1, 2, 3], range: 30..33 });
    let module = env.finish();
    assert_eq!(module.tables.len(), 1);
    assert_eq!(module.memories[0].maximum, Some(2));
    assert_eq!(module.globals[0].initializer, vec![4]);
    assert_eq!(module.start_func, Some(5));
    assert_eq!(module.elements[0].items.len(), 2);
    assert_eq!(module.datas[0].data, vec![1, 2, 3]);
}

#[test]
fn reader_errors_keep_message_and_offset() {
    let bytes = [0u8, 0x61, 0x73, 0x6d, 0x02, 0, 0, 0];
    let err = match wasmparser::Validator::new().validate_all(&bytes) {
        Ok(_) => panic!("a version 2 header is not a module"),
        Err(e) => e,
    };
    match WasmError::from_reader_error(&err) {
        WasmError::InvalidWebAssembly { message, offset } => {
            assert_eq!(message, err.message());
            assert_eq!(offset, err.offset());
        }
        other => panic!("unexpected {:?}", other),
    }
    assert_eq!(
        WasmError::invalid("bad".to_string(), 3),
        WasmError::InvalidWebAssembly { message: "bad".to_string(), offset: 3 }
    );
    assert_eq!(WasmError::unsupported("simd"), WasmError::Unsupported("simd".to_string()));
}

#[test]
fn sections_are_read_in_order_until_the_first_error() {
    let sections: Vec<Section<u8, u16>> = vec![
        Section::Version { is_component: false },
        Section::Types(vec![FuncType { params: vec![], results: vec![ValType::I32] }]),
        Section::Functions(vec![0]),
        Section::Exports(vec![("life_universe_and_everything".to_string(), ExportKind::Func, 0)]),
        Section::CodeStart,
        Section::CodeEntry { locals: vec![], operators: vec![42] },
        Section::Custom("name".to_string()),
        Section::End,
    ];
    let module = translate(sections).unwrap();
    assert_eq!(module.export("life_universe_and_everything"), Some(ModuleExport::Func(0)));
    assert_eq!(module.functions[0].type_id, 0);
    assert_eq!(module.functions[0].operators, vec![42]);

    let failing: Vec<Section<u8, u16>> = vec![
        Section::Version { is_component: false },
        Section::Custom("foo".to_string()),
        Section::Rejected(WasmError::invalid("late".to_string(), 9)),
    ];
    assert_eq!(
        translate(failing).err(),
        Some(WasmError::Unsupported("custom section not supported: foo".to_string()))
    );
    let rejected: Vec<Section<u8, u16>> =
        vec![Section::Rejected(WasmError::invalid("bad magic".to_string(), 0)), Section::Tags];
    assert_eq!(translate(rejected).err(), Some(WasmError::invalid("bad magic".to_string(), 0)));
    let tagged: Vec<Section<u8, u16>> = vec![Section::Imports(vec![
        ("env".to_string(), "f".to_string(), ImportEntity::Func(0)),
        ("env".to_string(), "t".to_string(), ImportEntity::Tag),
    ])];
    assert_eq!(translate(tagged).err(), Some(WasmError::Unsupported("exceptions".to_string())));
}

#[test]
fn only_func_and_extern_references_are_supported() {
    assert_eq!(ref_val_type(RefKind::FuncRef), Ok(ValType::FuncRef));
    assert_eq!(ref_val_type(RefKind::ExternRef), Ok(ValType::ExternRef));
    assert_eq!(
        ref_val_type(RefKind::Other("anyref".to_string())),
        Err(WasmError::Unsupported("reference type anyref".to_string()))
    );
}

#[test]
fn refused_sections_leave_the_module_as_it_was() {
    let mut env = Env::new();
    env.apply_section(Section::Types(vec![FuncType { params: vec![], results: vec![] }])).unwrap();
    env.apply_section(Section::Exports(vec![("a".to_string(), ExportKind::Func, 0)])).unwrap();
    assert!(env.apply_section(Section::Custom("foo".to_string())).is_err());
    assert!(env.apply_section(Section::Version { is_component: true }).is_err());
    assert!(env.apply_section(Section::Tags).is_err());
    let refused = env.apply_section(Section::Exports(vec![
        ("b".to_string(), ExportKind::Table, 1),
        ("c".to_string(), ExportKind::Tag, 2),
        ("d".to_string(), ExportKind::Memory, 3),
    ]));
    assert_eq!(refused, Err(WasmError::Unsupported("exceptions".to_string())));
    let module = env.finish();
    assert_eq!(module.types.len(), 1);
    assert_eq!(module.exports.len(), 2);
    assert_eq!(module.export("b"), Some(ModuleExport::Table(1)));
    assert_eq!(module.export("d"), None);
}
