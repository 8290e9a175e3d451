use wasm_gpu::function_body::FuncType;
use wasm_gpu::module::{ImportTypeRef, ModuleExport, ParsedTableInit, WasmError};
use wasm_gpu::module_reader::translate_module;
use wasm_gpu::typed::ValType;
use wasmparser::{Operator, Parser, Validator};

fn wat_bytes(text: &str) -> Vec<u8> {
    let buf = wast::parser::ParseBuffer::new(text).unwrap();
    let mut wat: wast::Wat = wast::parser::parse(&buf).unwrap();
    wat.encode().unwrap()
}

#[test]
fn empty_module_reads_as_empty() {
    let bytes = [0x00, 0x61, 0x73, 0x6d, 0x01, 0x00, 0x00, 0x00];
    let module = translate_module(Validator::new(), Parser::new(0), &bytes).unwrap();
    assert!(module.types.is_empty());
    assert!(module.functions.is_empty());
    assert!(module.exports.is_empty());
    assert_eq!(module.start_func, None);
}

#[test]
fn bad_magic_is_invalid_webassembly() {
    let bytes = [0x00, 0x61, 0x73, 0x6e, 0x01, 0x00, 0x00, 0x00];
    let err = translate_module(Validator::new(), Parser::new(0), &bytes).err().unwrap();
    assert!(matches!(err, WasmError::InvalidWebAssembly { offset: 0, .. }));
}

#[test]
fn functions_are_read_with_types_locals_and_code() {
    let bytes = wat_bytes(
        r#"(module
            (func $add (export "add") (param i32 i32) (result i32) (local i64)
                local.get 0
                local.get 1
                i32.add)
            (start $s)
            (func $s))"#,
    );
    let module = translate_module(Validator::new(), Parser::new(0), &bytes).unwrap();
    assert_eq!(module.types.len(), 2);
    let FuncType { params, results } = &module.types[0];
    assert_eq!(params, &vec![ValType::I32, ValType::I32]);
    assert_eq!(results, &vec![ValType::I32]);
    assert_eq!(module.functions.len(), 2);
    assert_eq!(module.functions[0].type_id, 0);
    assert_eq!(module.functions[0].locals, vec![(1, ValType::I64)]);
    assert_eq!(module.functions[0].operators.len(), 4);
    assert!(matches!(module.functions[0].operators[2], Operator::I32Add));
    assert!(matches!(module.functions[0].operators[3], Operator::End));
    assert_eq!(module.functions[1].type_id, 1);
    assert_eq!(module.start_func, Some(1));
    assert_eq!(module.exports.len(), 1);
    assert_eq!(module.exports[0].0, "add");
    assert_eq!(module.exports[0].1, ModuleExport::Func(0));
}

#[test]
fn imports_tables_globals_and_segments_are_read() {
    let bytes = wat_bytes(
        r#"(module
            (import "env" "f" (func (param i64)))
            (import "env" "m" (memory 1 2))
            (table 3 funcref)
            (global (mut i32) (i32.const 7))
            (memory 1)
            (elem (i32.const 0) func 0)
            (data (i32.const 8) "hi"))"#,
    );
    let module = translate_module(Validator::new(), Parser::new(0), &bytes).unwrap();
    assert_eq!(module.imports.len(), 2);
    assert_eq!(module.imports[0].0, "env");
    assert_eq!(module.imports[0].1, "f");
    assert_eq!(module.imports[0].2, ImportTypeRef::Func(0));
    assert!(matches!(module.imports[1].2, ImportTypeRef::Memory(m) if m.initial == 1 && m.maximum == Some(2)));
    assert_eq!(module.tables.len(), 1);
    assert_eq!(module.tables[0].ty.element_type, ValType::FuncRef);
    assert_eq!(module.tables[0].ty.initial, 3);
    assert!(matches!(module.tables[0].init, ParsedTableInit::RefNull));
    assert_eq!(module.globals.len(), 1);
    assert_eq!(module.globals[0].ty.content_type, ValType::I32);
    assert!(module.globals[0].ty.mutable);
    assert!(matches!(module.globals[0].initializer[0], Operator::I32Const { value: 7 }));
    assert_eq!(module.elements.len(), 1);
    assert_eq!(module.elements[0].ty, ValType::FuncRef);
    assert_eq!(module.elements[0].items.len(), 1);
    assert!(matches!(module.elements[0].items[0][0], Operator::RefFunc { function_index: 0 }));
    assert_eq!(module.datas.len(), 1);
    assert_eq!(module.datas[0].data, b"hi".to_vec());
}

#[test]
fn validation_errors_carry_the_validator_message() {
    let bytes = wat_bytes(r#"(module (func (result i32) i64.const 1))"#);
    let err = translate_module(Validator::new(), Parser::new(0), &bytes).err().unwrap();
    match err {
        WasmError::InvalidWebAssembly { message, offset } => {
            assert!(message.contains("type mismatch"));
            assert!(offset > 8);
        }
        other => panic!("unexpected error {:?}", other),
    }
}

#[test]
fn unsupported_value_types_are_refused() {
    let bytes = wat_bytes(r#"(module (func (param anyref)))"#);
    let err = translate_module(Validator::new(), Parser::new(0), &bytes).err().unwrap();
    assert_eq!(err, WasmError::Unsupported("reference type anyref".to_string()));
}

#[test]
fn tag_sections_are_refused() {
    let bytes = wat_bytes(r#"(module (tag))"#);
    let err = translate_module(Validator::new(), Parser::new(0), &bytes).err().unwrap();
    assert_eq!(err, WasmError::Unsupported("exceptions".to_string()));
}

#[test]
fn custom_sections_other_than_names_are_refused() {
    let mut bytes = vec![0x00, 0x61, 0x73, 0x6d, 0x01, 0x00, 0x00, 0x00];
    bytes.extend_from_slice(&[0x00, 0x04, 0x03, b'a', b'b', b'c']);
    let err = translate_module(Validator::new(), Parser::new(0), &bytes).err().unwrap();
    assert_eq!(err, WasmError::Unsupported("custom section not supported: abc".to_string()));
}

#[test]
fn components_are_refused() {
    let bytes = [0x00, 0x61, 0x73, 0x6d, 0x0d, 0x00, 0x01, 0x00];
    let err = translate_module(Validator::new(), Parser::new(0), &bytes).err().unwrap();
    assert_eq!(err, WasmError::Unsupported("component model".to_string()));
}

#[test]
fn references_are_read_by_what_they_refer_to() {
    let bytes = wat_bytes(r#"(module (func (param (ref func) externref)))"#);
    let module = translate_module(Validator::new(), Parser::new(0), &bytes).unwrap();
    let FuncType { params, results } = &module.types[0];
    assert_eq!(params, &vec![ValType::FuncRef, ValType::ExternRef]);
    assert!(results.is_empty());
}
