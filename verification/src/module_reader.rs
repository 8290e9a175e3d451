//! Reading a module's bytes: `wasmparser` splits them into payloads and validates each, and
//! the library turns each payload into a section and reads it in order.

use crate::function_body::FuncType;
use crate::globals::GlobalType;
use crate::module::{
    empty_view, error_view, module_is, ref_val_type, spec_section, spec_translate, ExportKind,
    ImportEntity, MemoryType, ModuleEnviron, ModuleView, ParsedData, ParsedDataKind, ParsedElement,
    ParsedElementKind, ParsedModule, ParsedTable, ParsedTableInit, ReadOutcome, RefKind, Section,
    WasmError,
};
use crate::tables::TableType;
use crate::typed::ValType;
use vstd::prelude::*;
use wasmparser::{
    AbstractHeapType, HeapType,
    FuncType as WpFuncType, Global as WpGlobal, GlobalType as WpGlobalType,
    MemoryType as WpMemoryType, TableType as WpTableType, ValType as WpValType,
    BinaryReaderError, CompositeInnerType, ConstExpr, Data, DataKind, Element, ElementItems,
    ElementKind, Encoding, Export, ExternalKind, FuncToValidate, FuncValidator,
    FuncValidatorAllocations, FunctionBody, Import, Imports, LocalsReader, Operator,
    OperatorsReader, Payload, RecGroup, RefType, SectionLimited, SubType, Table, TableInit, TypeRef,
    ValidPayload, Validator, ValidatorResources,
};

verus! {
#[verifier::external_type_specification]
#[verifier::external_body]
pub struct ExValidator(wasmparser::Validator);

#[verifier::external_type_specification]
#[verifier::external_body]
pub struct ExParser(wasmparser::Parser);

#[verifier::external_type_specification]
#[verifier::external_body]
pub struct ExPayload<'a>(wasmparser::Payload<'a>);

#[verifier::external_type_specification]
#[verifier::external_body]
pub struct ExOperator<'a>(wasmparser::Operator<'a>);

#[verifier::external_type_specification]
#[verifier::external_body]
#[verifier::reject_recursive_types(T)]
pub struct ExSectionLimited<'a, T>(wasmparser::SectionLimited<'a, T>);

#[verifier::external_type_specification]
#[verifier::external_body]
pub struct ExRecGroup(wasmparser::RecGroup);

#[verifier::external_type_specification]
#[verifier::external_body]
pub struct ExSubType(wasmparser::SubType);

#[verifier::external_type_specification]
#[verifier::external_body]
pub struct ExWpFuncType(WpFuncType);

#[verifier::external_type_specification]
#[verifier::external_body]
pub struct ExWpValType(WpValType);

#[verifier::external_type_specification]
#[verifier::external_body]
pub struct ExRefType(wasmparser::RefType);

#[verifier::external_type_specification]
#[verifier::external_body]
pub struct ExImports<'a>(wasmparser::Imports<'a>);

#[verifier::external_type_specification]
#[verifier::external_body]
pub struct ExImport<'a>(wasmparser::Import<'a>);

#[verifier::external_type_specification]
#[verifier::external_body]
pub struct ExTypeRef(wasmparser::TypeRef);

#[verifier::external_type_specification]
#[verifier::external_body]
pub struct ExWpTableType(WpTableType);

#[verifier::external_type_specification]
#[verifier::external_body]
pub struct ExWpMemoryType(WpMemoryType);

#[verifier::external_type_specification]
#[verifier::external_body]
pub struct ExWpGlobalType(WpGlobalType);

#[verifier::external_type_specification]
#[verifier::external_body]
pub struct ExTable<'a>(wasmparser::Table<'a>);

#[verifier::external_type_specification]
#[verifier::external_body]
pub struct ExConstExpr<'a>(wasmparser::ConstExpr<'a>);

#[verifier::external_type_specification]
#[verifier::external_body]
pub struct ExWpGlobal<'a>(WpGlobal<'a>);

#[verifier::external_type_specification]
#[verifier::external_body]
pub struct ExExport<'a>(wasmparser::Export<'a>);

#[verifier::external_type_specification]
#[verifier::external_body]
pub struct ExExternalKind(wasmparser::ExternalKind);

#[verifier::external_type_specification]
#[verifier::external_body]
pub struct ExElement<'a>(wasmparser::Element<'a>);

#[verifier::external_type_specification]
#[verifier::external_body]
pub struct ExElementKind<'a>(wasmparser::ElementKind<'a>);

#[verifier::external_type_specification]
#[verifier::external_body]
pub struct ExElementItems<'a>(wasmparser::ElementItems<'a>);

#[verifier::external_type_specification]
#[verifier::external_body]
pub struct ExData<'a>(wasmparser::Data<'a>);

#[verifier::external_type_specification]
#[verifier::external_body]
pub struct ExDataKind<'a>(wasmparser::DataKind<'a>);

#[verifier::external_type_specification]
#[verifier::external_body]
pub struct ExFunctionBody<'a>(wasmparser::FunctionBody<'a>);

#[verifier::external_type_specification]
#[verifier::external_body]
pub struct ExLocalsReader<'a>(wasmparser::LocalsReader<'a>);

#[verifier::external_type_specification]
#[verifier::external_body]
pub struct ExOperatorsReader<'a>(wasmparser::OperatorsReader<'a>);

#[verifier::external_type_specification]
#[verifier::external_body]
#[verifier::reject_recursive_types(T)]
pub struct ExFuncToValidate<T>(wasmparser::FuncToValidate<T>);

#[verifier::external_type_specification]
#[verifier::external_body]
#[verifier::reject_recursive_types(T)]
pub struct ExFuncValidator<T>(wasmparser::FuncValidator<T>);

#[verifier::external_type_specification]
#[verifier::external_body]
pub struct ExValidatorResources(wasmparser::ValidatorResources);

#[verifier::external_type_specification]
#[verifier::external_body]
pub struct ExFuncValidatorAllocations(wasmparser::FuncValidatorAllocations);

/// A value type: a number or vector type as the library has it, or a reference type as the
/// module states it.
enum RawValType {
    Plain(ValType),
    Ref(RefType),
}

/// What a reference type refers to: functions, host references, or anything else.
enum HeapKind {
    Func,
    Extern,
    Other,
}

/// A payload that carries nothing to read further.
enum PlainPayload {
    Module,
    Component,
    End,
    Tags,
    Start(u32),
    CodeStart,
    DataCount,
}

/// A payload whose items are read one by one.
enum SectionReader<'a> {
    Types(SectionLimited<'a, RecGroup>),
    Imports(SectionLimited<'a, Imports<'a>>),
    Functions(SectionLimited<'a, u32>),
    Tables(SectionLimited<'a, Table<'a>>),
    Memories(SectionLimited<'a, WpMemoryType>),
    Globals(SectionLimited<'a, WpGlobal<'a>>),
    Exports(SectionLimited<'a, Export<'a>>),
    Elements(SectionLimited<'a, Element<'a>>),
    Datas(SectionLimited<'a, Data<'a>>),
    Code(FunctionBody<'a>),
}

/// What an import refers to, as the module states it.
enum RawTypeRef {
    Func(u32),
    Table(WpTableType),
    Memory(WpMemoryType),
    Global(WpGlobalType),
    Tag,
}

/// The kind of an element segment, with its offset still unread.
enum RawElementKind<'a> {
    Passive,
    Active(Option<u32>, ConstExpr<'a>),
    Declared,
}

/// The items of an element segment, still unread.
enum RawElementItems<'a> {
    Functions(SectionLimited<'a, u32>),
    Expressions(RefType, SectionLimited<'a, ConstExpr<'a>>),
}

/// The kind of a data segment, with its offset still unread.
enum RawDataKind<'a> {
    Passive,
    Active(u32, ConstExpr<'a>),
}

/// Calls `wasmparser::Parser::parse_all` on the module's bytes and collects what it gives, in
/// order; the parser gives nothing after its first error.
#[verifier::external_body]
fn payloads<'a>(parser: wasmparser::Parser, src: &'a [u8]) -> (r: Vec<
    Result<Payload<'a>, BinaryReaderError>,
>) {
    parser.parse_all(src).collect()
}

/// Calls `wasmparser::Validator::payload`, which validates a payload against those before it;
/// for a function body it hands back what validates the body, and the body.
#[verifier::external_body]
fn validate_payload<'a>(validator: &mut Validator, payload: &Payload<'a>) -> (r: Result<
    Option<(FuncToValidate<ValidatorResources>, FunctionBody<'a>)>,
    BinaryReaderError,
>) {
    match validator.payload(payload) {
        Ok(ValidPayload::Ok) => Ok(None),
        Ok(ValidPayload::Parser(_)) => Ok(None),
        Ok(ValidPayload::Func(func, body)) => Ok(Some((func, body))),
        Ok(ValidPayload::End(_)) => Ok(None),
        Err(e) => Err(e),
    }
}

/// Calls `FuncValidatorAllocations::default`: no allocations to reuse yet.
#[verifier::external_body]
fn fresh_allocations() -> (r: FuncValidatorAllocations) {
    FuncValidatorAllocations::default()
}

/// Calls `wasmparser::FuncToValidate::into_validator`, reusing the allocations given.
#[verifier::external_body]
fn function_validator(
    func: FuncToValidate<ValidatorResources>,
    allocations: FuncValidatorAllocations,
) -> (r: FuncValidator<ValidatorResources>) {
    func.into_validator(allocations)
}

/// Calls `wasmparser::FuncValidator::validate` on a function body.
#[verifier::external_body]
fn validate_body<'a>(
    validator: &mut FuncValidator<ValidatorResources>,
    body: &FunctionBody<'a>,
) -> (r: Result<(), BinaryReaderError>) {
    validator.validate(body)
}

/// Calls `wasmparser::FuncValidator::into_allocations`, for the next body to reuse.
#[verifier::external_body]
fn into_allocations(validator: FuncValidator<ValidatorResources>) -> (r:
    FuncValidatorAllocations) {
    validator.into_allocations()
}

/// Tells apart the `wasmparser::Payload` variants that carry nothing to read further.
#[verifier::external_body]
fn plain_payload<'a>(p: &Payload<'a>) -> (r: Option<PlainPayload>) {
    match p {
        Payload::Version { encoding: Encoding::Module, .. } => Some(PlainPayload::Module),
        Payload::Version { encoding: Encoding::Component, .. } => Some(PlainPayload::Component),
        Payload::End(_) => Some(PlainPayload::End),
        Payload::TagSection(_) => Some(PlainPayload::Tags),
        Payload::StartSection { func, .. } => Some(PlainPayload::Start(*func)),
        Payload::CodeSectionStart { .. } => Some(PlainPayload::CodeStart),
        Payload::DataCountSection { .. } => Some(PlainPayload::DataCount),
        _ => None,
    }
}

/// Calls `wasmparser::CustomSectionReader::name` on a custom section payload.
#[verifier::external_body]
fn custom_name_of<'a>(p: &Payload<'a>) -> (r: Option<String>) {
    match p {
        Payload::CustomSection(s) => Some(s.name().to_owned()),
        _ => None,
    }
}

/// Tells apart the `wasmparser::Payload` variants of the sections before the globals, and
/// copies out their readers.
#[verifier::external_body]
fn early_section_reader<'a>(p: &Payload<'a>) -> (r: Option<SectionReader<'a>>) {
    match p {
        Payload::TypeSection(s) => Some(SectionReader::Types(s.clone())),
        Payload::ImportSection(s) => Some(SectionReader::Imports(s.clone())),
        Payload::FunctionSection(s) => Some(SectionReader::Functions(s.clone())),
        Payload::TableSection(s) => Some(SectionReader::Tables(s.clone())),
        Payload::MemorySection(s) => Some(SectionReader::Memories(s.clone())),
        _ => None,
    }
}

/// Tells apart the `wasmparser::Payload` variants of the globals and the sections after
/// them, and copies out their readers.
#[verifier::external_body]
fn late_section_reader<'a>(p: &Payload<'a>) -> (r: Option<SectionReader<'a>>) {
    match p {
        Payload::GlobalSection(s) => Some(SectionReader::Globals(s.clone())),
        Payload::ExportSection(s) => Some(SectionReader::Exports(s.clone())),
        Payload::ElementSection(s) => Some(SectionReader::Elements(s.clone())),
        Payload::DataSection(s) => Some(SectionReader::Datas(s.clone())),
        Payload::CodeSectionEntry(body) => Some(SectionReader::Code(body.clone())),
        _ => None,
    }
}

/// Calls `wasmparser::SectionLimited`'s iterator on the type section: its recursion groups,
/// up to the first error.
#[verifier::external_body]
fn rec_groups<'a>(reader: SectionLimited<'a, RecGroup>) -> (r: Result<
    Vec<RecGroup>,
    BinaryReaderError,
>) {
    reader.into_iter().collect()
}

/// Calls `wasmparser::RecGroup::into_types`.
#[verifier::external_body]
fn sub_types(group: RecGroup) -> (r: Vec<SubType>) {
    group.into_types().collect()
}

/// Tells a function type apart from the other `wasmparser::CompositeInnerType` variants.
#[verifier::external_body]
fn func_type_of(sub: SubType) -> (r: Option<WpFuncType>) {
    match sub.composite_type.inner {
        CompositeInnerType::Func(f) => Some(f),
        _ => None,
    }
}

/// Calls `wasmparser::FuncType::params`.
#[verifier::external_body]
fn func_params(f: &WpFuncType) -> (r: Vec<WpValType>) {
    f.params().to_vec()
}

/// Calls `wasmparser::FuncType::results`.
#[verifier::external_body]
fn func_results(f: &WpFuncType) -> (r: Vec<WpValType>) {
    f.results().to_vec()
}

/// Tells apart the variants of `wasmparser::ValType`.
#[verifier::external_body]
fn val_type_kind(t: &WpValType) -> (r: RawValType) {
    match *t {
        WpValType::I32 => RawValType::Plain(ValType::I32),
        WpValType::I64 => RawValType::Plain(ValType::I64),
        WpValType::F32 => RawValType::Plain(ValType::F32),
        WpValType::F64 => RawValType::Plain(ValType::F64),
        WpValType::V128 => RawValType::Plain(ValType::V128),
        WpValType::Ref(rt) => RawValType::Ref(rt),
    }
}

/// Calls `wasmparser::RefType::heap_type` and tells the abstract `func` and `extern` heap types
/// apart from the others.
#[verifier::external_body]
fn heap_kind(rt: &RefType) -> (r: HeapKind) {
    match rt.heap_type() {
        HeapType::Abstract { ty: AbstractHeapType::Func, .. } => HeapKind::Func,
        HeapType::Abstract { ty: AbstractHeapType::Extern, .. } => HeapKind::Extern,
        _ => HeapKind::Other,
    }
}

/// Calls the `Display` of `wasmparser::RefType`: the text of the reference type.
#[verifier::external_body]
fn ref_type_text(rt: &RefType) -> (r: String) {
    format!("{}", rt)
}

/// Calls `wasmparser::SectionLimited::into_imports`: the imports, up to the first error.
#[verifier::external_body]
fn import_items<'a>(reader: SectionLimited<'a, Imports<'a>>) -> (r: Result<
    Vec<Import<'a>>,
    BinaryReaderError,
>) {
    reader.into_imports().collect()
}

/// The fields of a `wasmparser::Import`, its names copied.
#[verifier::external_body]
fn import_parts<'a>(import: Import<'a>) -> (r: (String, String, TypeRef)) {
    (import.module.to_owned(), import.name.to_owned(), import.ty)
}

/// Tells apart the variants of `wasmparser::TypeRef`; an exact function type is a function.
#[verifier::external_body]
fn type_ref_kind(ty: TypeRef) -> (r: RawTypeRef) {
    match ty {
        TypeRef::Func(index) => RawTypeRef::Func(index),
        TypeRef::FuncExact(index) => RawTypeRef::Func(index),
        TypeRef::Table(t) => RawTypeRef::Table(t),
        TypeRef::Memory(m) => RawTypeRef::Memory(m),
        TypeRef::Global(g) => RawTypeRef::Global(g),
        TypeRef::Tag(_) => RawTypeRef::Tag,
    }
}

/// The element type and limits of a `wasmparser::TableType`.
#[verifier::external_body]
fn table_type_parts(ty: WpTableType) -> (r: (RefType, u64, Option<u64>)) {
    (ty.element_type, ty.initial, ty.maximum)
}

/// The fields of a `wasmparser::MemoryType`.
#[verifier::external_body]
fn memory_type(ty: WpMemoryType) -> (r: MemoryType) {
    MemoryType {
        memory64: ty.memory64,
        shared: ty.shared,
        initial: ty.initial,
        maximum: ty.maximum,
        page_size_log2: ty.page_size_log2,
    }
}

/// The content type and mutability of a `wasmparser::GlobalType`.
#[verifier::external_body]
fn global_type_parts(ty: WpGlobalType) -> (r: (WpValType, bool)) {
    (ty.content_type, ty.mutable)
}

/// Calls `wasmparser::SectionLimited`'s iterator on a list of indices, up to the first error.
#[verifier::external_body]
fn indices<'a>(reader: SectionLimited<'a, u32>) -> (r: Result<Vec<u32>, BinaryReaderError>) {
    reader.into_iter().collect()
}

/// Calls `wasmparser::SectionLimited`'s iterator on the table section, up to the first error.
#[verifier::external_body]
fn table_items<'a>(reader: SectionLimited<'a, Table<'a>>) -> (r: Result<
    Vec<Table<'a>>,
    BinaryReaderError,
>) {
    reader.into_iter().collect()
}

/// The type of a `wasmparser::Table`, and its initialising expression where it has one.
#[verifier::external_body]
fn table_parts<'a>(table: Table<'a>) -> (r: (WpTableType, Option<ConstExpr<'a>>)) {
    match table.init {
        TableInit::RefNull => (table.ty, None),
        TableInit::Expr(expr) => (table.ty, Some(expr)),
    }
}

/// Calls `wasmparser::SectionLimited`'s iterator on the memory section, up to the first error.
#[verifier::external_body]
fn memory_items<'a>(reader: SectionLimited<'a, WpMemoryType>) -> (r: Result<
    Vec<WpMemoryType>,
    BinaryReaderError,
>) {
    reader.into_iter().collect()
}

/// Calls `wasmparser::SectionLimited`'s iterator on the global section, up to the first error.
#[verifier::external_body]
fn global_items<'a>(reader: SectionLimited<'a, WpGlobal<'a>>) -> (r: Result<
    Vec<WpGlobal<'a>>,
    BinaryReaderError,
>) {
    reader.into_iter().collect()
}

/// The fields of a `wasmparser::Global`.
#[verifier::external_body]
fn global_parts<'a>(global: WpGlobal<'a>) -> (r: (WpGlobalType, ConstExpr<'a>)) {
    (global.ty, global.init_expr)
}

/// Calls `wasmparser::SectionLimited`'s iterator on the export section, up to the first error.
#[verifier::external_body]
fn export_items<'a>(reader: SectionLimited<'a, Export<'a>>) -> (r: Result<
    Vec<Export<'a>>,
    BinaryReaderError,
>) {
    reader.into_iter().collect()
}

/// The fields of a `wasmparser::Export`, its name copied.
#[verifier::external_body]
fn export_parts<'a>(export: Export<'a>) -> (r: (String, ExternalKind, u32)) {
    (export.name.to_owned(), export.kind, export.index)
}

/// Tells apart the variants of `wasmparser::ExternalKind`; an exact function is a function.
#[verifier::external_body]
fn export_kind(kind: ExternalKind) -> (r: ExportKind) {
    match kind {
        ExternalKind::Func => ExportKind::Func,
        ExternalKind::FuncExact => ExportKind::Func,
        ExternalKind::Table => ExportKind::Table,
        ExternalKind::Memory => ExportKind::Memory,
        ExternalKind::Global => ExportKind::Global,
        ExternalKind::Tag => ExportKind::Tag,
    }
}

/// Calls `wasmparser::SectionLimited`'s iterator on the element section, up to the first
/// error.
#[verifier::external_body]
fn element_items<'a>(reader: SectionLimited<'a, Element<'a>>) -> (r: Result<
    Vec<Element<'a>>,
    BinaryReaderError,
>) {
    reader.into_iter().collect()
}

/// The fields of a `wasmparser::Element`, its range as its two ends.
#[verifier::external_body]
fn element_parts<'a>(element: Element<'a>) -> (r: (ElementKind<'a>, ElementItems<'a>, u64, u64)) {
    (element.kind, element.items, element.range.start, element.range.end)
}

/// Tells apart the variants of `wasmparser::ElementKind`.
#[verifier::external_body]
fn element_kind<'a>(kind: ElementKind<'a>) -> (r: RawElementKind<'a>) {
    match kind {
        ElementKind::Passive => RawElementKind::Passive,
        ElementKind::Active { table_index, offset_expr } => RawElementKind::Active(
            table_index,
            offset_expr,
        ),
        ElementKind::Declared => RawElementKind::Declared,
    }
}

/// Tells apart the variants of `wasmparser::ElementItems`.
#[verifier::external_body]
fn element_item_kind<'a>(items: ElementItems<'a>) -> (r: RawElementItems<'a>) {
    match items {
        ElementItems::Functions(reader) => RawElementItems::Functions(reader),
        ElementItems::Expressions(rt, reader) => RawElementItems::Expressions(rt, reader),
    }
}

/// Calls `wasmparser::SectionLimited`'s iterator on a list of expressions, up to the first
/// error.
#[verifier::external_body]
fn const_exprs<'a>(reader: SectionLimited<'a, ConstExpr<'a>>) -> (r: Result<
    Vec<ConstExpr<'a>>,
    BinaryReaderError,
>) {
    reader.into_iter().collect()
}

/// Calls `wasmparser::ConstExpr::get_operators_reader`.
#[verifier::external_body]
fn expr_reader<'a>(expr: &ConstExpr<'a>) -> (r: OperatorsReader<'a>) {
    expr.get_operators_reader()
}

/// Calls `wasmparser::OperatorsReader`'s iterator: the operators, up to the first error.
#[verifier::external_body]
fn operator_items<'a>(reader: OperatorsReader<'a>) -> (r: Result<
    Vec<Operator<'a>>,
    BinaryReaderError,
>) {
    reader.into_iter().collect()
}

/// The expression `ref.func` of a function index, as `wasmparser::Operator`s.
#[verifier::external_body]
fn ref_func_expr<'a>(function_index: u32) -> (r: Vec<Operator<'a>>) {
    vec![Operator::RefFunc { function_index }, Operator::End]
}

/// Calls `wasmparser::SectionLimited`'s iterator on the data section, up to the first error.
#[verifier::external_body]
fn data_items<'a>(reader: SectionLimited<'a, Data<'a>>) -> (r: Result<
    Vec<Data<'a>>,
    BinaryReaderError,
>) {
    reader.into_iter().collect()
}

/// The fields of a `wasmparser::Data`, its bytes copied and its range as its two ends.
#[verifier::external_body]
fn data_parts<'a>(data: Data<'a>) -> (r: (DataKind<'a>, Vec<u8>, u64, u64)) {
    (data.kind, data.data.to_vec(), data.range.start, data.range.end)
}

/// Tells apart the variants of `wasmparser::DataKind`.
#[verifier::external_body]
fn data_kind<'a>(kind: DataKind<'a>) -> (r: RawDataKind<'a>) {
    match kind {
        DataKind::Passive => RawDataKind::Passive,
        DataKind::Active { memory_index, offset_expr } => RawDataKind::Active(
            memory_index,
            offset_expr,
        ),
    }
}

/// Calls `wasmparser::FunctionBody::get_locals_reader`.
#[verifier::external_body]
fn locals_reader<'a>(body: &FunctionBody<'a>) -> (r: Result<LocalsReader<'a>, BinaryReaderError>) {
    body.get_locals_reader()
}

/// Calls `wasmparser::LocalsReader`'s iterator: the local declarations, up to the first error.
#[verifier::external_body]
fn local_items<'a>(reader: LocalsReader<'a>) -> (r: Result<
    Vec<(u32, WpValType)>,
    BinaryReaderError,
>) {
    reader.into_iter().collect()
}

/// Calls `wasmparser::FunctionBody::get_operators_reader`.
#[verifier::external_body]
fn body_reader<'a>(body: &FunctionBody<'a>) -> (r: Result<
    OperatorsReader<'a>,
    BinaryReaderError,
>) {
    body.get_operators_reader()
}

/// The library's value type for a reference type, by what it refers to: a reference to
/// functions is a `funcref`, one to host objects an `externref`, and any other is not supported.
fn ref_type_of(kind: HeapKind, rt: &RefType) -> (r: Result<ValType, WasmError>)
    ensures
        kind is Func ==> r == Ok::<ValType, WasmError>(ValType::FuncRef),
        kind is Extern ==> r == Ok::<ValType, WasmError>(ValType::ExternRef),
        kind is Other ==> r matches Err(WasmError::Unsupported(_)),
{
    let kind = match kind {
        HeapKind::Func => RefKind::FuncRef,
        HeapKind::Extern => RefKind::ExternRef,
        HeapKind::Other => RefKind::Other(ref_type_text(rt)),
    };
    ref_val_type(kind)
}

/// The library's value type for a reference type of the module, by what it refers to.
fn ref_type(rt: &RefType) -> (r: Result<ValType, WasmError>)
    ensures
        r matches Ok(t) ==> t is FuncRef || t is ExternRef,
        r matches Err(e) ==> e is Unsupported,
{
    ref_type_of(heap_kind(rt), rt)
}

/// The library's value type for a value type as the module states it: a number or vector
/// type is itself, a reference type goes by what it refers to.
fn val_type_of(raw: RawValType) -> (r: Result<ValType, WasmError>)
    ensures
        raw matches RawValType::Plain(t) ==> r == Ok::<ValType, WasmError>(t),
        raw is Ref ==> (r matches Ok(t) ==> t is FuncRef || t is ExternRef),
{
    match raw {
        RawValType::Plain(t) => Ok(t),
        RawValType::Ref(rt) => ref_type(&rt),
    }
}

/// The library's value type for a value type of the module.
fn val_type(ty: &WpValType) -> (r: Result<ValType, WasmError>) {
    val_type_of(val_type_kind(ty))
}

/// The library's value types for value types of the module, in order; the first that has
/// none fails.
fn val_types(tys: Vec<WpValType>) -> (r: Result<Vec<ValType>, WasmError>)
    ensures
        r matches Ok(out) ==> out.len() == tys.len(),
{
    let mut out: Vec<ValType> = Vec::new();
    let mut i: usize = 0;
    while i < tys.len()
        invariant
            i <= tys.len(),
            out.len() == i,
        decreases tys.len() - i,
    {
        match val_type(&tys[i]) {
            Ok(t) => out.push(t),
            Err(e) => {
                return Err(e);
            },
        }
        i = i + 1;
    }
    Ok(out)
}

/// The operators of a constant expression.
fn expr_operators<'a>(expr: &ConstExpr<'a>) -> (r: Result<Vec<Operator<'a>>, WasmError>) {
    match operator_items(expr_reader(expr)) {
        Ok(ops) => Ok(ops),
        Err(e) => Err(WasmError::from_reader_error(&e)),
    }
}

/// The library's table type for an element type and limits: the limits are kept as they are
/// declared, and the element type must be a supported reference type.
fn table_type_from(parts: (RefType, u64, Option<u64>)) -> (r: Result<TableType, WasmError>)
    ensures
        r matches Ok(t) ==> t.initial == parts.1 && t.maximum == parts.2 && (t.element_type is FuncRef
            || t.element_type is ExternRef),
        r matches Err(e) ==> e is Unsupported,
{
    let (element, initial, maximum) = parts;
    match ref_type(&element) {
        Ok(element_type) => Ok(TableType { element_type, initial, maximum }),
        Err(e) => Err(e),
    }
}

/// The library's table type for a table type of the module.
fn table_type(ty: WpTableType) -> (r: Result<TableType, WasmError>) {
    table_type_from(table_type_parts(ty))
}

/// The library's global type for a content type and mutability: the mutability is kept.
fn global_type_from(parts: (WpValType, bool)) -> (r: Result<GlobalType, WasmError>)
    ensures
        r matches Ok(g) ==> g.mutable == parts.1,
{
    let (content, mutable) = parts;
    match val_type(&content) {
        Ok(content_type) => Ok(GlobalType { content_type, mutable }),
        Err(e) => Err(e),
    }
}

/// The library's global type for a global type of the module.
fn global_type(ty: WpGlobalType) -> (r: Result<GlobalType, WasmError>) {
    global_type_from(global_type_parts(ty))
}

/// The function types of the type section; a type of another kind is not supported.
fn read_types<'a>(reader: SectionLimited<'a, RecGroup>) -> (r: Result<Vec<FuncType>, WasmError>) {
    let groups = match rec_groups(reader) {
        Ok(g) => g,
        Err(e) => {
            return Err(WasmError::from_reader_error(&e));
        },
    };
    let mut out: Vec<FuncType> = Vec::new();
    for group in groups {
        for sub in sub_types(group) {
            let f = match func_type_of(sub) {
                Some(f) => f,
                None => {
                    return Err(WasmError::unsupported("types other than function types"));
                },
            };
            let params = match val_types(func_params(&f)) {
                Ok(p) => p,
                Err(e) => {
                    return Err(e);
                },
            };
            let results = match val_types(func_results(&f)) {
                Ok(p) => p,
                Err(e) => {
                    return Err(e);
                },
            };
            out.push(FuncType { params, results });
        }
    }
    Ok(out)
}

/// What an import brings in, as the library has it: a function by its type index, a memory,
/// and a tag as they are; a table or a global whose types are supported.
fn import_entity(raw: RawTypeRef) -> (r: Result<ImportEntity, WasmError>)
    ensures
        match raw {
            RawTypeRef::Func(index) => r == Ok::<ImportEntity, WasmError>(ImportEntity::Func(index)),
            RawTypeRef::Table(_) => r is Err || r matches Ok(ImportEntity::Table(_)),
            RawTypeRef::Memory(_) => r matches Ok(ImportEntity::Memory(_)),
            RawTypeRef::Global(_) => r is Err || r matches Ok(ImportEntity::Global(_)),
            RawTypeRef::Tag => r == Ok::<ImportEntity, WasmError>(ImportEntity::Tag),
        },
{
    match raw {
        RawTypeRef::Func(index) => Ok(ImportEntity::Func(index)),
        RawTypeRef::Table(t) => match table_type(t) {
            Ok(t) => Ok(ImportEntity::Table(t)),
            Err(e) => Err(e),
        },
        RawTypeRef::Memory(m) => Ok(ImportEntity::Memory(memory_type(m))),
        RawTypeRef::Global(g) => match global_type(g) {
            Ok(g) => Ok(ImportEntity::Global(g)),
            Err(e) => Err(e),
        },
        RawTypeRef::Tag => Ok(ImportEntity::Tag),
    }
}

/// The imports of the import section, each with what it brings in.
fn read_imports<'a>(reader: SectionLimited<'a, Imports<'a>>) -> (r: Result<
    Vec<(String, String, ImportEntity)>,
    WasmError,
>) {
    let items = match import_items(reader) {
        Ok(i) => i,
        Err(e) => {
            return Err(WasmError::from_reader_error(&e));
        },
    };
    let mut out: Vec<(String, String, ImportEntity)> = Vec::new();
    for item in items {
        let (module, name, ty) = import_parts(item);
        let entity = match import_entity(type_ref_kind(ty)) {
            Ok(entity) => entity,
            Err(e) => {
                return Err(e);
            },
        };
        out.push((module, name, entity));
    }
    Ok(out)
}

/// A table of the table section: without an initialising expression its elements start null,
/// with one they start as that expression gives.
fn table_entry<'a>(parts: (WpTableType, Option<ConstExpr<'a>>)) -> (r: Result<
    ParsedTable<Operator<'a>>,
    WasmError,
>)
    ensures
        r matches Ok(t) ==> (parts.1 is None <==> t.init is RefNull),
{
    let (ty, init) = parts;
    let init = match init {
        None => ParsedTableInit::RefNull,
        Some(expr) => match expr_operators(&expr) {
            Ok(ops) => ParsedTableInit::Expr(ops),
            Err(e) => {
                return Err(e);
            },
        },
    };
    let ty = match table_type(ty) {
        Ok(t) => t,
        Err(e) => {
            return Err(e);
        },
    };
    Ok(ParsedTable { ty, init })
}

/// The tables of the table section.
fn read_tables<'a>(reader: SectionLimited<'a, Table<'a>>) -> (r: Result<
    Vec<ParsedTable<Operator<'a>>>,
    WasmError,
>) {
    let items = match table_items(reader) {
        Ok(i) => i,
        Err(e) => {
            return Err(WasmError::from_reader_error(&e));
        },
    };
    let mut out: Vec<ParsedTable<Operator<'a>>> = Vec::new();
    for item in items {
        match table_entry(table_parts(item)) {
            Ok(t) => out.push(t),
            Err(e) => {
                return Err(e);
            },
        }
    }
    Ok(out)
}

/// The memories of the memory section.
fn read_memories<'a>(reader: SectionLimited<'a, WpMemoryType>) -> (r: Result<
    Vec<MemoryType>,
    WasmError,
>) {
    let items = match memory_items(reader) {
        Ok(i) => i,
        Err(e) => {
            return Err(WasmError::from_reader_error(&e));
        },
    };
    let mut out: Vec<MemoryType> = Vec::new();
    for item in items {
        out.push(memory_type(item));
    }
    Ok(out)
}

/// The globals of the global section, each with its initialising expression.
fn read_globals<'a>(reader: SectionLimited<'a, WpGlobal<'a>>) -> (r: Result<
    Vec<crate::module::Global<Operator<'a>>>,
    WasmError,
>) {
    let items = match global_items(reader) {
        Ok(i) => i,
        Err(e) => {
            return Err(WasmError::from_reader_error(&e));
        },
    };
    let mut out: Vec<crate::module::Global<Operator<'a>>> = Vec::new();
    for item in items {
        let (ty, expr) = global_parts(item);
        let ty = match global_type(ty) {
            Ok(t) => t,
            Err(e) => {
                return Err(e);
            },
        };
        let initializer = match expr_operators(&expr) {
            Ok(ops) => ops,
            Err(e) => {
                return Err(e);
            },
        };
        out.push(crate::module::Global { ty, initializer });
    }
    Ok(out)
}

/// The exports of the export section.
fn read_exports<'a>(reader: SectionLimited<'a, Export<'a>>) -> (r: Result<
    Vec<(String, ExportKind, u32)>,
    WasmError,
>) {
    let items = match export_items(reader) {
        Ok(i) => i,
        Err(e) => {
            return Err(WasmError::from_reader_error(&e));
        },
    };
    let mut out: Vec<(String, ExportKind, u32)> = Vec::new();
    for item in items {
        let (name, kind, index) = export_parts(item);
        out.push((name, export_kind(kind), index));
    }
    Ok(out)
}

/// The items of an element segment as expressions, with their type: function indices are
/// `funcref`s, each the expression `ref.func` of its index; expressions take the segment's
/// reference type.
fn element_contents<'a>(items: RawElementItems<'a>) -> (r: Result<
    (ValType, Vec<Vec<Operator<'a>>>),
    WasmError,
>)
    ensures
        items is Functions ==> (r matches Ok(c) ==> c.0 == ValType::FuncRef),
        items is Expressions ==> (r matches Ok(c) ==> c.0 is FuncRef || c.0 is ExternRef),
{
    let mut exprs: Vec<Vec<Operator<'a>>> = Vec::new();
    match items {
        RawElementItems::Functions(reader) => {
            let functions = match indices(reader) {
                Ok(i) => i,
                Err(e) => {
                    return Err(WasmError::from_reader_error(&e));
                },
            };
            for function_index in functions {
                exprs.push(ref_func_expr(function_index));
            }
            Ok((ValType::FuncRef, exprs))
        },
        RawElementItems::Expressions(rt, reader) => {
            let items = match const_exprs(reader) {
                Ok(i) => i,
                Err(e) => {
                    return Err(WasmError::from_reader_error(&e));
                },
            };
            for expr in items {
                match expr_operators(&expr) {
                    Ok(ops) => exprs.push(ops),
                    Err(e) => {
                        return Err(e);
                    },
                }
            }
            match ref_type(&rt) {
                Ok(t) => Ok((t, exprs)),
                Err(e) => Err(e),
            }
        },
    }
}

/// An element segment: its kind is kept, an active segment with its table index and its offset
/// expression read, and its range is kept.
fn element_segment<'a>(
    kind: RawElementKind<'a>,
    items: RawElementItems<'a>,
    start: u64,
    end: u64,
) -> (r: Result<ParsedElement<Operator<'a>>, WasmError>)
    ensures
        r matches Ok(e) ==> e.range.start == start && e.range.end == end && match kind {
            RawElementKind::Passive => e.kind is Passive,
            RawElementKind::Active(t, _) => e.kind matches ParsedElementKind::Active {
                table_index,
                ..
            } && table_index == t,
            RawElementKind::Declared => e.kind is Declared,
        },
        r matches Ok(e) ==> (items is Functions ==> e.ty == ValType::FuncRef),
{
    let (ty, exprs) = match element_contents(items) {
        Ok(c) => c,
        Err(e) => {
            return Err(e);
        },
    };
    let kind = match kind {
        RawElementKind::Passive => ParsedElementKind::Passive,
        RawElementKind::Active(table_index, expr) => match expr_operators(&expr) {
            Ok(offset_expr) => ParsedElementKind::Active { table_index, offset_expr },
            Err(e) => {
                return Err(e);
            },
        },
        RawElementKind::Declared => ParsedElementKind::Declared,
    };
    Ok(ParsedElement { kind, items: exprs, ty, range: core::ops::Range { start, end } })
}

/// The element segments of the element section, with their items as expressions.
fn read_elements<'a>(reader: SectionLimited<'a, Element<'a>>) -> (r: Result<
    Vec<ParsedElement<Operator<'a>>>,
    WasmError,
>) {
    let segments = match element_items(reader) {
        Ok(i) => i,
        Err(e) => {
            return Err(WasmError::from_reader_error(&e));
        },
    };
    let mut out: Vec<ParsedElement<Operator<'a>>> = Vec::new();
    for segment in segments {
        let (kind, items, start, end) = element_parts(segment);
        match element_segment(element_kind(kind), element_item_kind(items), start, end) {
            Ok(element) => out.push(element),
            Err(e) => {
                return Err(e);
            },
        }
    }
    Ok(out)
}

/// A data segment: its kind is kept, an active segment with its memory index and its offset
/// expression read, and its bytes and range are kept. Only reading the offset can fail.
fn data_segment<'a>(kind: RawDataKind<'a>, data: Vec<u8>, start: u64, end: u64) -> (r: Result<
    ParsedData<Operator<'a>>,
    WasmError,
>)
    ensures
        kind is Passive ==> r is Ok,
        r matches Ok(d) ==> d.data@ == data@ && d.range.start == start && d.range.end == end
            && match kind {
            RawDataKind::Passive => d.kind is Passive,
            RawDataKind::Active(m, _) => d.kind matches ParsedDataKind::Active {
                memory_index,
                ..
            } && memory_index == m,
        },
{
    let kind = match kind {
        RawDataKind::Passive => ParsedDataKind::Passive,
        RawDataKind::Active(memory_index, expr) => match expr_operators(&expr) {
            Ok(offset_expr) => ParsedDataKind::Active { memory_index, offset_expr },
            Err(e) => {
                return Err(e);
            },
        },
    };
    Ok(ParsedData { kind, data, range: core::ops::Range { start, end } })
}

/// The data segments of the data section.
fn read_datas<'a>(reader: SectionLimited<'a, Data<'a>>) -> (r: Result<
    Vec<ParsedData<Operator<'a>>>,
    WasmError,
>) {
    let segments = match data_items(reader) {
        Ok(i) => i,
        Err(e) => {
            return Err(WasmError::from_reader_error(&e));
        },
    };
    let mut out: Vec<ParsedData<Operator<'a>>> = Vec::new();
    for segment in segments {
        let (kind, data, start, end) = data_parts(segment);
        match data_segment(data_kind(kind), data, start, end) {
            Ok(d) => out.push(d),
            Err(e) => {
                return Err(e);
            },
        }
    }
    Ok(out)
}

/// The declared locals of a function body: each run keeps its count, and its type is the
/// library's value type for the declared one.
fn local_types(declared: Vec<(u32, WpValType)>) -> (r: Result<Vec<(u32, ValType)>, WasmError>)
    ensures
        r matches Ok(locals) ==> locals.len() == declared.len() && forall|i: int|
            0 <= i < locals.len() ==> (#[trigger] locals@[i]).0 == declared@[i].0,
{
    let mut locals: Vec<(u32, ValType)> = Vec::new();
    let mut i: usize = 0;
    while i < declared.len()
        invariant
            i <= declared.len(),
            locals.len() == i,
            forall|k: int| 0 <= k < i ==> (#[trigger] locals@[k]).0 == declared@[k].0,
        decreases declared.len() - i,
    {
        let count = declared[i].0;
        match val_type(&declared[i].1) {
            Ok(t) => locals.push((count, t)),
            Err(e) => {
                return Err(e);
            },
        }
        i = i + 1;
    }
    Ok(locals)
}

/// A function body: its declared locals and its operators.
fn read_code<'a>(body: &FunctionBody<'a>) -> (r: Result<
    Section<Operator<'a>, Operator<'a>>,
    WasmError,
>)
    ensures
        r matches Ok(s) ==> s is CodeEntry,
{
    let declared = match locals_reader(body) {
        Ok(reader) => match local_items(reader) {
            Ok(items) => items,
            Err(e) => {
                return Err(WasmError::from_reader_error(&e));
            },
        },
        Err(e) => {
            return Err(WasmError::from_reader_error(&e));
        },
    };
    let locals = match local_types(declared) {
        Ok(l) => l,
        Err(e) => {
            return Err(e);
        },
    };
    let operators = match body_reader(body) {
        Ok(reader) => match operator_items(reader) {
            Ok(ops) => ops,
            Err(e) => {
                return Err(WasmError::from_reader_error(&e));
            },
        },
        Err(e) => {
            return Err(WasmError::from_reader_error(&e));
        },
    };
    Ok(Section::CodeEntry { locals, operators })
}

/// The section that a payload of the given kind reads as.
fn read_section<'a>(reader: SectionReader<'a>) -> (r: Result<
    Section<Operator<'a>, Operator<'a>>,
    WasmError,
>)
    ensures
        r matches Ok(s) ==> match reader {
            SectionReader::Types(_) => s is Types,
            SectionReader::Imports(_) => s is Imports,
            SectionReader::Functions(_) => s is Functions,
            SectionReader::Tables(_) => s is Tables,
            SectionReader::Memories(_) => s is Memories,
            SectionReader::Globals(_) => s is Globals,
            SectionReader::Exports(_) => s is Exports,
            SectionReader::Elements(_) => s is Elements,
            SectionReader::Datas(_) => s is Datas,
            SectionReader::Code(_) => s is CodeEntry,
        },
{
    match reader {
        SectionReader::Types(r) => match read_types(r) {
            Ok(v) => Ok(Section::Types(v)),
            Err(e) => Err(e),
        },
        SectionReader::Imports(r) => match read_imports(r) {
            Ok(v) => Ok(Section::Imports(v)),
            Err(e) => Err(e),
        },
        SectionReader::Functions(r) => match indices(r) {
            Ok(v) => Ok(Section::Functions(v)),
            Err(e) => Err(WasmError::from_reader_error(&e)),
        },
        SectionReader::Tables(r) => match read_tables(r) {
            Ok(v) => Ok(Section::Tables(v)),
            Err(e) => Err(e),
        },
        SectionReader::Memories(r) => match read_memories(r) {
            Ok(v) => Ok(Section::Memories(v)),
            Err(e) => Err(e),
        },
        SectionReader::Globals(r) => match read_globals(r) {
            Ok(v) => Ok(Section::Globals(v)),
            Err(e) => Err(e),
        },
        SectionReader::Exports(r) => match read_exports(r) {
            Ok(v) => Ok(Section::Exports(v)),
            Err(e) => Err(e),
        },
        SectionReader::Elements(r) => match read_elements(r) {
            Ok(v) => Ok(Section::Elements(v)),
            Err(e) => Err(e),
        },
        SectionReader::Datas(r) => match read_datas(r) {
            Ok(v) => Ok(Section::Datas(v)),
            Err(e) => Err(e),
        },
        SectionReader::Code(body) => read_code(&body),
    }
}

/// The section of a payload that carries nothing to read further.
fn plain_section<'a>(plain: PlainPayload) -> (r: Section<Operator<'a>, Operator<'a>>)
    ensures
        match plain {
            PlainPayload::Module => r matches Section::Version { is_component } && !is_component,
            PlainPayload::Component => r matches Section::Version { is_component } && is_component,
            PlainPayload::End => r is End,
            PlainPayload::Tags => r is Tags,
            PlainPayload::Start(func) => r matches Section::Start(f) && f == func,
            PlainPayload::CodeStart => r is CodeStart,
            PlainPayload::DataCount => r is DataCount,
        },
{
    match plain {
        PlainPayload::Module => Section::Version { is_component: false },
        PlainPayload::Component => Section::Version { is_component: true },
        PlainPayload::End => Section::End,
        PlainPayload::Tags => Section::Tags,
        PlainPayload::Start(func) => Section::Start(func),
        PlainPayload::CodeStart => Section::CodeStart,
        PlainPayload::DataCount => Section::DataCount,
    }
}

/// The section that a validated payload reads as; a payload of a kind that modules do not
/// hold is not supported.
fn payload_section<'a>(payload: &Payload<'a>) -> (r: Result<
    Section<Operator<'a>, Operator<'a>>,
    WasmError,
>) {
    match plain_payload(payload) {
        Some(plain) => {
            return Ok(plain_section(plain));
        },
        None => {},
    }
    match custom_name_of(payload) {
        Some(name) => {
            return Ok(Section::Custom(name));
        },
        None => {},
    }
    match early_section_reader(payload) {
        Some(reader) => {
            return read_section(reader);
        },
        None => {},
    }
    match late_section_reader(payload) {
        Some(reader) => read_section(reader),
        None => Err(WasmError::unsupported("section kind")),
    }
}

/// Whether a result is what reading the given sections in order gives: the module that they
/// make up, or the first error among them.
pub open spec fn translation_gives<Op, Code>(
    sections: Seq<Section<Op, Code>>,
    r: Result<ParsedModule<Op, Code>, WasmError>,
) -> bool {
    match spec_translate(empty_view(), sections) {
        ReadOutcome::Done(v) => r matches Ok(m) && module_is(m, v),
        ReadOutcome::Failed(ev, _) => r matches Err(e) && error_view(e) == ev,
        ReadOutcome::Stuck => false,
    }
}

proof fn lemma_translate_one<Op, Code>(v: ModuleView<Op, Code>, x: Section<Op, Code>)
    ensures
        spec_translate(v, seq![x]) == match spec_section(v, x) {
            ReadOutcome::Done(n) => ReadOutcome::Done(n),
            other => other,
        },
{
    assert(seq![x].drop_first() =~= Seq::<Section<Op, Code>>::empty());
    assert(seq![x][0] == x);
    match spec_section(v, x) {
        ReadOutcome::Done(n) => {
            assert(spec_translate(n, Seq::<Section<Op, Code>>::empty()) == ReadOutcome::<
                Op,
                Code,
            >::Done(n));
        },
        _ => {},
    }
}

proof fn lemma_translate_push<Op, Code>(
    v0: ModuleView<Op, Code>,
    s: Seq<Section<Op, Code>>,
    v: ModuleView<Op, Code>,
    x: Section<Op, Code>,
)
    requires
        spec_translate(v0, s) == ReadOutcome::<Op, Code>::Done(v),
    ensures
        spec_translate(v0, s.push(x)) == spec_translate(v, seq![x]),
    decreases s.len(),
{
    if s.len() == 0 {
        assert(s.push(x) =~= seq![x]);
    } else {
        assert(s.push(x)[0] == s[0]);
        assert(s.push(x).drop_first() =~= s.drop_first().push(x));
        match spec_section(v0, s[0]) {
            ReadOutcome::Done(next) => {
                lemma_translate_push(next, s.drop_first(), v, x);
            },
            _ => {},
        }
    }
}

proof fn lemma_refused<Op, Code>(
    seen: Seq<Section<Op, Code>>,
    v: ModuleView<Op, Code>,
    err: WasmError,
)
    requires
        spec_translate(empty_view(), seen) == ReadOutcome::<Op, Code>::Done(v),
    ensures
        translation_gives(seen.push(Section::Rejected(err)), Err(err)),
{
    lemma_translate_push(empty_view(), seen, v, Section::Rejected(err));
    lemma_translate_one(v, Section::<Op, Code>::Rejected(err));
}

/// Reads and validates a whole module from its bytes: the payloads that `parser` finds are
/// validated in order by `validator`, function bodies included, and each is read as a section;
/// the result is what reading those sections in order gives, up to the first error of
/// reading or validating.
pub fn translate_module<'a>(validator: Validator, parser: wasmparser::Parser, src: &'a [u8]) -> (r:
    Result<ParsedModule<Operator<'a>, Operator<'a>>, WasmError>)
    ensures
        exists|sections: Seq<Section<Operator<'a>, Operator<'a>>>| #[trigger]
            translation_gives(sections, r),
{
    let mut validator = validator;
    let items = payloads(parser, src);
    let mut env: ModuleEnviron<Operator<'a>, Operator<'a>> = ModuleEnviron::new();
    proof {
        assert(env@ =~= empty_view());
    }
    let ghost mut seen: Seq<Section<Operator<'a>, Operator<'a>>> = Seq::empty();
    let mut allocations: Option<FuncValidatorAllocations> = None;
    for item in items
        invariant
            env@.wf(),
            spec_translate(empty_view(), seen) == ReadOutcome::<Operator<'a>, Operator<'a>>::Done(
                env@,
            ),
    {
        let payload = match item {
            Ok(p) => p,
            Err(e) => {
                let err = WasmError::from_reader_error(&e);
                proof {
                    lemma_refused(seen, env@, err);
                }
                return Err(err);
            },
        };
        match validate_payload(&mut validator, &payload) {
            Ok(None) => {},
            Ok(Some((func, body))) => {
                let reuse = match allocations {
                    Some(a) => a,
                    None => fresh_allocations(),
                };
                let mut checker = function_validator(func, reuse);
                match validate_body(&mut checker, &body) {
                    Ok(()) => {},
                    Err(e) => {
                        let err = WasmError::from_reader_error(&e);
                        proof {
                            lemma_refused(seen, env@, err);
                        }
                        return Err(err);
                    },
                }
                allocations = Some(into_allocations(checker));
            },
            Err(e) => {
                let err = WasmError::from_reader_error(&e);
                proof {
                    lemma_refused(seen, env@, err);
                }
                return Err(err);
            },
        }
        let section = match payload_section(&payload) {
            Ok(s) => s,
            Err(err) => {
                proof {
                    lemma_refused(seen, env@, err);
                }
                return Err(err);
            },
        };
        if env.stuck_on(&section) {
            let err = WasmError::unsupported("a section that cannot follow those before it");
            proof {
                lemma_refused(seen, env@, err);
            }
            return Err(err);
        }
        let ghost before = env@;
        proof {
            lemma_translate_push(empty_view(), seen, before, section);
            lemma_translate_one(before, section);
            seen = seen.push(section);
        }
        match env.apply_section(section) {
            Ok(()) => {},
            Err(e) => {
                proof {
                    assert(translation_gives(seen, Err::<
                        ParsedModule<Operator<'a>, Operator<'a>>,
                        WasmError,
                    >(e)));
                }
                return Err(e);
            },
        }
    }
    let m = env.finish();
    proof {
        assert(translation_gives(seen, Ok::<ParsedModule<Operator<'a>, Operator<'a>>, WasmError>(m)));
    }
    Ok(m)
}

} // verus!
