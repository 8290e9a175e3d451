use crate::function_body::FuncType;
use crate::globals::GlobalType;
use crate::tables::TableType;
use crate::typed::ValType;
use vstd::prelude::*;
use vstd::string::StringExecFns;

verus! {

#[verifier::external_type_specification]
#[verifier::external_body]
pub struct ExBinaryReaderError(wasmparser::BinaryReaderError);

/// The description that a reading or validation error carries.
pub uninterp spec fn reader_message_of(error: wasmparser::BinaryReaderError) -> Seq<char>;

/// The position in the module's bytes that a reading or validation error carries.
pub uninterp spec fn reader_offset_of(error: wasmparser::BinaryReaderError) -> u64;

/// Calls `wasmparser::BinaryReaderError::message`, which gives the description that the error
/// was made with; the contract names it and says no more of it.
#[verifier::external_body]
fn reader_error_message(error: &wasmparser::BinaryReaderError) -> (r: String)
    ensures
        r@ == reader_message_of(*error),
{
    error.message().to_owned()
}

/// Calls `wasmparser::BinaryReaderError::offset`, which gives the position that the error was
/// made with; the contract names it and says no more of it.
#[verifier::external_body]
fn reader_error_offset(error: &wasmparser::BinaryReaderError) -> (r: u64)
    ensures
        r == reader_offset_of(*error),
{
    error.offset()
}

/// A WebAssembly translation error.
///
/// When a WebAssembly function can't be translated, one of these error codes will be returned
/// to describe the failure.
#[derive(Debug, Clone, PartialEq, Eq)]
pub enum WasmError {
    /// The input WebAssembly code is invalid.
    ///
    /// This error code is used by a WebAssembly translator when it encounters invalid
    /// WebAssembly code. This should never happen for validated WebAssembly code.
    InvalidWebAssembly {
        /// A string describing the validation error.
        message: String,
        /// The bytecode offset where the error occurred.
        offset: u64,
    },
    /// A feature used by the WebAssembly code is not supported by the embedding environment.
    ///
    /// Embedding environments may have their own limitations and feature restrictions.
    Unsupported(String),
}

impl WasmError {
    /// The error for invalid code, with its description and position.
    pub fn invalid(message: String, offset: u64) -> (r: Self)
        ensures
            r == (WasmError::InvalidWebAssembly { message, offset }),
    {
        WasmError::InvalidWebAssembly { message, offset }
    }

    /// The error that a reading or validation error of the module's bytes stands for.
    pub fn from_reader_error(error: &wasmparser::BinaryReaderError) -> (r: Self)
        ensures
            r matches WasmError::InvalidWebAssembly { message, offset } && message@
                == reader_message_of(*error) && offset == reader_offset_of(*error),
    {
        Self::invalid(reader_error_message(error), reader_error_offset(error))
    }

    /// The error for a feature that is not supported.
    pub fn unsupported(what: &str) -> (r: Self)
        ensures
            r matches WasmError::Unsupported(m) && m@ == what@,
    {
        WasmError::Unsupported(String::from_str(what))
    }
}

/// A reference type as a module states it.
#[derive(Debug, Clone, PartialEq, Eq)]
pub enum RefKind {
    /// `funcref`.
    FuncRef,
    /// `externref`.
    ExternRef,
    /// Any other reference type, by the text that describes it.
    Other(String),
}

/// The value type of a reference type: only `funcref` and `externref` are supported.
pub fn ref_val_type(kind: RefKind) -> (r: Result<ValType, WasmError>)
    ensures
        match kind {
            RefKind::FuncRef => r == Ok::<ValType, WasmError>(ValType::FuncRef),
            RefKind::ExternRef => r == Ok::<ValType, WasmError>(ValType::ExternRef),
            RefKind::Other(text) => r matches Err(WasmError::Unsupported(m)) && m@
                == "reference type "@ + text@,
        },
{
    match kind {
        RefKind::FuncRef => Ok(ValType::FuncRef),
        RefKind::ExternRef => Ok(ValType::ExternRef),
        RefKind::Other(text) => {
            let mut message = String::from_str("reference type ");
            message.append(text.as_str());
            Err(WasmError::Unsupported(message))
        },
    }
}

/// The type of a linear memory.
#[derive(Debug, Clone, Copy, PartialEq, Eq, Structural)]
pub struct MemoryType {
    pub memory64: bool,
    pub shared: bool,
    pub initial: u64,
    pub maximum: Option<u64>,
    pub page_size_log2: Option<u32>,
}

/// What an import brings into the module.
#[derive(Debug, Clone, Copy, PartialEq, Eq, Structural)]
pub enum ImportTypeRef {
    Func(u32),
    Table(TableType),
    Memory(MemoryType),
    Global(GlobalType),
}

/// What an import declares, as the module states it.
#[derive(Debug, Clone, Copy, PartialEq, Eq, Structural)]
pub enum ImportEntity {
    Func(u32),
    Table(TableType),
    Memory(MemoryType),
    Global(GlobalType),
    Tag,
}

/// A global with the expression that computes its initial value.
#[derive(Debug, Clone)]
pub struct Global<Op> {
    pub ty: GlobalType,
    pub initializer: Vec<Op>,
}

/// An object that the module exports, by its index.
#[derive(Debug, Copy, Clone, PartialEq, Eq, Hash, Structural)]
pub enum ModuleExport {
    Func(usize),
    Table(usize),
    Memory(usize),
    Global(usize),
}

/// The kind of object that an export names, as the module states it.
#[derive(Debug, Copy, Clone, PartialEq, Eq, Structural)]
pub enum ExportKind {
    Func,
    Table,
    Memory,
    Global,
    Tag,
}

/// A function body: its type, its declared locals and its code.
pub struct ParsedFunc<Code> {
    pub type_id: u32,
    pub locals: Vec<(u32, ValType)>,
    pub operators: Vec<Code>,
}

pub enum ParsedElementKind<Op> {
    /// The element segment is passive.
    Passive,
    /// The element segment is active.
    Active {
        /// The index of the table being initialized.
        table_index: Option<u32>,
        /// The initial expression of the element segment.
        offset_expr: Vec<Op>,
    },
    /// The element segment is declared.
    Declared,
}

pub struct ParsedElement<Op> {
    pub kind: ParsedElementKind<Op>,
    /// The initial elements of the element segment.
    pub items: Vec<Vec<Op>>,
    /// The type of the elements.
    pub ty: ValType,
    /// The range of the the element segment.
    pub range: core::ops::Range<u64>,
}

pub enum ParsedDataKind<Op> {
    /// The data segment is passive.
    Passive,
    /// The data segment is active.
    Active {
        /// The memory index for the data segment.
        memory_index: u32,
        /// The initialization expression for the data segment.
        offset_expr: Vec<Op>,
    },
}

pub struct ParsedData<Op> {
    /// The kind of data segment.
    pub kind: ParsedDataKind<Op>,
    /// The data of the data segment.
    pub data: Vec<u8>,
    /// The range of the data segment.
    pub range: core::ops::Range<u64>,
}

pub struct ParsedTable<Op> {
    /// The type of this table, including its element type and its limits.
    pub ty: TableType,
    /// The initialization expression for the table.
    pub init: ParsedTableInit<Op>,
}

/// Different modes of initializing a table.
pub enum ParsedTableInit<Op> {
    /// The table is initialized to all null elements.
    RefNull,
    /// Each element in the table is initialized with the specified constant expression.
    Expr(Vec<Op>),
}

/// The export of a given name among name and export pairs: the first one that has the name.
pub open spec fn spec_find_export(exports: Seq<(String, ModuleExport)>, name: Seq<char>) -> Option<
    ModuleExport,
>
    decreases exports.len(),
{
    if exports.len() == 0 {
        None
    } else if exports[0].0@ == name {
        Some(exports[0].1)
    } else {
        spec_find_export(exports.drop_first(), name)
    }
}

/// The pairs after an export is added: it replaces the first pair of its name, or goes at the
/// end when no pair has its name, so a name is never added twice.
pub open spec fn spec_add_export(
    exports: Seq<(String, ModuleExport)>,
    entry: (String, ModuleExport),
) -> Seq<(String, ModuleExport)>
    decreases exports.len(),
{
    if exports.len() == 0 {
        seq![entry]
    } else if exports[0].0@ == entry.0@ {
        exports.update(0, entry)
    } else {
        seq![exports[0]] + spec_add_export(exports.drop_first(), entry)
    }
}

/// Adding an export whose name first occurs at `i` replaces the pair at `i`.
proof fn lemma_add_export_at(
    exports: Seq<(String, ModuleExport)>,
    entry: (String, ModuleExport),
    i: int,
)
    requires
        0 <= i < exports.len(),
        exports[i].0@ == entry.0@,
        forall|j: int| 0 <= j < i ==> (#[trigger] exports[j]).0@ != entry.0@,
    ensures
        spec_add_export(exports, entry) == exports.update(i, entry),
    decreases i,
{
    if i > 0 {
        let rest = exports.drop_first();
        assert forall|j: int| 0 <= j < i - 1 implies (#[trigger] rest[j]).0@ != entry.0@ by {
            assert(rest[j] == exports[j + 1]);
        }
        lemma_add_export_at(rest, entry, i - 1);
        assert(exports[0].0@ != entry.0@);
        assert(seq![exports[0]] + rest.update(i - 1, entry) =~= exports.update(i, entry));
    }
}

/// Adding an export whose name no pair has puts it at the end.
proof fn lemma_add_export_new(exports: Seq<(String, ModuleExport)>, entry: (String, ModuleExport))
    requires
        forall|j: int| 0 <= j < exports.len() ==> (#[trigger] exports[j]).0@ != entry.0@,
    ensures
        spec_add_export(exports, entry) == exports.push(entry),
    decreases exports.len(),
{
    if exports.len() > 0 {
        let rest = exports.drop_first();
        assert forall|j: int| 0 <= j < rest.len() implies (#[trigger] rest[j]).0@ != entry.0@ by {
            assert(rest[j] == exports[j + 1]);
        }
        lemma_add_export_new(rest, entry);
        assert(exports[0].0@ != entry.0@);
        assert(seq![exports[0]] + rest.push(entry) =~= exports.push(entry));
    }
}

/// The parts of a module, as it is read section by section.
pub struct ParsedModule<Op, Code> {
    pub types: Vec<FuncType>,
    pub imports: Vec<(String, String, ImportTypeRef)>,
    pub tables: Vec<ParsedTable<Op>>,
    pub memories: Vec<MemoryType>,
    pub globals: Vec<Global<Op>>,
    pub exports: Vec<(String, ModuleExport)>,
    pub start_func: Option<u32>,
    pub elements: Vec<ParsedElement<Op>>,
    pub datas: Vec<ParsedData<Op>>,
    pub functions: Vec<ParsedFunc<Code>>,
}

impl<Op, Code> ParsedModule<Op, Code> {
    /// The export with the given name, if any.
    pub open spec fn spec_export(&self, name: Seq<char>) -> Option<ModuleExport> {
        spec_find_export(self.exports@, name)
    }

    /// Finds the export with the given name.
    pub fn export(&self, name: &str) -> (r: Option<ModuleExport>)
        ensures
            r == self.spec_export(name@),
    {
        let wanted = String::from_str(name);
        let mut i: usize = 0;
        proof {
            assert(self.exports@.skip(0) =~= self.exports@);
        }
        while i < self.exports.len()
            invariant
                i <= self.exports@.len(),
                wanted@ == name@,
                spec_find_export(self.exports@, name@) == spec_find_export(
                    self.exports@.skip(i as int),
                    name@,
                ),
            decreases self.exports.len() - i,
        {
            let ghost rest = self.exports@.skip(i as int);
            proof {
                assert(rest[0] == self.exports@[i as int]);
                assert(rest.drop_first() =~= self.exports@.skip(i + 1));
            }
            if self.exports[i].0 == wanted {
                return Some(self.exports[i].1);
            }
            i = i + 1;
        }
        None
    }
}

/// Looking up a name after an export was added under it gives that export; other names give
/// what they gave before.
pub proof fn law_export_lookup_after_add(
    exports: Seq<(String, ModuleExport)>,
    name: String,
    entity: ModuleExport,
    other: Seq<char>,
)
    ensures
        spec_find_export(spec_add_export(exports, (name, entity)), name@) == Some(entity),
        other != name@ ==> spec_find_export(spec_add_export(exports, (name, entity)), other)
            == spec_find_export(exports, other),
    decreases exports.len(),
{
    let added = spec_add_export(exports, (name, entity));
    if exports.len() == 0 {
        assert(added.drop_first() =~= exports);
    } else {
        if exports[0].0@ == name@ {
            assert(added.drop_first() =~= exports.drop_first());
        } else {
            law_export_lookup_after_add(exports.drop_first(), name, entity, other);
            assert(added.drop_first() =~= spec_add_export(exports.drop_first(), (name, entity)));
        }
    }
}

/// No two pairs have the same name.
pub open spec fn names_unique(exports: Seq<(String, ModuleExport)>) -> bool {
    forall|i: int, j: int|
        0 <= i < j < exports.len() ==> #[trigger] exports[i].0@ != #[trigger] exports[j].0@
}

/// Adding an export never gives a name two pairs when it had at most one.
pub proof fn law_add_export_keeps_names_unique(
    exports: Seq<(String, ModuleExport)>,
    entry: (String, ModuleExport),
)
    requires
        names_unique(exports),
    ensures
        names_unique(spec_add_export(exports, entry)),
        forall|k: int|
            0 <= k < spec_add_export(exports, entry).len() ==> (#[trigger] spec_add_export(
                exports,
                entry,
            )[k]).0@ == entry.0@ || exists|j: int|
                0 <= j < exports.len() && exports[j].0@ == spec_add_export(exports, entry)[k].0@,
    decreases exports.len(),
{
    let added = spec_add_export(exports, entry);
    if exports.len() == 0 {
    } else if exports[0].0@ == entry.0@ {
        assert forall|k: int| 0 <= k < added.len() implies (#[trigger] added[k]).0@ == entry.0@
            || exists|j: int| 0 <= j < exports.len() && exports[j].0@ == added[k].0@ by {
            if k > 0 {
                assert(exports[k].0@ == added[k].0@);
            }
        }
    } else {
        let rest = exports.drop_first();
        assert forall|i: int, j: int| 0 <= i < j < rest.len() implies #[trigger] rest[i].0@
            != #[trigger] rest[j].0@ by {
            assert(rest[i] == exports[i + 1] && rest[j] == exports[j + 1]);
        }
        law_add_export_keeps_names_unique(rest, entry);
        let tail = spec_add_export(rest, entry);
        assert(added =~= seq![exports[0]] + tail);
        assert forall|k: int| 0 <= k < tail.len() implies (#[trigger] tail[k]).0@ != exports[0].0@ by {
            if tail[k].0@ != entry.0@ {
                let j = choose|j: int| 0 <= j < rest.len() && rest[j].0@ == tail[k].0@;
                assert(rest[j] == exports[j + 1]);
            }
        }
        assert forall|k: int| 0 <= k < added.len() implies (#[trigger] added[k]).0@ == entry.0@
            || exists|j: int| 0 <= j < exports.len() && exports[j].0@ == added[k].0@ by {
            if k == 0 {
                assert(exports[0].0@ == added[0].0@);
            } else {
                assert(added[k] == tail[k - 1]);
                if tail[k - 1].0@ != entry.0@ {
                    let j = choose|j: int| 0 <= j < rest.len() && rest[j].0@ == tail[k - 1].0@;
                    assert(rest[j] == exports[j + 1]);
                }
            }
        }
        assert forall|i: int, j: int| 0 <= i < j < added.len() implies #[trigger] added[i].0@
            != #[trigger] added[j].0@ by {
            if i == 0 {
                assert(added[j] == tail[j - 1]);
            } else {
                assert(added[i] == tail[i - 1] && added[j] == tail[j - 1]);
            }
        }
    }
}

/// What a module reader holds: the parts read so far, and the types declared for function
/// bodies.
#[verifier::ext_equal]
pub struct ModuleView<Op, Code> {
    pub types: Seq<FuncType>,
    pub imports: Seq<(String, String, ImportTypeRef)>,
    pub tables: Seq<ParsedTable<Op>>,
    pub memories: Seq<MemoryType>,
    pub globals: Seq<Global<Op>>,
    pub exports: Seq<(String, ModuleExport)>,
    pub start_func: Option<u32>,
    pub elements: Seq<ParsedElement<Op>>,
    pub datas: Seq<ParsedData<Op>>,
    pub functions: Seq<ParsedFunc<Code>>,
    pub function_types: Seq<u32>,
}

impl<Op, Code> ModuleView<Op, Code> {
    /// Each function body read so far has the type declared for it: the bodies come in the
    /// order of the declarations; and no two exports have the same name.
    pub open spec fn wf(self) -> bool {
        &&& self.functions.len() <= self.function_types.len()
        &&& forall|k: int|
            0 <= k < self.functions.len() ==> (#[trigger] self.functions[k]).type_id
                == self.function_types[k]
        &&& names_unique(self.exports)
    }
}

/// Reads a module section by section, making the decisions that each section calls for.
pub struct ModuleEnviron<Op, Code> {
    function_types: Vec<u32>,
    result: ParsedModule<Op, Code>,
}

impl<Op, Code> View for ModuleEnviron<Op, Code> {
    type V = ModuleView<Op, Code>;

    closed spec fn view(&self) -> ModuleView<Op, Code> {
        ModuleView {
            types: self.result.types@,
            imports: self.result.imports@,
            tables: self.result.tables@,
            memories: self.result.memories@,
            globals: self.result.globals@,
            exports: self.result.exports@,
            start_func: self.result.start_func,
            elements: self.result.elements@,
            datas: self.result.datas@,
            functions: self.result.functions@,
            function_types: self.function_types@,
        }
    }
}

impl<Op, Code> ModuleEnviron<Op, Code> {
    /// Nothing read yet.
    pub fn new() -> (r: Self)
        ensures
            r@.types.len() == 0,
            r@.imports.len() == 0,
            r@.tables.len() == 0,
            r@.memories.len() == 0,
            r@.globals.len() == 0,
            r@.exports.len() == 0,
            r@.start_func is None,
            r@.elements.len() == 0,
            r@.datas.len() == 0,
            r@.functions.len() == 0,
            r@.function_types.len() == 0,
            r@.wf(),
    {
        ModuleEnviron {
            function_types: Vec::new(),
            result: ParsedModule {
                types: Vec::new(),
                imports: Vec::new(),
                tables: Vec::new(),
                memories: Vec::new(),
                globals: Vec::new(),
                exports: Vec::new(),
                start_func: None,
                elements: Vec::new(),
                datas: Vec::new(),
                functions: Vec::new(),
            },
        }
    }

    /// The header: only modules are read, not components.
    pub fn version(&self, is_component: bool) -> (r: Result<(), WasmError>)
        ensures
            r is Ok <==> !is_component,
            (r matches Err(WasmError::Unsupported(m)) && m@ == "component model"@) || r is Ok,
    {
        if is_component {
            return Err(WasmError::unsupported("component model"));
        }
        Ok(())
    }

    /// A function type of the type section.
    pub fn push_type(&mut self, ty: FuncType)
        ensures
            final(self)@ == (ModuleView { types: old(self)@.types.push(ty), ..old(self)@ }),
    {
        self.result.types.push(ty);
    }

    /// An import: exceptions are not supported.
    pub fn push_import(&mut self, module: String, name: String, entity: ImportEntity) -> (r:
        Result<(), WasmError>)
        ensures
            r is Ok <==> !(entity is Tag),
            r is Err ==> final(self)@ == old(self)@ && (r matches Err(WasmError::Unsupported(m))
                && m@ == "exceptions"@),
            r is Ok ==> final(self)@ == (ModuleView {
                imports: old(self)@.imports.push(
                    (
                        module,
                        name,
                        match entity {
                            ImportEntity::Func(i) => ImportTypeRef::Func(i),
                            ImportEntity::Table(t) => ImportTypeRef::Table(t),
                            ImportEntity::Memory(m) => ImportTypeRef::Memory(m),
                            ImportEntity::Global(g) => ImportTypeRef::Global(g),
                            ImportEntity::Tag => ImportTypeRef::Func(0),
                        },
                    ),
                ),
                ..old(self)@
            }),
    {
        let ty = match entity {
            ImportEntity::Func(index) => ImportTypeRef::Func(index),
            ImportEntity::Memory(ty) => ImportTypeRef::Memory(ty),
            ImportEntity::Global(ty) => ImportTypeRef::Global(ty),
            ImportEntity::Table(ty) => ImportTypeRef::Table(ty),
            ImportEntity::Tag => {
                return Err(WasmError::unsupported("exceptions"));
            },
        };
        self.result.imports.push((module, name, ty));
        Ok(())
    }

    /// The declared type of the next function body of the module.
    pub fn push_function_type(&mut self, type_index: u32)
        requires
            old(self)@.wf(),
        ensures
            final(self)@ == (ModuleView {
                function_types: old(self)@.function_types.push(type_index),
                ..old(self)@
            }),
            final(self)@.wf(),
    {
        self.function_types.push(type_index);
    }

    /// A table of the table section.
    pub fn push_table(&mut self, table: ParsedTable<Op>)
        ensures
            final(self)@ == (ModuleView { tables: old(self)@.tables.push(table), ..old(self)@ }),
    {
        self.result.tables.push(table);
    }

    /// A memory of the memory section.
    pub fn push_memory(&mut self, memory: MemoryType)
        ensures
            final(self)@ == (ModuleView {
                memories: old(self)@.memories.push(memory),
                ..old(self)@
            }),
    {
        self.result.memories.push(memory);
    }

    /// The tag section: exceptions are not supported.
    pub fn tag_section(&self) -> (r: WasmError)
        ensures
            r matches WasmError::Unsupported(m) && m@ == "exceptions"@,
    {
        WasmError::unsupported("exceptions")
    }

    /// A global of the global section.
    pub fn push_global(&mut self, global: Global<Op>)
        ensures
            final(self)@ == (ModuleView { globals: old(self)@.globals.push(global), ..old(self)@ }),
    {
        self.result.globals.push(global);
    }

    /// An export of the export section; a later export under a name replaces an earlier one.
    pub fn push_export(&mut self, name: String, kind: ExportKind, index: u32) -> (r: Result<
        (),
        WasmError,
    >)
        requires
            old(self)@.wf(),
        ensures
            final(self)@.wf(),
            r is Ok <==> !(kind is Tag),
            r is Err ==> final(self)@ == old(self)@ && (r matches Err(WasmError::Unsupported(m))
                && m@ == "exceptions"@),
            r is Ok ==> final(self)@ == (ModuleView {
                exports: spec_add_export(old(self)@.exports, (name, export_entity(kind, index))),
                ..old(self)@
            }),
    {
        let entity = match kind {
            ExportKind::Func => ModuleExport::Func(index as usize),
            ExportKind::Table => ModuleExport::Table(index as usize),
            ExportKind::Memory => ModuleExport::Memory(index as usize),
            ExportKind::Global => ModuleExport::Global(index as usize),
            ExportKind::Tag => {
                return Err(WasmError::unsupported("exceptions"));
            },
        };
        let mut i: usize = 0;
        while i < self.result.exports.len()
            invariant
                i <= self.result.exports@.len(),
                self@ == old(self)@,
                old(self)@.wf(),
                !(kind is Tag),
                entity == export_entity(kind, index),
                forall|j: int| 0 <= j < i ==> (#[trigger] self.result.exports@[j]).0@ != name@,
            decreases self.result.exports.len() - i,
        {
            if self.result.exports[i].0 == name {
                proof {
                    lemma_add_export_at(self.result.exports@, (name, entity), i as int);
                    law_add_export_keeps_names_unique(self.result.exports@, (name, entity));
                }
                self.result.exports.set(i, (name, entity));
                return Ok(());
            }
            i = i + 1;
        }
        proof {
            lemma_add_export_new(self.result.exports@, (name, entity));
            law_add_export_keeps_names_unique(self.result.exports@, (name, entity));
        }
        self.result.exports.push((name, entity));
        Ok(())
    }

    /// The start section; a module has at most one.
    pub fn set_start(&mut self, func: u32)
        requires
            old(self)@.start_func is None,
        ensures
            final(self)@ == (ModuleView { start_func: Some(func), ..old(self)@ }),
    {
        self.result.start_func = Some(func);
    }

    /// An element segment of the element section.
    pub fn push_element(&mut self, element: ParsedElement<Op>)
        ensures
            final(self)@ == (ModuleView {
                elements: old(self)@.elements.push(element),
                ..old(self)@
            }),
    {
        self.result.elements.push(element);
    }

    /// Whether a function type was declared for the next function body.
    pub fn has_pending_function_type(&self) -> (r: bool)
        ensures
            r == (self@.functions.len() < self@.function_types.len()),
    {
        self.result.functions.len() < self.function_types.len()
    }

    /// The start function, if the start section was read.
    pub fn start_func(&self) -> (r: Option<u32>)
        ensures
            r == self@.start_func,
    {
        self.result.start_func
    }

    /// The declared type of the next function body.
    pub fn next_function_type(&self) -> (r: u32)
        requires
            self@.functions.len() < self@.function_types.len(),
        ensures
            r == self@.function_types[self@.functions.len() as int],
    {
        self.function_types[self.result.functions.len()]
    }

    /// A function body of the code section, which takes the type declared for it.
    pub fn push_function(&mut self, locals: Vec<(u32, ValType)>, operators: Vec<Code>)
        requires
            old(self)@.wf(),
            old(self)@.functions.len() < old(self)@.function_types.len(),
        ensures
            final(self)@.wf(),
            final(self)@.functions.len() == old(self)@.functions.len() + 1,
            final(self)@ == (ModuleView { functions: final(self)@.functions, ..old(self)@ }),
            final(self)@.functions.drop_last() == old(self)@.functions,
            final(self)@.functions == old(self)@.functions.push(
                ParsedFunc {
                    type_id: old(self)@.function_types[old(self)@.functions.len() as int],
                    locals,
                    operators,
                },
            ),
            final(self)@.functions.last().type_id == old(self)@.function_types[old(
                self,
            )@.functions.len() as int],
            final(self)@.functions.last().locals@ == locals@,
            final(self)@.functions.last().operators@ == operators@,
    {
        let type_id = self.next_function_type();
        let func = ParsedFunc { locals, operators, type_id };
        self.result.functions.push(func);
        proof {
            assert(self@.functions.drop_last() =~= old(self)@.functions);
        }
    }

    /// A data segment of the data section.
    pub fn push_data(&mut self, data: ParsedData<Op>)
        ensures
            final(self)@ == (ModuleView { datas: old(self)@.datas.push(data), ..old(self)@ }),
    {
        self.result.datas.push(data);
    }

    /// A custom section: only the name section is accepted.
    pub fn custom_section(&self, name: &str) -> (r: Result<(), WasmError>)
        ensures
            name@ == "name"@ ==> r is Ok,
            name@ != "name"@ ==> (r matches Err(WasmError::Unsupported(m)) && m@
                == "custom section not supported: "@ + name@),
    {
        let given = String::from_str(name);
        let accepted = String::from_str("name");
        if given == accepted {
            Ok(())
        } else {
            let mut message = String::from_str("custom section not supported: ");
            message.append(name);
            Err(WasmError::Unsupported(message))
        }
    }

    /// The module, once all sections are read.
    pub fn finish(self) -> (r: ParsedModule<Op, Code>)
        ensures
            r.types@ == self@.types,
            r.imports@ == self@.imports,
            r.tables@ == self@.tables,
            r.memories@ == self@.memories,
            r.globals@ == self@.globals,
            r.exports@ == self@.exports,
            r.start_func == self@.start_func,
            r.elements@ == self@.elements,
            r.datas@ == self@.datas,
            r.functions@ == self@.functions,
    {
        self.result
    }
}

/// Each function body that is read takes the type declared for it at its position: the `k`th
/// body has the `k`th declared type, whatever the order of the other sections.
pub proof fn law_bodies_take_declared_types<Op, Code>(view: ModuleView<Op, Code>, k: int)
    requires
        view.wf(),
        0 <= k < view.functions.len(),
    ensures
        view.functions[k].type_id == view.function_types[k],
{
}

/// An error as a value of the specification: its kind and its text.
pub enum ErrorView {
    Invalid { message: Seq<char>, offset: u64 },
    Unsupported(Seq<char>),
}

/// The kind and text of an error.
pub open spec fn error_view(e: WasmError) -> ErrorView {
    match e {
        WasmError::InvalidWebAssembly { message, offset } => ErrorView::Invalid {
            message: message@,
            offset,
        },
        WasmError::Unsupported(m) => ErrorView::Unsupported(m@),
    }
}

/// A section of a module, or the error that reading or validating the module gave, in the
/// order of the module's bytes.
pub enum Section<Op, Code> {
    /// The header: whether it announces a component rather than a module.
    Version { is_component: bool },
    End,
    Types(Vec<FuncType>),
    Imports(Vec<(String, String, ImportEntity)>),
    Functions(Vec<u32>),
    Tables(Vec<ParsedTable<Op>>),
    Memories(Vec<MemoryType>),
    Tags,
    Globals(Vec<Global<Op>>),
    Exports(Vec<(String, ExportKind, u32)>),
    Start(u32),
    Elements(Vec<ParsedElement<Op>>),
    CodeStart,
    CodeEntry { locals: Vec<(u32, ValType)>, operators: Vec<Code> },
    DataCount,
    Datas(Vec<ParsedData<Op>>),
    Custom(String),
    /// Reading or validating the module's bytes failed here.
    Rejected(WasmError),
}

/// What reading sections gives: the module read so far, an error with what was read when it
/// came, or a stream that no module
/// gives (a second start section, or a function body without a declared type).
pub enum ReadOutcome<Op, Code> {
    Done(ModuleView<Op, Code>),
    /// The error, and what was read when it came: what the items before the refused one
    /// added, and nothing of the refused one.
    Failed(ErrorView, ModuleView<Op, Code>),
    Stuck,
}

/// Nothing read.
pub open spec fn empty_view<Op, Code>() -> ModuleView<Op, Code> {
    ModuleView {
        types: Seq::empty(),
        imports: Seq::empty(),
        tables: Seq::empty(),
        memories: Seq::empty(),
        globals: Seq::empty(),
        exports: Seq::empty(),
        start_func: None,
        elements: Seq::empty(),
        datas: Seq::empty(),
        functions: Seq::empty(),
        function_types: Seq::empty(),
    }
}

/// What an import brings in, for an import that is not a tag.
pub open spec fn import_ref(entity: ImportEntity) -> ImportTypeRef {
    match entity {
        ImportEntity::Func(i) => ImportTypeRef::Func(i),
        ImportEntity::Table(t) => ImportTypeRef::Table(t),
        ImportEntity::Memory(m) => ImportTypeRef::Memory(m),
        ImportEntity::Global(g) => ImportTypeRef::Global(g),
        ImportEntity::Tag => ImportTypeRef::Func(0),
    }
}

/// The export that an export of a kind other than a tag names.
pub open spec fn export_entity(kind: ExportKind, index: u32) -> ModuleExport {
    match kind {
        ExportKind::Func => ModuleExport::Func(index as usize),
        ExportKind::Table => ModuleExport::Table(index as usize),
        ExportKind::Memory => ModuleExport::Memory(index as usize),
        _ => ModuleExport::Global(index as usize),
    }
}

/// Adds imports in order; the first tag fails.
pub open spec fn spec_imports<Op, Code>(
    v: ModuleView<Op, Code>,
    items: Seq<(String, String, ImportEntity)>,
) -> ReadOutcome<Op, Code>
    decreases items.len(),
{
    if items.len() == 0 {
        ReadOutcome::Done(v)
    } else if items[0].2 is Tag {
        ReadOutcome::Failed(ErrorView::Unsupported("exceptions"@), v)
    } else {
        spec_imports(
            ModuleView {
                imports: v.imports.push((items[0].0, items[0].1, import_ref(items[0].2))),
                ..v
            },
            items.drop_first(),
        )
    }
}

/// Adds exports in order; the first tag fails.
pub open spec fn spec_exports<Op, Code>(
    v: ModuleView<Op, Code>,
    items: Seq<(String, ExportKind, u32)>,
) -> ReadOutcome<Op, Code>
    decreases items.len(),
{
    if items.len() == 0 {
        ReadOutcome::Done(v)
    } else if items[0].1 is Tag {
        ReadOutcome::Failed(ErrorView::Unsupported("exceptions"@), v)
    } else {
        spec_exports(
            ModuleView {
                exports: spec_add_export(
                    v.exports,
                    (items[0].0, export_entity(items[0].1, items[0].2)),
                ),
                ..v
            },
            items.drop_first(),
        )
    }
}

/// What one section does to what was read before it.
pub open spec fn spec_section<Op, Code>(v: ModuleView<Op, Code>, s: Section<Op, Code>) -> ReadOutcome<
    Op,
    Code,
> {
    match s {
        Section::Version { is_component } => if is_component {
            ReadOutcome::Failed(ErrorView::Unsupported("component model"@), v)
        } else {
            ReadOutcome::Done(v)
        },
        Section::End => ReadOutcome::Done(v),
        Section::Types(ts) => ReadOutcome::Done(ModuleView { types: v.types + ts@, ..v }),
        Section::Imports(items) => spec_imports(v, items@),
        Section::Functions(fs) => ReadOutcome::Done(
            ModuleView { function_types: v.function_types + fs@, ..v },
        ),
        Section::Tables(ts) => ReadOutcome::Done(ModuleView { tables: v.tables + ts@, ..v }),
        Section::Memories(ms) => ReadOutcome::Done(ModuleView { memories: v.memories + ms@, ..v }),
        Section::Tags => ReadOutcome::Failed(ErrorView::Unsupported("exceptions"@), v),
        Section::Globals(gs) => ReadOutcome::Done(ModuleView { globals: v.globals + gs@, ..v }),
        Section::Exports(items) => spec_exports(v, items@),
        Section::Start(func) => if v.start_func is Some {
            ReadOutcome::Stuck
        } else {
            ReadOutcome::Done(ModuleView { start_func: Some(func), ..v })
        },
        Section::Elements(es) => ReadOutcome::Done(ModuleView { elements: v.elements + es@, ..v }),
        Section::CodeStart => ReadOutcome::Done(v),
        Section::CodeEntry { locals, operators } => if v.functions.len()
            < v.function_types.len() {
            ReadOutcome::Done(
                ModuleView {
                    functions: v.functions.push(
                        ParsedFunc {
                            type_id: v.function_types[v.functions.len() as int],
                            locals,
                            operators,
                        },
                    ),
                    ..v
                },
            )
        } else {
            ReadOutcome::Stuck
        },
        Section::DataCount => ReadOutcome::Done(v),
        Section::Datas(ds) => ReadOutcome::Done(ModuleView { datas: v.datas + ds@, ..v }),
        Section::Custom(name) => if name@ == "name"@ {
            ReadOutcome::Done(v)
        } else {
            ReadOutcome::Failed(
                ErrorView::Unsupported("custom section not supported: "@ + name@),
                v,
            )
        },
        Section::Rejected(e) => ReadOutcome::Failed(error_view(e), v),
    }
}

/// What reading the sections in order gives: each in turn, the first error or stuck section
/// ending the reading.
pub open spec fn spec_translate<Op, Code>(
    v: ModuleView<Op, Code>,
    sections: Seq<Section<Op, Code>>,
) -> ReadOutcome<Op, Code>
    decreases sections.len(),
{
    if sections.len() == 0 {
        ReadOutcome::Done(v)
    } else {
        match spec_section(v, sections[0]) {
            ReadOutcome::Done(next) => spec_translate(next, sections.drop_first()),
            other => other,
        }
    }
}

/// Whether a module holds exactly what a view of a reading says.
pub open spec fn module_is<Op, Code>(m: ParsedModule<Op, Code>, v: ModuleView<Op, Code>) -> bool {
    &&& m.types@ == v.types
    &&& m.imports@ == v.imports
    &&& m.tables@ == v.tables
    &&& m.memories@ == v.memories
    &&& m.globals@ == v.globals
    &&& m.exports@ == v.exports
    &&& m.start_func == v.start_func
    &&& m.elements@ == v.elements
    &&& m.datas@ == v.datas
    &&& m.functions@ == v.functions
}

proof fn lemma_imports_never_stuck<Op, Code>(
    v: ModuleView<Op, Code>,
    items: Seq<(String, String, ImportEntity)>,
)
    ensures
        !(spec_imports(v, items) is Stuck),
    decreases items.len(),
{
    if items.len() > 0 && !(items[0].2 is Tag) {
        lemma_imports_never_stuck(
            ModuleView {
                imports: v.imports.push((items[0].0, items[0].1, import_ref(items[0].2))),
                ..v
            },
            items.drop_first(),
        );
    }
}

proof fn lemma_exports_never_stuck<Op, Code>(
    v: ModuleView<Op, Code>,
    items: Seq<(String, ExportKind, u32)>,
)
    ensures
        !(spec_exports(v, items) is Stuck),
    decreases items.len(),
{
    if items.len() > 0 && !(items[0].1 is Tag) {
        lemma_exports_never_stuck(
            ModuleView {
                exports: spec_add_export(
                    v.exports,
                    (items[0].0, export_entity(items[0].1, items[0].2)),
                ),
                ..v
            },
            items.drop_first(),
        );
    }
}

/// A stream of sections that some module gives: no second start section, and a declared type
/// for every function body.
pub open spec fn sections_readable<Op, Code>(sections: Seq<Section<Op, Code>>) -> bool {
    !(spec_translate(empty_view(), sections) is Stuck)
}

impl<Op, Code> ModuleEnviron<Op, Code> {
    fn apply_imports(&mut self, items: Vec<(String, String, ImportEntity)>) -> (r: Result<
        (),
        WasmError,
    >)
        requires
            old(self)@.wf(),
        ensures
            final(self)@.wf(),
            match spec_imports(old(self)@, items@) {
                ReadOutcome::Done(v) => r is Ok && final(self)@ == v,
                ReadOutcome::Failed(ev, w) => r matches Err(e) && error_view(e) == ev
                    && final(self)@ == w,
                ReadOutcome::Stuck => false,
            },
    {
        let mut rest = items;
        while rest.len() > 0
            invariant
                self@.wf(),
                spec_imports(self@, rest@) == spec_imports(old(self)@, items@),
            decreases rest@.len(),
        {
            let ghost before = rest@;
            let (module, name, entity) = rest.remove(0);
            proof {
                assert(rest@ =~= before.drop_first());
            }
            match self.push_import(module, name, entity) {
                Ok(()) => {},
                Err(e) => {
                    return Err(e);
                },
            }
        }
        Ok(())
    }

    fn apply_exports(&mut self, items: Vec<(String, ExportKind, u32)>) -> (r: Result<
        (),
        WasmError,
    >)
        requires
            old(self)@.wf(),
        ensures
            final(self)@.wf(),
            match spec_exports(old(self)@, items@) {
                ReadOutcome::Done(v) => r is Ok && final(self)@ == v,
                ReadOutcome::Failed(ev, w) => r matches Err(e) && error_view(e) == ev
                    && final(self)@ == w,
                ReadOutcome::Stuck => false,
            },
    {
        let mut rest = items;
        while rest.len() > 0
            invariant
                self@.wf(),
                spec_exports(self@, rest@) == spec_exports(old(self)@, items@),
            decreases rest@.len(),
        {
            let ghost before = rest@;
            let (name, kind, index) = rest.remove(0);
            proof {
                assert(rest@ =~= before.drop_first());
            }
            match self.push_export(name, kind, index) {
                Ok(()) => {},
                Err(e) => {
                    return Err(e);
                },
            }
        }
        Ok(())
    }

    /// Whether a section cannot follow what was read: a second start section, or a function
    /// body beyond the declared types.
    pub fn stuck_on(&self, section: &Section<Op, Code>) -> (r: bool)
        ensures
            r == spec_section(self@, *section) is Stuck,
    {
        match section {
            Section::Start(_) => self.result.start_func.is_some(),
            Section::CodeEntry { .. } => self.result.functions.len()
                >= self.function_types.len(),
            Section::Imports(items) => {
                proof {
                    lemma_imports_never_stuck(self@, items@);
                }
                false
            },
            Section::Exports(items) => {
                proof {
                    lemma_exports_never_stuck(self@, items@);
                }
                false
            },
            _ => false,
        }
    }

    /// Reads one section.
    pub fn apply_section(&mut self, section: Section<Op, Code>) -> (r: Result<(), WasmError>)
        requires
            old(self)@.wf(),
            !(spec_section(old(self)@, section) is Stuck),
        ensures
            final(self)@.wf(),
            match spec_section(old(self)@, section) {
                ReadOutcome::Done(v) => r is Ok && final(self)@ == v,
                ReadOutcome::Failed(ev, w) => r matches Err(e) && error_view(e) == ev
                    && final(self)@ == w,
                ReadOutcome::Stuck => false,
            },
    {
        match section {
            Section::Version { is_component } => self.version(is_component),
            Section::End => Ok(()),
            Section::Types(ts) => {
                let mut ts = ts;
                self.result.types.append(&mut ts);
                Ok(())
            },
            Section::Imports(items) => self.apply_imports(items),
            Section::Functions(fs) => {
                let mut fs = fs;
                self.function_types.append(&mut fs);
                Ok(())
            },
            Section::Tables(ts) => {
                let mut ts = ts;
                self.result.tables.append(&mut ts);
                Ok(())
            },
            Section::Memories(ms) => {
                let mut ms = ms;
                self.result.memories.append(&mut ms);
                Ok(())
            },
            Section::Tags => Err(self.tag_section()),
            Section::Globals(gs) => {
                let mut gs = gs;
                self.result.globals.append(&mut gs);
                Ok(())
            },
            Section::Exports(items) => self.apply_exports(items),
            Section::Start(func) => {
                self.set_start(func);
                Ok(())
            },
            Section::Elements(es) => {
                let mut es = es;
                self.result.elements.append(&mut es);
                Ok(())
            },
            Section::CodeStart => Ok(()),
            Section::CodeEntry { locals, operators } => {
                self.push_function(locals, operators);
                Ok(())
            },
            Section::DataCount => Ok(()),
            Section::Datas(ds) => {
                let mut ds = ds;
                self.result.datas.append(&mut ds);
                Ok(())
            },
            Section::Custom(name) => self.custom_section(name.as_str()),
            Section::Rejected(e) => Err(e),
        }
    }
}

/// Reads a module from its sections in order: the module, or the first error.
pub fn translate<Op, Code>(sections: Vec<Section<Op, Code>>) -> (r: Result<
    ParsedModule<Op, Code>,
    WasmError,
>)
    requires
        sections_readable(sections@),
    ensures
        match spec_translate(empty_view(), sections@) {
            ReadOutcome::Done(v) => r matches Ok(m) && module_is(m, v),
            ReadOutcome::Failed(ev, _) => r matches Err(e) && error_view(e) == ev,
            ReadOutcome::Stuck => false,
        },
{
    let mut env: ModuleEnviron<Op, Code> = ModuleEnviron::new();
    proof {
        assert(env@ =~= empty_view());
    }
    let ghost all = sections@;
    let mut rest = sections;
    while rest.len() > 0
        invariant
            all == sections@,
            env@.wf(),
            spec_translate(env@, rest@) == spec_translate(empty_view(), all),
            !(spec_translate(empty_view(), all) is Stuck),
        decreases rest@.len(),
    {
        let ghost before = rest@;
        let ghost v0 = env@;
        let section = rest.remove(0);
        proof {
            assert(rest@ =~= before.drop_first());
            assert(before[0] == section);
            assert(spec_translate(v0, before) == match spec_section(v0, section) {
                ReadOutcome::Done(next) => spec_translate(next, rest@),
                other => other,
            });
        }
        match env.apply_section(section) {
            Ok(()) => {},
            Err(e) => {
                proof {
                    assert(spec_section(v0, section) is Failed);
                    assert(spec_translate(empty_view(), all) matches ReadOutcome::Failed(ev, _)
                        && ev == error_view(e));
                }
                return Err(e);
            },
        }
    }
    Ok(env.finish())
}

} // verus!
