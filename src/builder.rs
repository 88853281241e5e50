use crate::abi::{func_decl_result, function_decl, global_decl, global_decl_result};
use crate::memory::{apply_chunk, memory_decl_text, new_image, push_memory_decl, write_at, zeros, PAGE_SIZE};
use crate::text::{dec_text, push_dec};
use crate::types::{Event, FuncEntry, FuncSig, GlueError, InitExpr, ValType};
use vstd::prelude::*;

verus! {

/// What an initializer expression currently initializes.
#[derive(Clone, Copy, Debug, PartialEq, Eq, Structural)]
pub enum InitContext {
    Neither,
    /// An active data segment aimed at `memory`, with the offset at which its
    /// next chunk goes once the offset is known.
    Data { memory: u32, offset: Option<u64> },
    /// A global of the given type and mutability.
    Global { content: ValType, mutable: bool },
}

/// A global whose definition was emitted.
#[derive(Clone, Copy, Debug, PartialEq, Eq, Structural)]
pub struct GlobalEntry {
    pub content: ValType,
    pub mutable: bool,
    pub init: InitExpr,
}

/// The model built in one pass over a module's events, and the glue text
/// emitted so far.
pub struct GlueBuilder {
    /// The output module's name, which keys the header guard.
    pub name: String,
    /// The declared function types, by index.
    pub types: Vec<FuncSig>,
    /// The function index space: imports, then local definitions.
    pub functions: Vec<FuncEntry>,
    /// How many entries of `functions` are imports.
    pub imports: usize,
    /// The initial element count of each table.
    pub tables: Vec<u64>,
    /// The globals, in declaration order.
    pub globals: Vec<GlobalEntry>,
    /// The image of each memory.
    pub memories: Vec<Vec<u8>>,
    pub context: InitContext,
    /// Whether the entry point was exported, so that `main` is emitted.
    pub has_main: bool,
    /// The glue header text.
    pub header: String,
    /// The payload of the precompiled object section, once seen.
    pub object: Option<Vec<u8>>,
    /// Whether the end of the module was consumed.
    pub finished: bool,
}

/// The name of the custom section that holds the precompiled object.
pub open spec fn object_section_name() -> Seq<char> {
    "wavm.precompiled_object"@
}

/// The name of the exported entry point.
pub open spec fn entry_point_name() -> Seq<char> {
    "_start"@
}

/// The symbol of the `k`-th imported function.
pub open spec fn import_symbol(k: nat) -> Seq<char> {
    "functionImport"@ + dec_text(k)
}

/// The symbol of the `k`-th local function.
pub open spec fn local_symbol(k: nat) -> Seq<char> {
    "functionDef"@ + dec_text(k)
}

/// The header's fixed opening for a module named `name`.
pub open spec fn prologue_text(name: Seq<char>) -> Seq<char> {
    "#include<stddef.h>\n#include<stdint.h>\n\n#ifndef "@ + name + "_GLUE_H"@ + "\n#define "@
        + name + "_GLUE_H"@ + "\n\n"@ + ret_struct_text("int32_t"@) + ret_struct_text("int64_t"@)
        + ret_struct_text("float"@) + ret_struct_text("double"@)
        + "const uint64_t functionDefMutableData = 0;\nconst uint64_t biasedInstanceId = 0;\nconst uint64_t tableReferenceBias = 0;\n\n"@
}

/// The return wrapper struct of scalar type `t`.
pub open spec fn ret_struct_text(t: Seq<char>) -> Seq<char> {
    "typedef struct {\n  void* dummy;\n  "@ + t + " value;\n} wavm_ret_"@ + t + ";\n\n"@
}

/// The text of a type-section entry with index `i`.
pub open spec fn type_text(i: nat) -> Seq<char> {
    "const uint64_t typeId"@ + dec_text(i) + " = 0;\n"@
}

/// The text of the `k`-th import, whose declaration is `decl`.
pub open spec fn import_text(module: Seq<char>, field: Seq<char>, k: nat, decl: Seq<char>) -> Seq<
    char,
> {
    "#define wavm_"@ + module + "_"@ + field + " "@ + import_symbol(k) + "\n"@ + "extern "@ + decl
        + ";\n"@
}

/// The text of the `k`-th local function, whose declaration is `decl`.
pub open spec fn function_text(k: nat, decl: Seq<char>) -> Seq<char> {
    "extern "@ + decl + ";\n"@ + "const uint64_t functionDefMutableDatas"@ + dec_text(k)
        + " = 0;\n"@
}

/// The alias of an export named `field` of the `k`-th local function.
pub open spec fn export_text(field: Seq<char>, k: nat) -> Seq<char> {
    "#define wavm_exported_function_"@ + field + " "@ + local_symbol(k) + "\n"@
}

/// The zero-filled storage of table `t` with `count` slots.
pub open spec fn table_text(t: nat, count: nat) -> Seq<char> {
    "uintptr_t table"@ + dec_text(t) + "["@ + dec_text(count) + "] = { 0 };\n"@
        + "uintptr_t* tableOffset"@ + dec_text(t) + " = table"@ + dec_text(t) + ";\n"@
}

/// The declarations of the memories `mems`, numbered from 0.
pub open spec fn memories_text(mems: Seq<Seq<u8>>) -> Seq<char>
    decreases mems.len(),
{
    if mems.len() == 0 {
        Seq::empty()
    } else {
        memories_text(mems.drop_last()) + memory_decl_text((mems.len() - 1) as nat, mems.last())
    }
}

/// The `main` function that calls the exported entry point.
pub open spec fn main_text() -> Seq<char> {
    "\nint main() {\n  wavm_exported_function__start(NULL);\n  // This should not be reached\n  return -1;\n}\n"@
}

/// The header's closing: memories, `main` if wanted, and the end of the guard.
pub open spec fn epilogue_text(mems: Seq<Seq<u8>>, has_main: bool, name: Seq<char>) -> Seq<char> {
    memories_text(mems) + (if has_main { main_text() } else { Seq::empty() }) + "\n#endif /* "@
        + name + "_GLUE_H"@ + " */\n"@
}

/// The parts of a builder that an event may change.
#[derive(Clone, Copy, Debug, PartialEq, Eq, Structural)]
pub enum Part {
    Types,
    Functions,
    Tables,
    Globals,
    Images,
    Context,
    Main,
    Object,
    Finished,
    Header,
}

/// The builder failed with `e` and is as it was.
pub open spec fn fails(a: GlueBuilder, b: GlueBuilder, r: Result<(), GlueError>, e: GlueError) -> bool {
    r == Err::<(), GlueError>(e) && b.keeps(&a, Set::empty())
}

/// A type-section entry: its type is recorded and its marker emitted.
pub open spec fn type_step(a: GlueBuilder, b: GlueBuilder, sig: FuncSig, r: Result<(), GlueError>) -> bool {
    &&& r == Ok::<(), GlueError>(())
    &&& b.keeps(&a, set![Part::Types, Part::Header])
    &&& b.types@ == a.types@.push(sig)
    &&& b.header@ == a.header@ + type_text(a.types@.len())
}

/// An imported function: it takes the next import number, its import-order
/// alias and declaration are emitted. Imports after local functions break
/// the index space's order and are refused.
pub open spec fn import_step(
    a: GlueBuilder,
    b: GlueBuilder,
    module: Seq<char>,
    field: Seq<char>,
    ti: u32,
    r: Result<(), GlueError>,
) -> bool {
    if a.locals() > 0 {
        fails(a, b, r, GlueError::DecoderError)
    } else if ti >= a.types@.len() {
        fails(a, b, r, GlueError::MissingIndex)
    } else {
        let sig = a.types@[ti as int];
        match func_decl_result(sig.params@, sig.results@, import_symbol(a.imports as nat)) {
            Err(e) => fails(a, b, r, e),
            Ok(d) => {
                &&& r == Ok::<(), GlueError>(())
                &&& b.keeps(&a, set![Part::Functions, Part::Header])
                &&& b.functions@ == a.functions@.push(FuncEntry::Imported(a.imports))
                &&& b.imports == a.imports + 1
                &&& b.header@ == a.header@ + import_text(module, field, a.imports as nat, d)
            },
        }
    }
}

/// A local function: it takes the next local number and its declaration is
/// emitted.
pub open spec fn function_step(a: GlueBuilder, b: GlueBuilder, ti: u32, r: Result<(), GlueError>) -> bool {
    if ti >= a.types@.len() {
        fails(a, b, r, GlueError::MissingIndex)
    } else {
        let sig = a.types@[ti as int];
        match func_decl_result(sig.params@, sig.results@, local_symbol(a.locals())) {
            Err(e) => fails(a, b, r, e),
            Ok(d) => {
                &&& r == Ok::<(), GlueError>(())
                &&& b.keeps(&a, set![Part::Functions, Part::Header])
                &&& b.functions@ == a.functions@.push(FuncEntry::Local(a.locals() as usize))
                &&& b.imports == a.imports
                &&& b.header@ == a.header@ + function_text(a.locals(), d)
            },
        }
    }
}

/// An exported function: a local one gets an alias, an imported one is
/// refused; exporting the entry point asks for `main`.
pub open spec fn export_step(
    a: GlueBuilder,
    b: GlueBuilder,
    field: Seq<char>,
    index: u32,
    r: Result<(), GlueError>,
) -> bool {
    if index >= a.functions@.len() {
        fails(a, b, r, GlueError::MissingIndex)
    } else {
        match a.functions@[index as int] {
            FuncEntry::Imported(_) => fails(a, b, r, GlueError::UnresolvedExport),
            FuncEntry::Local(k) => {
                &&& r == Ok::<(), GlueError>(())
                &&& b.keeps(&a, set![Part::Main, Part::Header])
                &&& b.has_main == (a.has_main || field == entry_point_name())
                &&& b.header@ == a.header@ + export_text(field, k as nat)
            },
        }
    }
}

/// A table: its zero-filled storage is emitted.
pub open spec fn table_step(a: GlueBuilder, b: GlueBuilder, count: u64, r: Result<(), GlueError>) -> bool {
    &&& r == Ok::<(), GlueError>(())
    &&& b.keeps(&a, set![Part::Tables, Part::Header])
    &&& b.tables@ == a.tables@.push(count)
    &&& b.header@ == a.header@ + table_text(a.tables@.len(), count as nat)
}

/// A memory: a zero image of its initial size is added.
pub open spec fn memory_step(a: GlueBuilder, b: GlueBuilder, pages: u64, r: Result<(), GlueError>) -> bool {
    if pages * PAGE_SIZE > usize::MAX {
        fails(a, b, r, GlueError::MemoryTooLarge)
    } else {
        &&& r == Ok::<(), GlueError>(())
        &&& b.keeps(&a, set![Part::Images])
        &&& b.images() == a.images().push(zeros((pages * PAGE_SIZE) as nat))
    }
}

/// An event that only sets what initializers go to.
pub open spec fn context_step(a: GlueBuilder, b: GlueBuilder, c: InitContext, r: Result<(), GlueError>) -> bool {
    &&& r == Ok::<(), GlueError>(())
    &&& b.keeps(&a, set![Part::Context])
    &&& b.context == c
}

/// An initializer operator: in a data segment an `i32` constant sets the
/// offset, any other operator is passed over; in a global the constant of
/// the global's type makes its definition be emitted.
pub open spec fn init_step(a: GlueBuilder, b: GlueBuilder, e: InitExpr, r: Result<(), GlueError>) -> bool {
    match a.context {
        InitContext::Neither => r == Ok::<(), GlueError>(()) && b.keeps(&a, Set::empty()),
        InitContext::Data { memory, offset } => match e {
            InitExpr::I32Const(v) => context_step(
                a,
                b,
                InitContext::Data { memory, offset: Some(v as u32 as u64) },
                r,
            ),
            _ => r == Ok::<(), GlueError>(()) && b.keeps(&a, Set::empty()),
        },
        InitContext::Global { content, mutable } => match global_decl_result(
            a.globals@.len(),
            content,
            mutable,
            e,
        ) {
            Err(x) => fails(a, b, r, x),
            Ok(text) => {
                &&& r == Ok::<(), GlueError>(())
                &&& b.keeps(&a, set![Part::Globals, Part::Header])
                &&& b.globals@ == a.globals@.push(GlobalEntry { content, mutable, init: e })
                &&& b.header@ == a.header@ + text
            },
        },
    }
}

/// A chunk of a data segment whose memory and offset are known is written
/// into the image there, and the offset moves past it; any other chunk is
/// passed over.
pub open spec fn chunk_step(a: GlueBuilder, b: GlueBuilder, data: Seq<u8>, r: Result<(), GlueError>) -> bool {
    match a.context {
        InitContext::Data { memory, offset: Some(off) } => {
            if memory >= a.images().len() {
                fails(a, b, r, GlueError::MissingIndex)
            } else if off + data.len() > a.images()[memory as int].len() {
                fails(a, b, r, GlueError::OutOfBounds)
            } else {
                &&& r == Ok::<(), GlueError>(())
                &&& b.keeps(&a, set![Part::Images, Part::Context])
                &&& b.images() == a.images().update(
                    memory as int,
                    write_at(a.images()[memory as int], off as int, data),
                )
                &&& b.context == InitContext::Data {
                    memory,
                    offset: Some((off + data.len()) as u64),
                }
            }
        },
        _ => r == Ok::<(), GlueError>(()) && b.keeps(&a, Set::empty()),
    }
}

/// A custom section: the precompiled object's payload is kept, any other is
/// passed over.
pub open spec fn custom_step(
    a: GlueBuilder,
    b: GlueBuilder,
    name: Seq<char>,
    data: Seq<u8>,
    r: Result<(), GlueError>,
) -> bool {
    &&& r == Ok::<(), GlueError>(())
    &&& if name == object_section_name() {
        &&& b.keeps(&a, set![Part::Object])
        &&& b.object_bytes() == Some(
            match a.object_bytes() {
                Some(p) => p + data,
                None => data,
            },
        )
    } else {
        b.keeps(&a, Set::empty())
    }
}

/// The end of the module: the memories, `main` if asked for, and the
/// header's closing are emitted.
pub open spec fn end_step(a: GlueBuilder, b: GlueBuilder, r: Result<(), GlueError>) -> bool {
    &&& r == Ok::<(), GlueError>(())
    &&& b.keeps(&a, set![Part::Header, Part::Finished])
    &&& b.finished
    &&& b.header@ == a.header@ + epilogue_text(a.images(), a.has_main, a.name@)
}

/// What consuming `ev` does.
pub open spec fn event_step(a: GlueBuilder, b: GlueBuilder, ev: Event, r: Result<(), GlueError>) -> bool {
    if a.finished {
        fails(a, b, r, GlueError::DecoderError)
    } else {
        match ev {
            Event::Type(sig) => type_step(a, b, sig, r),
            Event::ImportFunction { module, field, type_index } => import_step(
                a,
                b,
                module@,
                field@,
                type_index,
                r,
            ),
            Event::Function(ti) => function_step(a, b, ti, r),
            Event::ExportFunction { field, index } => export_step(a, b, field@, index, r),
            Event::Table { initial } => table_step(a, b, initial, r),
            Event::Memory { initial_pages } => memory_step(a, b, initial_pages, r),
            Event::BeginData { memory } => context_step(
                a,
                b,
                InitContext::Data { memory, offset: None },
                r,
            ),
            Event::EndData => context_step(a, b, InitContext::Neither, r),
            Event::Init(e) => init_step(a, b, e, r),
            Event::DataChunk(data) => chunk_step(a, b, data@, r),
            Event::BeginGlobal { content, mutable } => context_step(
                a,
                b,
                InitContext::Global { content, mutable },
                r,
            ),
            Event::EndGlobal => context_step(a, b, InitContext::Neither, r),
            Event::Custom { name, data } => custom_step(a, b, name@, data@, r),
            Event::End => end_step(a, b, r),
        }
    }
}

impl GlueBuilder {
    /// The memory images as byte sequences.
    pub open spec fn images(&self) -> Seq<Seq<u8>> {
        self.memories@.map_values(|m: Vec<u8>| m@)
    }

    /// The bytes of the precompiled object, if its section was seen.
    pub open spec fn object_bytes(&self) -> Option<Seq<u8>> {
        match self.object {
            Some(v) => Some(v@),
            None => None,
        }
    }

    /// The number of local functions.
    pub open spec fn locals(&self) -> nat {
        (self.functions@.len() - self.imports) as nat
    }

    /// The function index space holds the imports first, numbered in import
    /// order, then the local functions, numbered in definition order.
    pub open spec fn wf(&self) -> bool {
        &&& self.imports <= self.functions@.len()
        &&& forall|i: int|
            0 <= i < self.imports ==> #[trigger] self.functions@[i] == FuncEntry::Imported(
                i as usize,
            )
        &&& forall|i: int|
            self.imports <= i < self.functions@.len() ==> #[trigger] self.functions@[i]
                == FuncEntry::Local((i - self.imports) as usize)
    }

    /// Every part outside `changed` is as in `o`.
    pub open spec fn keeps(&self, o: &Self, changed: Set<Part>) -> bool {
        &&& self.name@ == o.name@
        &&& (!changed.contains(Part::Types) ==> self.types@ == o.types@)
        &&& (!changed.contains(Part::Functions) ==> self.functions@ == o.functions@ && self.imports
            == o.imports)
        &&& (!changed.contains(Part::Tables) ==> self.tables@ == o.tables@)
        &&& (!changed.contains(Part::Globals) ==> self.globals@ == o.globals@)
        &&& (!changed.contains(Part::Images) ==> self.images() == o.images())
        &&& (!changed.contains(Part::Context) ==> self.context == o.context)
        &&& (!changed.contains(Part::Main) ==> self.has_main == o.has_main)
        &&& (!changed.contains(Part::Object) ==> self.object_bytes() == o.object_bytes())
        &&& (!changed.contains(Part::Finished) ==> self.finished == o.finished)
        &&& (!changed.contains(Part::Header) ==> self.header@ == o.header@)
    }

    /// A builder for a module named `name`, with the header's opening emitted.
    pub fn new(name: &str) -> (r: Self)
        ensures
            r.wf(),
            r.name@ == name@,
            r.header@ == prologue_text(name@),
            r.types@.len() == 0,
            r.functions@.len() == 0,
            r.imports == 0,
            r.tables@.len() == 0,
            r.globals@.len() == 0,
            r.memories@.len() == 0,
            r.context == InitContext::Neither,
            !r.has_main,
            r.object.is_none(),
            !r.finished,
    {
        let mut h = String::new();
        h.append("#include<stddef.h>\n#include<stdint.h>\n\n#ifndef ");
        h.append(name);
        h.append("_GLUE_H");
        h.append("\n#define ");
        h.append(name);
        h.append("_GLUE_H");
        h.append("\n\n");
        push_ret_struct(&mut h, "int32_t");
        push_ret_struct(&mut h, "int64_t");
        push_ret_struct(&mut h, "float");
        push_ret_struct(&mut h, "double");
        h.append(
            "const uint64_t functionDefMutableData = 0;\nconst uint64_t biasedInstanceId = 0;\nconst uint64_t tableReferenceBias = 0;\n\n",
        );
        assert(h@ =~= Seq::<char>::empty() + prologue_text(name@));
        GlueBuilder {
            name: String::from_str(name),
            types: Vec::new(),
            functions: Vec::new(),
            imports: 0,
            tables: Vec::new(),
            globals: Vec::new(),
            memories: Vec::new(),
            context: InitContext::Neither,
            has_main: false,
            header: h,
            object: None,
            finished: false,
        }
    }
    /// Records a type-section entry.
    pub fn on_type(&mut self, sig: FuncSig) -> (r: Result<(), GlueError>)
        requires
            old(self).wf(),
        ensures
            final(self).wf(),
            type_step(*old(self), *final(self), sig, r),
    {
        let ghost start = self.header@;
        self.header.append("const uint64_t typeId");
        push_dec(&mut self.header, self.types.len() as u64);
        self.header.append(" = 0;\n");
        assert(self.header@ =~= start + type_text(old(self).types@.len()));
        self.types.push(sig);
        Ok(())
    }

    /// Records an imported function of type `ti`.
    pub fn on_import(&mut self, module: &str, field: &str, ti: u32) -> (r: Result<(), GlueError>)
        requires
            old(self).wf(),
        ensures
            final(self).wf(),
            import_step(*old(self), *final(self), module@, field@, ti, r),
    {
        if self.imports < self.functions.len() {
            return Err(GlueError::DecoderError);
        }
        if ti as usize >= self.types.len() {
            return Err(GlueError::MissingIndex);
        }
        let sym = symbol("functionImport", self.imports as u64);
        let decl = match function_decl(&self.types[ti as usize], sym.as_str()) {
            Ok(d) => d,
            Err(e) => {
                return Err(e);
            },
        };
        let ghost start = self.header@;
        self.header.append("#define wavm_");
        self.header.append(module);
        self.header.append("_");
        self.header.append(field);
        self.header.append(" ");
        self.header.append(sym.as_str());
        self.header.append("\n");
        self.header.append("extern ");
        self.header.append(decl.as_str());
        self.header.append(";\n");
        assert(self.header@ =~= start + import_text(module@, field@, self.imports as nat, decl@));
        self.functions.push(FuncEntry::Imported(self.imports));
        self.imports = self.functions.len();
        Ok(())
    }

    /// Records a local function of type `ti`.
    pub fn on_function(&mut self, ti: u32) -> (r: Result<(), GlueError>)
        requires
            old(self).wf(),
        ensures
            final(self).wf(),
            function_step(*old(self), *final(self), ti, r),
    {
        if ti as usize >= self.types.len() {
            return Err(GlueError::MissingIndex);
        }
        let k: usize = self.functions.len() - self.imports;
        let sym = symbol("functionDef", k as u64);
        let decl = match function_decl(&self.types[ti as usize], sym.as_str()) {
            Ok(d) => d,
            Err(e) => {
                return Err(e);
            },
        };
        let ghost start = self.header@;
        self.header.append("extern ");
        self.header.append(decl.as_str());
        self.header.append(";\n");
        self.header.append("const uint64_t functionDefMutableDatas");
        push_dec(&mut self.header, k as u64);
        self.header.append(" = 0;\n");
        assert(self.header@ =~= start + function_text(k as nat, decl@));
        self.functions.push(FuncEntry::Local(k));
        Ok(())
    }

    /// Records the export named `field` of function `index`.
    pub fn on_export(&mut self, field: &str, index: u32) -> (r: Result<(), GlueError>)
        requires
            old(self).wf(),
        ensures
            final(self).wf(),
            export_step(*old(self), *final(self), field@, index, r),
    {
        if index as usize >= self.functions.len() {
            return Err(GlueError::MissingIndex);
        }
        let k = match self.functions[index as usize] {
            FuncEntry::Imported(_) => {
                return Err(GlueError::UnresolvedExport);
            },
            FuncEntry::Local(k) => k,
        };
        let ghost start = self.header@;
        self.header.append("#define wavm_exported_function_");
        self.header.append(field);
        self.header.append(" ");
        self.header.append("functionDef");
        push_dec(&mut self.header, k as u64);
        self.header.append("\n");
        assert(self.header@ =~= start + export_text(field@, k as nat));
        let entry = String::from_str("_start");
        if String::from_str(field) == entry {
            self.has_main = true;
        }
        Ok(())
    }

    /// Records a table of `count` slots.
    pub fn on_table(&mut self, count: u64) -> (r: Result<(), GlueError>)
        requires
            old(self).wf(),
        ensures
            final(self).wf(),
            table_step(*old(self), *final(self), count, r),
    {
        let t = self.tables.len() as u64;
        let ghost start = self.header@;
        self.header.append("uintptr_t table");
        push_dec(&mut self.header, t);
        self.header.append("[");
        push_dec(&mut self.header, count);
        self.header.append("] = { 0 };\n");
        self.header.append("uintptr_t* tableOffset");
        push_dec(&mut self.header, t);
        self.header.append(" = table");
        push_dec(&mut self.header, t);
        self.header.append(";\n");
        assert(self.header@ =~= start + table_text(old(self).tables@.len(), count as nat));
        self.tables.push(count);
        Ok(())
    }
    /// Records a memory of `pages` pages.
    pub fn on_memory(&mut self, pages: u64) -> (r: Result<(), GlueError>)
        requires
            old(self).wf(),
        ensures
            final(self).wf(),
            memory_step(*old(self), *final(self), pages, r),
    {
        let image = match new_image(pages) {
            Ok(m) => m,
            Err(e) => {
                return Err(e);
            },
        };
        self.memories.push(image);
        assert(self.images() =~= old(self).images().push(zeros((pages * PAGE_SIZE) as nat)));
        Ok(())
    }

    /// Sets what the following initializers go to.
    pub fn set_context(&mut self, c: InitContext) -> (r: Result<(), GlueError>)
        requires
            old(self).wf(),
        ensures
            final(self).wf(),
            context_step(*old(self), *final(self), c, r),
    {
        self.context = c;
        Ok(())
    }

    /// Consumes an initializer operator.
    pub fn on_init(&mut self, e: InitExpr) -> (r: Result<(), GlueError>)
        requires
            old(self).wf(),
        ensures
            final(self).wf(),
            init_step(*old(self), *final(self), e, r),
    {
        match self.context {
            InitContext::Neither => Ok(()),
            InitContext::Data { memory, offset: _ } => {
                if let InitExpr::I32Const(v) = e {
                    self.context = InitContext::Data { memory, offset: Some(v as u32 as u64) };
                }
                Ok(())
            },
            InitContext::Global { content, mutable } => {
                let text = match global_decl(self.globals.len() as u64, content, mutable, e) {
                    Ok(t) => t,
                    Err(x) => {
                        return Err(x);
                    },
                };
                self.header.append(text.as_str());
                self.globals.push(GlobalEntry { content, mutable, init: e });
                Ok(())
            },
        }
    }

    /// Consumes a chunk of a data segment's payload.
    pub fn on_chunk(&mut self, data: &Vec<u8>) -> (r: Result<(), GlueError>)
        requires
            old(self).wf(),
        ensures
            final(self).wf(),
            chunk_step(*old(self), *final(self), data@, r),
    {
        match self.context {
            InitContext::Data { memory, offset: Some(off) } => {
                let m = memory as usize;
                if m >= self.memories.len() {
                    return Err(GlueError::MissingIndex);
                }
                assert(self.images()[m as int] == self.memories@[m as int]@);
                if off as u128 + data.len() as u128 > self.memories[m].len() as u128 {
                    return Err(GlueError::OutOfBounds);
                }
                let ghost before = self.memories@;
                let res = apply_chunk(&mut self.memories[m], off, data.as_slice());
                assert(res is Ok);
                assert(self.images() =~= old(self).images().update(
                    m as int,
                    write_at(old(self).images()[m as int], off as int, data@),
                )) by {
                    assert forall|i: int| 0 <= i < self.memories@.len() && i != m implies
                        #[trigger] self.memories@[i] == before[i] by {}
                }
                self.context = InitContext::Data {
                    memory,
                    offset: Some(off + data.len() as u64),
                };
                Ok(())
            },
            _ => Ok(()),
        }
    }

    /// Consumes the payload of a custom section named `name`.
    pub fn on_custom(&mut self, name: &str, data: Vec<u8>) -> (r: Result<(), GlueError>)
        requires
            old(self).wf(),
        ensures
            final(self).wf(),
            custom_step(*old(self), *final(self), name@, data@, r),
    {
        let marker = String::from_str("wavm.precompiled_object");
        if String::from_str(name) == marker {
            let mut data = data;
            match self.object.take() {
                Some(mut prev) => {
                    prev.append(&mut data);
                    self.object = Some(prev);
                },
                None => {
                    self.object = Some(data);
                },
            }
        }
        Ok(())
    }

    /// Consumes the end of the module.
    pub fn on_end(&mut self) -> (r: Result<(), GlueError>)
        requires
            old(self).wf(),
        ensures
            final(self).wf(),
            end_step(*old(self), *final(self), r),
    {
        let mut tail = String::new();
        let mut i: usize = 0;
        while i < self.memories.len()
            invariant
                i <= self.memories@.len(),
                tail@ == memories_text(self.images().subrange(0, i as int)),
            decreases self.memories@.len() - i,
        {
            push_memory_decl(&mut tail, i as u64, &self.memories[i]);
            proof {
                let s = self.images().subrange(0, i + 1);
                assert(s.drop_last() =~= self.images().subrange(0, i as int));
                assert(s.last() == self.memories@[i as int]@);
            }
            i = i + 1;
        }
        assert(self.images().subrange(0, i as int) =~= self.images());
        if self.has_main {
            tail.append(
                "\nint main() {\n  wavm_exported_function__start(NULL);\n  // This should not be reached\n  return -1;\n}\n",
            );
        }
        tail.append("\n#endif /* ");
        tail.append(self.name.as_str());
        tail.append("_GLUE_H");
        tail.append(" */\n");
        assert(tail@ =~= epilogue_text(self.images(), self.has_main, self.name@));
        self.header.append(tail.as_str());
        self.finished = true;
        Ok(())
    }

    /// Consumes the next event of the module, in stream order.
    pub fn consume(&mut self, ev: Event) -> (r: Result<(), GlueError>)
        requires
            old(self).wf(),
        ensures
            final(self).wf(),
            event_step(*old(self), *final(self), ev, r),
    {
        if self.finished {
            return Err(GlueError::DecoderError);
        }
        match ev {
            Event::Type(sig) => self.on_type(sig),
            Event::ImportFunction { module, field, type_index } => self.on_import(
                module.as_str(),
                field.as_str(),
                type_index,
            ),
            Event::Function(ti) => self.on_function(ti),
            Event::ExportFunction { field, index } => self.on_export(field.as_str(), index),
            Event::Table { initial } => self.on_table(initial),
            Event::Memory { initial_pages } => self.on_memory(initial_pages),
            Event::BeginData { memory } => self.set_context(
                InitContext::Data { memory, offset: None },
            ),
            Event::EndData => self.set_context(InitContext::Neither),
            Event::Init(e) => self.on_init(e),
            Event::DataChunk(data) => self.on_chunk(&data),
            Event::BeginGlobal { content, mutable } => self.set_context(
                InitContext::Global { content, mutable },
            ),
            Event::EndGlobal => self.set_context(InitContext::Neither),
            Event::Custom { name, data } => self.on_custom(name.as_str(), data),
            Event::End => self.on_end(),
        }
    }
}

/// The function index space of a builder has one entry per import and per
/// local function: the imports first, in import order, then the local
/// functions, in definition order.
pub proof fn lemma_function_index_space(b: GlueBuilder)
    requires
        b.wf(),
    ensures
        b.functions@.len() == b.imports + b.locals(),
        b.functions@.subrange(0, b.imports as int) == Seq::new(
            b.imports as nat,
            |i: int| FuncEntry::Imported(i as usize),
        ),
        b.functions@.subrange(b.imports as int, b.functions@.len() as int) == Seq::new(
            b.locals(),
            |j: int| FuncEntry::Local(j as usize),
        ),
{
    assert(b.functions@.subrange(0, b.imports as int) =~= Seq::new(
        b.imports as nat,
        |i: int| FuncEntry::Imported(i as usize),
    ));
    assert(b.functions@.subrange(b.imports as int, b.functions@.len() as int) =~= Seq::new(
        b.locals(),
        |j: int| FuncEntry::Local(j as usize),
    ));
}

/// `prefix` followed by `k` in decimal.
fn symbol(prefix: &str, k: u64) -> (r: String)
    ensures
        r@ == prefix@ + dec_text(k as nat),
{
    let mut s = String::from_str(prefix);
    push_dec(&mut s, k);
    s
}

fn push_ret_struct(out: &mut String, t: &str)
    ensures
        final(out)@ == old(out)@ + ret_struct_text(t@),
{
    let ghost start = out@;
    out.append("typedef struct {\n  void* dummy;\n  ");
    out.append(t);
    out.append(" value;\n} wavm_ret_");
    out.append(t);
    out.append(";\n\n");
    assert(out@ =~= start + ret_struct_text(t@));
}

} // verus!
