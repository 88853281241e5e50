use vstd::prelude::*;

verus! {

/// A WebAssembly value type as far as the glue needs to tell them apart.
#[derive(Clone, Copy, Debug, PartialEq, Eq, Structural)]
pub enum ValType {
    I32,
    I64,
    F32,
    F64,
    /// Any other value type (references, vectors): no native scalar exists for it.
    Other,
}

/// A function type: parameter types and result types.
#[derive(Debug)]
pub struct FuncSig {
    pub params: Vec<ValType>,
    pub results: Vec<ValType>,
}

/// The single operator of a constant initializer expression.
#[derive(Clone, Copy, Debug, PartialEq, Eq, Structural)]
pub enum InitExpr {
    I32Const(i32),
    I64Const(i64),
    /// Any other operator (float constants, `global.get`, ...).
    Other,
}

/// One structural event of a decoded module, in stream order.
#[derive(Debug)]
pub enum Event {
    /// A type-section entry.
    Type(FuncSig),
    /// An imported function with its type index.
    ImportFunction { module: String, field: String, type_index: u32 },
    /// A function-section entry with its type index.
    Function(u32),
    /// An export of a function by its index in the function index space.
    ExportFunction { field: String, index: u32 },
    /// A table with its initial element count.
    Table { initial: u64 },
    /// A memory with its initial page count.
    Memory { initial_pages: u64 },
    /// The start of an active data segment aimed at a memory.
    BeginData { memory: u32 },
    /// The end of a data segment.
    EndData,
    /// An operator of an initializer expression.
    Init(InitExpr),
    /// A contiguous piece of the current data segment's payload.
    DataChunk(Vec<u8>),
    /// The start of a global-section entry.
    BeginGlobal { content: ValType, mutable: bool },
    /// The end of a global-section entry.
    EndGlobal,
    /// The raw payload of a custom section.
    Custom { name: String, data: Vec<u8> },
    /// The end of the module.
    End,
}

/// Why a conversion was abandoned.
#[derive(Clone, Copy, Debug, PartialEq, Eq, Structural)]
pub enum GlueError {
    /// A value type without a native scalar counterpart.
    UnsupportedType,
    /// A function type with more than one result.
    UnsupportedSignature,
    /// An export of a function that the module imports.
    UnresolvedExport,
    /// A reference to a type, function or memory that was never declared.
    MissingIndex,
    /// An initializer that is not the integer constant required there.
    BadInitializer,
    /// A data segment reaching past the end of its memory.
    OutOfBounds,
    /// A memory whose byte size cannot be held on this machine.
    MemoryTooLarge,
    /// The decoder reported malformed input.
    DecoderError,
}

/// An entry of the function index space.
#[derive(Clone, Copy, Debug, PartialEq, Eq, Structural)]
pub enum FuncEntry {
    /// The n-th imported function.
    Imported(usize),
    /// The n-th locally defined function.
    Local(usize),
}

} // verus!
