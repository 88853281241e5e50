use wasm_glue::abi::{c_type, function_decl, global_decl};
use wasm_glue::builder::GlueBuilder;
use wasm_glue::memory::{apply_chunk, new_image, push_memory_decl, trim_len};
use wasm_glue::text::{dec_string, push_hex, push_signed};
use wasm_glue::types::{Event, FuncEntry, FuncSig, GlueError, InitExpr, ValType};

fn sig(params: Vec<ValType>, results: Vec<ValType>) -> FuncSig {
    FuncSig { params, results }
}

fn run(name: &str, events: Vec<Event>) -> Result<GlueBuilder, GlueError> {
    let mut b = GlueBuilder::new(name);
    for ev in events {
        b.consume(ev)?;
    }
    Ok(b)
}

fn body_after_prologue(b: &GlueBuilder) -> String {
    let start = b.header.find("tableReferenceBias = 0;\n\n").unwrap() + "tableReferenceBias = 0;\n\n".len();
    b.header[start..].to_string()
}

#[test]
fn prologue_has_guard_and_wrappers() {
    let b = GlueBuilder::new("demo");
    assert!(b.header.starts_with("#include<stddef.h>\n#include<stdint.h>\n\n#ifndef demo_GLUE_H\n#define demo_GLUE_H\n\n"));
    for t in ["int32_t", "int64_t", "float", "double"] {
        let s = format!("typedef struct {{\n  void* dummy;\n  {} value;\n}} wavm_ret_{};\n\n", t, t);
        assert!(b.header.contains(&s));
    }
    assert!(b.header.ends_with("const uint64_t functionDefMutableData = 0;\nconst uint64_t biasedInstanceId = 0;\nconst uint64_t tableReferenceBias = 0;\n\n"));
}

#[test]
fn one_page_memory_with_segment_at_ten() {
    let b = run(
        "m",
        vec![
            Event::Memory { initial_pages: 1 },
            Event::BeginData { memory: 0 },
            Event::Init(InitExpr::I32Const(10)),
            Event::DataChunk(vec![1, 2, 3]),
            Event::EndData,
            Event::End,
        ],
    )
    .unwrap();
    let mut expected_image = vec![0u8; 65536];
    expected_image[10] = 1;
    expected_image[11] = 2;
    expected_image[12] = 3;
    assert_eq!(b.memories[0], expected_image);
    let body = body_after_prologue(&b);
    let expected = "uint32_t memory0_length = 65536;\n\
uint8_t memory0[65536] = {\n  0x0, 0x0, 0x0, 0x0, 0x0, 0x0, 0x0, 0x0, 0x0, 0x0, 0x1, 0x2, 0x3};\n\
uint8_t* memoryOffset0 = memory0;\n\
#define MEMORY0_DEFINED 1\n\
\n#endif /* m_GLUE_H */\n";
    assert_eq!(body, expected);
}

#[test]
fn start_export_gets_main() {
    let b = run(
        "p",
        vec![
            Event::Type(sig(vec![], vec![])),
            Event::Function(0),
            Event::ExportFunction { field: "_start".to_string(), index: 0 },
            Event::End,
        ],
    )
    .unwrap();
    assert!(b.has_main);
    let body = body_after_prologue(&b);
    let expected = "const uint64_t typeId0 = 0;\n\
extern void* (functionDef0) (void*);\n\
const uint64_t functionDefMutableDatas0 = 0;\n\
#define wavm_exported_function__start functionDef0\n\
\nint main() {\n  wavm_exported_function__start(NULL);\n  // This should not be reached\n  return -1;\n}\n\
\n#endif /* p_GLUE_H */\n";
    assert_eq!(body, expected);
}

#[test]
fn no_main_without_start_export() {
    let b = run(
        "p",
        vec![
            Event::Type(sig(vec![], vec![])),
            Event::Function(0),
            Event::ExportFunction { field: "run".to_string(), index: 0 },
            Event::End,
        ],
    )
    .unwrap();
    assert!(!b.has_main);
    assert!(!b.header.contains("int main()"));
    assert!(b.header.contains("#define wavm_exported_function_run functionDef0\n"));
}

#[test]
fn immutable_i32_global_is_const() {
    let b = run(
        "g",
        vec![
            Event::BeginGlobal { content: ValType::I32, mutable: false },
            Event::Init(InitExpr::I32Const(42)),
            Event::EndGlobal,
        ],
    )
    .unwrap();
    assert_eq!(body_after_prologue(&b), "const int32_t global0 = 42;\n");
}

#[test]
fn mutable_global_has_no_qualifier() {
    let b = run(
        "g",
        vec![
            Event::BeginGlobal { content: ValType::I32, mutable: false },
            Event::Init(InitExpr::I32Const(1)),
            Event::EndGlobal,
            Event::BeginGlobal { content: ValType::I64, mutable: true },
            Event::Init(InitExpr::I64Const(-9000000000)),
            Event::EndGlobal,
        ],
    )
    .unwrap();
    assert_eq!(
        body_after_prologue(&b),
        "const int32_t global0 = 1;\nint64_t global1 = -9000000000;\n"
    );
}

#[test]
fn precompiled_object_is_extracted() {
    let b = run(
        "o",
        vec![
            Event::Custom { name: "name".to_string(), data: vec![1, 2] },
            Event::Custom { name: "wavm.precompiled_object".to_string(), data: vec![0xDE, 0xAD, 0xBE, 0xEF] },
            Event::End,
        ],
    )
    .unwrap();
    assert_eq!(b.object, Some(vec![0xDE, 0xAD, 0xBE, 0xEF]));
}

#[test]
fn no_object_without_section() {
    let b = run("o", vec![Event::Custom { name: "other".to_string(), data: vec![7] }, Event::End]).unwrap();
    assert_eq!(b.object, None);
    assert!(b.finished);
}

#[test]
fn index_space_imports_then_locals() {
    let b = run(
        "f",
        vec![
            Event::Type(sig(vec![ValType::I32], vec![ValType::I32])),
            Event::Type(sig(vec![], vec![])),
            Event::ImportFunction { module: "env".to_string(), field: "a".to_string(), type_index: 0 },
            Event::ImportFunction { module: "env".to_string(), field: "b".to_string(), type_index: 1 },
            Event::Function(1),
            Event::Function(0),
            Event::Function(1),
        ],
    )
    .unwrap();
    assert_eq!(
        b.functions,
        vec![
            FuncEntry::Imported(0),
            FuncEntry::Imported(1),
            FuncEntry::Local(0),
            FuncEntry::Local(1),
            FuncEntry::Local(2)
        ]
    );
    assert!(b.header.contains("#define wavm_env_a functionImport0\nextern wavm_ret_int32_t (functionImport0) (void*, int32_t);\n"));
    assert!(b.header.contains("#define wavm_env_b functionImport1\nextern void* (functionImport1) (void*);\n"));
    assert!(b.header.contains("extern wavm_ret_int32_t (functionDef1) (void*, int32_t);\nconst uint64_t functionDefMutableDatas1 = 0;\n"));
}

#[test]
fn export_resolves_to_local_symbol() {
    let b = run(
        "e",
        vec![
            Event::Type(sig(vec![], vec![])),
            Event::ImportFunction { module: "env".to_string(), field: "f".to_string(), type_index: 0 },
            Event::Function(0),
            Event::Function(0),
            Event::ExportFunction { field: "second".to_string(), index: 2 },
        ],
    )
    .unwrap();
    assert!(b.header.ends_with("#define wavm_exported_function_second functionDef1\n"));
}

#[test]
fn export_of_import_is_unresolved() {
    let mut b = GlueBuilder::new("e");
    b.consume(Event::Type(sig(vec![], vec![]))).unwrap();
    b.consume(Event::ImportFunction { module: "env".to_string(), field: "f".to_string(), type_index: 0 }).unwrap();
    let before = b.header.clone();
    assert_eq!(b.consume(Event::ExportFunction { field: "f".to_string(), index: 0 }), Err(GlueError::UnresolvedExport));
    assert_eq!(b.header, before);
}

#[test]
fn missing_indices() {
    let mut b = GlueBuilder::new("x");
    assert_eq!(b.consume(Event::Function(0)), Err(GlueError::MissingIndex));
    assert_eq!(b.consume(Event::ImportFunction { module: "m".to_string(), field: "f".to_string(), type_index: 3 }), Err(GlueError::MissingIndex));
    assert_eq!(b.consume(Event::ExportFunction { field: "f".to_string(), index: 0 }), Err(GlueError::MissingIndex));
    b.consume(Event::BeginData { memory: 0 }).unwrap();
    b.consume(Event::Init(InitExpr::I32Const(0))).unwrap();
    assert_eq!(b.consume(Event::DataChunk(vec![1])), Err(GlueError::MissingIndex));
}

#[test]
fn unsupported_types_and_signatures() {
    let mut b = GlueBuilder::new("x");
    b.consume(Event::Type(sig(vec![ValType::Other], vec![]))).unwrap();
    b.consume(Event::Type(sig(vec![], vec![ValType::I32, ValType::I64]))).unwrap();
    b.consume(Event::Type(sig(vec![], vec![ValType::Other]))).unwrap();
    assert_eq!(b.consume(Event::Function(0)), Err(GlueError::UnsupportedType));
    assert_eq!(b.consume(Event::Function(1)), Err(GlueError::UnsupportedSignature));
    assert_eq!(b.consume(Event::Function(2)), Err(GlueError::UnsupportedType));
    assert!(b.functions.is_empty());
}

#[test]
fn bad_global_initializers() {
    let mut b = GlueBuilder::new("x");
    b.consume(Event::BeginGlobal { content: ValType::I32, mutable: false }).unwrap();
    assert_eq!(b.consume(Event::Init(InitExpr::I64Const(1))), Err(GlueError::BadInitializer));
    assert_eq!(b.consume(Event::Init(InitExpr::Other)), Err(GlueError::BadInitializer));
    b.consume(Event::BeginGlobal { content: ValType::F32, mutable: false }).unwrap();
    assert_eq!(b.consume(Event::Init(InitExpr::Other)), Err(GlueError::BadInitializer));
    b.consume(Event::BeginGlobal { content: ValType::Other, mutable: false }).unwrap();
    assert_eq!(b.consume(Event::Init(InitExpr::I32Const(1))), Err(GlueError::UnsupportedType));
    assert!(b.globals.is_empty());
}

#[test]
fn segment_past_end_is_out_of_bounds() {
    let mut b = GlueBuilder::new("x");
    b.consume(Event::Memory { initial_pages: 1 }).unwrap();
    b.consume(Event::BeginData { memory: 0 }).unwrap();
    b.consume(Event::Init(InitExpr::I32Const(65534))).unwrap();
    assert_eq!(b.consume(Event::DataChunk(vec![1, 2, 3])), Err(GlueError::OutOfBounds));
    assert!(b.memories[0].iter().all(|x| *x == 0));
}

#[test]
fn huge_memory_is_refused() {
    assert_eq!(new_image(u64::MAX), Err(GlueError::MemoryTooLarge));
    let mut b = GlueBuilder::new("x");
    assert_eq!(b.consume(Event::Memory { initial_pages: u64::MAX }), Err(GlueError::MemoryTooLarge));
}

#[test]
fn import_after_local_and_event_after_end_are_refused() {
    let mut b = GlueBuilder::new("x");
    b.consume(Event::Type(sig(vec![], vec![]))).unwrap();
    b.consume(Event::Function(0)).unwrap();
    assert_eq!(b.consume(Event::ImportFunction { module: "m".to_string(), field: "f".to_string(), type_index: 0 }), Err(GlueError::DecoderError));
    b.consume(Event::End).unwrap();
    assert_eq!(b.consume(Event::End), Err(GlueError::DecoderError));
}

#[test]
fn chunks_in_either_order_give_one_image() {
    let mut a = new_image(1).unwrap();
    apply_chunk(&mut a, 100, &[1, 2, 3]).unwrap();
    apply_chunk(&mut a, 103, &[4, 5]).unwrap();
    let mut b = new_image(1).unwrap();
    apply_chunk(&mut b, 103, &[4, 5]).unwrap();
    apply_chunk(&mut b, 100, &[1, 2, 3]).unwrap();
    assert_eq!(a, b);
    assert_eq!(&a[100..105], &[1, 2, 3, 4, 5]);
}

#[test]
fn chunked_segment_advances_offset() {
    let b = run(
        "c",
        vec![
            Event::Memory { initial_pages: 1 },
            Event::BeginData { memory: 0 },
            Event::Init(InitExpr::I32Const(4)),
            Event::DataChunk(vec![9, 8]),
            Event::DataChunk(vec![7]),
            Event::EndData,
        ],
    )
    .unwrap();
    assert_eq!(&b.memories[0][..8], &[0, 0, 0, 0, 9, 8, 7, 0]);
}

#[test]
fn non_constant_offset_is_ignored() {
    let b = run(
        "c",
        vec![
            Event::Memory { initial_pages: 1 },
            Event::BeginData { memory: 0 },
            Event::Init(InitExpr::Other),
            Event::DataChunk(vec![9, 8]),
            Event::EndData,
        ],
    )
    .unwrap();
    assert!(b.memories[0].iter().all(|x| *x == 0));
}

#[test]
fn literal_breaks_lines_every_32_bytes() {
    let mut mem = vec![0u8; 40];
    for i in 0..33 {
        mem[i] = 0xff;
    }
    let mut out = String::new();
    push_memory_decl(&mut out, 3, &mem);
    let row = vec!["0xff"; 32].join(", ");
    let expected = format!(
        "uint32_t memory3_length = 40;\nuint8_t memory3[40] = {{\n  {}, \n  0xff}};\nuint8_t* memoryOffset3 = memory3;\n#define MEMORY3_DEFINED 1\n",
        row
    );
    assert_eq!(out, expected);
    assert_eq!(trim_len(&mem), 33);
}

#[test]
fn all_zero_memory_has_empty_literal() {
    let mem = vec![0u8; 16];
    let mut out = String::new();
    push_memory_decl(&mut out, 0, &mem);
    assert!(out.contains("uint8_t memory0[16] = {};\n"));
    assert_eq!(trim_len(&mem), 0);
}

#[test]
fn tables_are_zero_filled() {
    let b = run("t", vec![Event::Table { initial: 4 }, Event::Table { initial: 0 }]).unwrap();
    assert_eq!(
        body_after_prologue(&b),
        "uintptr_t table0[4] = { 0 };\nuintptr_t* tableOffset0 = table0;\nuintptr_t table1[0] = { 0 };\nuintptr_t* tableOffset1 = table1;\n"
    );
}

#[test]
fn scalar_types() {
    assert_eq!(c_type(ValType::I32), Ok("int32_t"));
    assert_eq!(c_type(ValType::I64), Ok("int64_t"));
    assert_eq!(c_type(ValType::F32), Ok("float"));
    assert_eq!(c_type(ValType::F64), Ok("double"));
    assert_eq!(c_type(ValType::Other), Err(GlueError::UnsupportedType));
}

#[test]
fn function_declaration_text() {
    let s = sig(vec![ValType::I32, ValType::F64, ValType::I64], vec![ValType::F32]);
    assert_eq!(function_decl(&s, "f").unwrap(), "wavm_ret_float (f) (void*, int32_t, double, int64_t)");
}

#[test]
fn global_declaration_text() {
    assert_eq!(global_decl(7, ValType::I64, false, InitExpr::I64Const(i64::MIN)).unwrap(), "const int64_t global7 = -9223372036854775808;\n");
    assert_eq!(global_decl(0, ValType::I32, true, InitExpr::I32Const(-5)).unwrap(), "int32_t global0 = -5;\n");
}

#[test]
fn number_text() {
    assert_eq!(dec_string(0), "0");
    assert_eq!(dec_string(65536), "65536");
    assert_eq!(dec_string(u64::MAX), "18446744073709551615");
    let mut h = String::new();
    push_hex(&mut h, 0xde);
    push_hex(&mut h, 0);
    push_hex(&mut h, 0x1f);
    assert_eq!(h, "de01f");
    let mut s = String::new();
    push_signed(&mut s, -42);
    assert_eq!(s, "-42");
}
