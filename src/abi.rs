use crate::text::{dec_text, push_dec, push_signed, signed_text};
use crate::types::{FuncSig, GlueError, InitExpr, ValType};
use vstd::prelude::*;

verus! {

/// The native scalar type of a value type, if it has one.
pub open spec fn c_type_text(t: ValType) -> Option<Seq<char>> {
    match t {
        ValType::I32 => Some("int32_t"@),
        ValType::I64 => Some("int64_t"@),
        ValType::F32 => Some("float"@),
        ValType::F64 => Some("double"@),
        ValType::Other => None,
    }
}

/// Every type of `ts` has a native scalar type.
pub open spec fn all_supported(ts: Seq<ValType>) -> bool {
    forall|i: int| 0 <= i < ts.len() ==> (#[trigger] c_type_text(ts[i])).is_some()
}

/// The parameter types, each preceded by a comma and a space.
pub open spec fn params_text(ts: Seq<ValType>) -> Seq<char>
    decreases ts.len(),
{
    if ts.len() == 0 {
        Seq::empty()
    } else {
        params_text(ts.drop_last()) + ", "@ + c_type_text(ts.last()).unwrap()
    }
}

/// The return type: an untyped pointer without a result, else the wrapper
/// struct named after the result's scalar type.
pub open spec fn return_text(results: Seq<ValType>) -> Seq<char> {
    if results.len() == 0 {
        "void*"@
    } else {
        "wavm_ret_"@ + c_type_text(results[0]).unwrap()
    }
}

/// The native declaration of a function named `name`: its first parameter is
/// the instance context pointer, then come the mapped parameter types.
pub open spec fn func_decl_text(params: Seq<ValType>, results: Seq<ValType>, name: Seq<char>) -> Seq<
    char,
> {
    return_text(results) + " ("@ + name + ") (void*"@ + params_text(params) + ")"@
}

/// What rendering a function type yields.
pub open spec fn func_decl_result(params: Seq<ValType>, results: Seq<ValType>, name: Seq<char>) -> Result<
    Seq<char>,
    GlueError,
> {
    if results.len() > 1 {
        Err(GlueError::UnsupportedSignature)
    } else if !all_supported(params) || !all_supported(results) {
        Err(GlueError::UnsupportedType)
    } else {
        Ok(func_decl_text(params, results, name))
    }
}

/// The native scalar type of `t`, or `UnsupportedType`.
pub fn c_type(t: ValType) -> (r: Result<&'static str, GlueError>)
    ensures
        match c_type_text(t) {
            Some(s) => r matches Ok(x) && x@ == s,
            None => r == Err::<&'static str, GlueError>(GlueError::UnsupportedType),
        },
{
    match t {
        ValType::I32 => Ok("int32_t"),
        ValType::I64 => Ok("int64_t"),
        ValType::F32 => Ok("float"),
        ValType::F64 => Ok("double"),
        ValType::Other => Err(GlueError::UnsupportedType),
    }
}

/// Checks that every type of `ts` has a native scalar type.
fn check_supported(ts: &Vec<ValType>) -> (r: bool)
    ensures
        r == all_supported(ts@),
{
    let mut i: usize = 0;
    while i < ts.len()
        invariant
            i <= ts@.len(),
            all_supported(ts@.subrange(0, i as int)),
        decreases ts@.len() - i,
    {
        if ts[i] == ValType::Other {
            assert(c_type_text(ts@[i as int]).is_none());
            return false;
        }
        assert(all_supported(ts@.subrange(0, i + 1))) by {
            assert forall|k: int| 0 <= k < i + 1 implies (#[trigger] c_type_text(
                ts@.subrange(0, i + 1)[k],
            )).is_some() by {
                if k < i {
                    assert(ts@.subrange(0, i + 1)[k] == ts@.subrange(0, i as int)[k]);
                }
            }
        }
        i = i + 1;
    }
    assert(ts@.subrange(0, i as int) == ts@);
    true
}

/// Renders the native declaration of a function named `name` with type `sig`.
pub fn function_decl(sig: &FuncSig, name: &str) -> (r: Result<String, GlueError>)
    ensures
        match func_decl_result(sig.params@, sig.results@, name@) {
            Ok(s) => r matches Ok(x) && x@ == s,
            Err(e) => r == Err::<String, GlueError>(e),
        },
{
    if sig.results.len() > 1 {
        return Err(GlueError::UnsupportedSignature);
    }
    if !check_supported(&sig.params) || !check_supported(&sig.results) {
        return Err(GlueError::UnsupportedType);
    }
    let mut out = String::new();
    if sig.results.len() == 0 {
        out.append("void*");
    } else {
        out.append("wavm_ret_");
        match c_type(sig.results[0]) {
            Ok(s) => out.append(s),
            Err(_) => {
                assert(false);
            },
        }
    }
    out.append(" (");
    out.append(name);
    out.append(") (void*");
    let mut i: usize = 0;
    let ghost head = out@;
    while i < sig.params.len()
        invariant
            i <= sig.params@.len(),
            all_supported(sig.params@),
            out@ == head + params_text(sig.params@.subrange(0, i as int)),
        decreases sig.params@.len() - i,
    {
        let ghost before = out@;
        out.append(", ");
        let t = sig.params[i];
        assert(c_type_text(sig.params@[i as int]).is_some());
        match c_type(t) {
            Ok(s) => out.append(s),
            Err(_) => {
                assert(false);
            },
        }
        let ghost sub = sig.params@.subrange(0, i + 1);
        assert(sub.drop_last() == sig.params@.subrange(0, i as int));
        assert(sub.last() == t);
        i = i + 1;
    }
    assert(sig.params@.subrange(0, i as int) == sig.params@);
    out.append(")");
    Ok(out)
}

/// The qualifier of a global: `const` marks the globals that the module
/// declares immutable; mutable ones carry none.
pub open spec fn qualifier_text(mutable: bool) -> Seq<char> {
    if mutable {
        Seq::empty()
    } else {
        "const "@
    }
}

/// The literal of a global's value, if the initializer fits the content type.
pub open spec fn global_value_text(content: ValType, init: InitExpr) -> Option<Seq<char>> {
    match (content, init) {
        (ValType::I32, InitExpr::I32Const(v)) => Some(signed_text(v as int)),
        (ValType::I64, InitExpr::I64Const(v)) => Some(signed_text(v as int)),
        _ => None,
    }
}

/// The definition of global number `index`.
pub open spec fn global_decl_text(index: nat, content: ValType, mutable: bool, value: Seq<char>) -> Seq<
    char,
> {
    qualifier_text(mutable) + c_type_text(content).unwrap() + " global"@ + dec_text(index) + " = "@
        + value + ";\n"@
}

/// What rendering a global yields.
pub open spec fn global_decl_result(index: nat, content: ValType, mutable: bool, init: InitExpr) -> Result<
    Seq<char>,
    GlueError,
> {
    if c_type_text(content).is_none() {
        Err(GlueError::UnsupportedType)
    } else {
        match global_value_text(content, init) {
            Some(v) => Ok(global_decl_text(index, content, mutable, v)),
            None => Err(GlueError::BadInitializer),
        }
    }
}

/// Renders the definition of global number `index` with its constant value.
pub fn global_decl(index: u64, content: ValType, mutable: bool, init: InitExpr) -> (r: Result<
    String,
    GlueError,
>)
    ensures
        match global_decl_result(index as nat, content, mutable, init) {
            Ok(s) => r matches Ok(x) && x@ == s,
            Err(e) => r == Err::<String, GlueError>(e),
        },
{
    let ty = match c_type(content) {
        Ok(s) => s,
        Err(e) => {
            return Err(e);
        },
    };
    let mut out = String::new();
    if !mutable {
        out.append("const ");
    }
    out.append(ty);
    out.append(" global");
    push_dec(&mut out, index);
    out.append(" = ");
    match (content, init) {
        (ValType::I32, InitExpr::I32Const(v)) => push_signed(&mut out, v as i64),
        (ValType::I64, InitExpr::I64Const(v)) => push_signed(&mut out, v),
        _ => {
            return Err(GlueError::BadInitializer);
        },
    }
    out.append(";\n");
    proof {
        let q = qualifier_text(mutable);
        assert(q + Seq::empty() == q);
        assert(Seq::<char>::empty() + q == q);
    }
    Ok(out)
}

} // verus!
