use crate::docs::{docstring_of, typescript_docstring};
use crate::naming::{
    class_name_of, definition_converter_name_of, fn_name_of, object_factory_name_of,
    protocol_name_of, typescript_class_name, typescript_ffi_object_factory_name, typescript_fn_name,
    typescript_protocol_name, typescript_ffi_converter_struct_enum_object_name,
    typescript_var_name, upper_camel_case, upper_camel_of, var_name_of,
};
use crate::resolve::{
    converter_of, has_custom, mentions_custom, lift_expr_of, lower_expr_of, type_name_of, typescript_ffi_converter_lift_with,
    typescript_ffi_converter_lower_with, typescript_ffi_converter_name, typescript_type_name,
};
use crate::text::{append_if, line_if};
use crate::types::{Argument, GenerationError, Enumeration, Field, Function, Object, Record, Type, Variant};
use vstd::prelude::*;

verus! {

/// A definition's documentation comment on a line of its own, if it has one.
pub open spec fn doc_block_of(d: Option<String>) -> Seq<char> {
    match d {
        Some(s) => docstring_of(s@, 0) + "\n"@,
        None => Seq::empty(),
    }
}

fn doc_block(d: &Option<String>) -> (r: String)
    ensures
        r@ == doc_block_of(*d),
{
    match d {
        Some(s) => {
            let mut r = typescript_docstring(s.as_str(), &0);
            r.append("\n");
            r
        },
        None => String::new(),
    }
}

/// Some field of `fs` holds a custom type.
pub open spec fn fields_have_custom(fs: Seq<Field>) -> bool {
    exists|k: int| 0 <= k < fs.len() && has_custom(#[trigger] fs[k].typ)
}

/// Some field of `fs` holds a custom type named `n`.
pub open spec fn fields_mention_custom(fs: Seq<Field>, n: Seq<char>) -> bool {
    exists|k: int| 0 <= k < fs.len() && mentions_custom(#[trigger] fs[k].typ, n)
}

/// Some variant of `vs` has a field that holds a custom type.
pub open spec fn variants_have_custom(vs: Seq<Variant>) -> bool {
    exists|k: int| 0 <= k < vs.len() && fields_have_custom(#[trigger] vs[k].fields@)
}

/// Some variant of `vs` has a field that holds a custom type named `n`.
pub open spec fn variants_mention_custom(vs: Seq<Variant>, n: Seq<char>) -> bool {
    exists|k: int| 0 <= k < vs.len() && fields_mention_custom(#[trigger] vs[k].fields@, n)
}

/// Some argument of `args` holds a custom type.
pub open spec fn args_have_custom(args: Seq<Argument>) -> bool {
    exists|k: int| 0 <= k < args.len() && has_custom(#[trigger] args[k].typ)
}

/// Some argument of `args` holds a custom type named `n`.
pub open spec fn args_mention_custom(args: Seq<Argument>, n: Seq<char>) -> bool {
    exists|k: int| 0 <= k < args.len() && mentions_custom(#[trigger] args[k].typ, n)
}

/// The return type, if any, holds a custom type.
pub open spec fn result_has_custom(t: Option<Type>) -> bool {
    t matches Some(t) && has_custom(t)
}

/// The return type, if any, holds a custom type named `n`.
pub open spec fn result_mentions_custom(t: Option<Type>, n: Seq<char>) -> bool {
    t matches Some(t) && mentions_custom(t, n)
}

/// An argument or the return type of `f` holds a custom type.
pub open spec fn function_has_custom(f: Function) -> bool {
    args_have_custom(f.arguments@) || result_has_custom(f.return_type)
}

/// An argument or the return type of `f` holds a custom type named `n`.
pub open spec fn function_mentions_custom(f: Function, n: Seq<char>) -> bool {
    args_mention_custom(f.arguments@, n) || result_mentions_custom(f.return_type, n)
}

/// Line of a record's type declaration for one field.
pub open spec fn record_type_line_of(f: Field) -> Seq<char> {
    "  "@ + var_name_of(f.name@) + ": "@ + type_name_of(f.typ) + ";\n"@
}

pub open spec fn record_type_lines_of(fs: Seq<Field>) -> Seq<char>
    decreases fs.len(),
{
    if fs.len() == 0 {
        Seq::empty()
    } else {
        record_type_lines_of(fs.drop_last()) + record_type_line_of(fs.last())
    }
}

/// Line of a record's converter declaration for one field.
pub open spec fn record_converter_line_of(f: Field) -> Seq<char> {
    "  [\""@ + var_name_of(f.name@) + "\", "@ + converter_of(f.typ) + "],\n"@
}

pub open spec fn record_converter_lines_of(fs: Seq<Field>) -> Seq<char>
    decreases fs.len(),
{
    if fs.len() == 0 {
        Seq::empty()
    } else {
        record_converter_lines_of(fs.drop_last()) + record_converter_line_of(fs.last())
    }
}

/// The name under which a record's converter is declared.
pub open spec fn record_converter_decl_name(r: Record) -> Seq<char> {
    definition_converter_name_of(r.name@)
}

/// A record's type declaration.
pub open spec fn record_type_decl_of(r: Record) -> Seq<char> {
    doc_block_of(r.docstring) + "export type "@ + upper_camel_of(r.name@) + " = {\n"@
        + record_type_lines_of(r.fields@) + "};\n\n"@
}

/// A record's converter declaration.
pub open spec fn record_converter_decl_of(r: Record) -> Seq<char> {
    "export const "@ + record_converter_decl_name(r) + " = uniffiRecordConverter<"@
        + upper_camel_of(r.name@) + ">([\n"@ + record_converter_lines_of(r.fields@) + "]);\n\n"@
}

/// Everything emitted for a record.
pub open spec fn record_decl_of(r: Record) -> Seq<char> {
    record_type_decl_of(r) + record_converter_decl_of(r)
}

fn push_record_type_lines(out: &mut String, fields: &Vec<Field>) -> (r: Result<(), GenerationError>)
    ensures
        r is Ok <==> !fields_have_custom(fields@),
        r is Ok ==> final(out)@ == old(out)@ + record_type_lines_of(fields@),
        r matches Err(e) ==> e matches GenerationError::UnresolvedCustomType { name }
            && fields_mention_custom(fields@, name@),
{
    let ghost start = out@;
    let n = fields.len();
    for i in 0..n
        invariant
            n == fields@.len(),
            out@ == start + record_type_lines_of(fields@.take(i as int)),
            forall|k: int| 0 <= k < i ==> !has_custom(#[trigger] fields@[k].typ),
    {
        let f = &fields[i];
        let name = typescript_var_name(f.name.as_str());
        let t = match typescript_type_name(&f.typ) {
            Ok(t) => t,
            Err(e) => {
                assert(fields@[i as int] == *f);
                return Err(e);
            },
        };
        out.append("  ");
        out.append(name.as_str());
        out.append(": ");
        out.append(t.as_str());
        out.append(";\n");
        assert(fields@.take(i + 1).drop_last() =~= fields@.take(i as int));
    }
    assert(fields@.take(n as int) =~= fields@);
    Ok(())
}


fn push_record_converter_lines(out: &mut String, fields: &Vec<Field>) -> (r: Result<(), GenerationError>)
    ensures
        r is Ok <==> !fields_have_custom(fields@),
        r is Ok ==> final(out)@ == old(out)@ + record_converter_lines_of(fields@),
        r matches Err(e) ==> e matches GenerationError::UnresolvedCustomType { name }
            && fields_mention_custom(fields@, name@),
{
    let ghost start = out@;
    let n = fields.len();
    for i in 0..n
        invariant
            n == fields@.len(),
            out@ == start + record_converter_lines_of(fields@.take(i as int)),
            forall|k: int| 0 <= k < i ==> !has_custom(#[trigger] fields@[k].typ),
    {
        let f = &fields[i];
        let name = typescript_var_name(f.name.as_str());
        let t = match typescript_ffi_converter_name(&f.typ) {
            Ok(t) => t,
            Err(e) => {
                assert(fields@[i as int] == *f);
                return Err(e);
            },
        };
        out.append("  [\"");
        out.append(name.as_str());
        out.append("\", ");
        out.append(t.as_str());
        out.append("],\n");
        assert(fields@.take(i + 1).drop_last() =~= fields@.take(i as int));
    }
    assert(fields@.take(n as int) =~= fields@);
    Ok(())
}


/// Emits a record's type declaration followed by the declaration of its
/// converter.
pub fn typescript_record_decl(rec: &Record) -> (r: Result<String, GenerationError>)
    ensures
        r is Ok <==> !fields_have_custom(rec.fields@),
        r matches Ok(s) ==> s@ == record_decl_of(*rec),
        r matches Err(e) ==> e matches GenerationError::UnresolvedCustomType { name }
            && fields_mention_custom(rec.fields@, name@),
{
    let tname = upper_camel_case(rec.name.as_str());
    let mut r = doc_block(&rec.docstring);
    r.append("export type ");
    r.append(tname.as_str());
    r.append(" = {\n");
    push_record_type_lines(&mut r, &rec.fields)?;
    r.append("};\n\n");
    let conv = typescript_ffi_converter_struct_enum_object_name(rec.name.as_str());
    r.append("export const ");
    r.append(conv.as_str());
    r.append(" = uniffiRecordConverter<");
    r.append(tname.as_str());
    r.append(">([\n");
    push_record_converter_lines(&mut r, &rec.fields)?;
    r.append("]);\n\n");
    Ok(r)
}

/// One parameter of a function wrapper.
pub open spec fn param_of(a: Argument) -> Seq<char> {
    var_name_of(a.name@) + ": "@ + type_name_of(a.typ)
}

/// The parameters of a function wrapper, separated by commas.
pub open spec fn params_of(args: Seq<Argument>) -> Seq<char>
    decreases args.len(),
{
    if args.len() == 0 {
        Seq::empty()
    } else {
        params_of(args.drop_last()) + line_if(args.len() > 1, ", "@) + param_of(args.last())
    }
}

/// One argument handed to the native function: the parameter, lowered.
pub open spec fn lowered_arg_of(a: Argument) -> Seq<char> {
    lower_expr_of(var_name_of(a.name@), a.typ)
}

/// The lowered arguments, separated by commas.
pub open spec fn lowered_args_of(args: Seq<Argument>) -> Seq<char>
    decreases args.len(),
{
    if args.len() == 0 {
        Seq::empty()
    } else {
        lowered_args_of(args.drop_last()) + line_if(args.len() > 1, ", "@) + lowered_arg_of(
            args.last(),
        )
    }
}

/// The arguments of the native call: the lowered arguments, then the
/// call status where the native function takes one.
pub open spec fn call_args_of(f: Function) -> Seq<char> {
    lowered_args_of(f.arguments@) + line_if(
        f.ffi_func.has_rust_call_status_arg && f.arguments@.len() > 0,
        ", "@,
    ) + line_if(f.ffi_func.has_rust_call_status_arg, "uniffiStatus"@)
}

/// The host type a function wrapper returns, before any promise.
pub open spec fn result_type_of(t: Option<Type>) -> Seq<char> {
    match t {
        Some(t) => type_name_of(t),
        None => "void"@,
    }
}

/// The return type in a function wrapper's signature.
pub open spec fn return_sig_of(f: Function) -> Seq<char> {
    if f.is_async {
        "Promise<"@ + result_type_of(f.return_type) + ">"@
    } else {
        result_type_of(f.return_type)
    }
}

/// A function wrapper's documentation and signature, up to its body.
pub open spec fn function_head_of(f: Function) -> Seq<char> {
    doc_block_of(f.docstring) + "export "@ + line_if(f.is_async, "async "@) + "function "@
        + fn_name_of(f.name@) + "("@ + params_of(f.arguments@) + "): "@ + return_sig_of(f)
        + " {\n"@
}

/// The statement that creates the call status.
pub open spec fn status_decl_line() -> Seq<char> {
    "  const uniffiStatus = uniffiCreateCallStatus();\n"@
}

/// The statement that checks the call status.
pub open spec fn status_check_line() -> Seq<char> {
    "  uniffiCheckCallStatus(uniffiStatus);\n"@
}

/// The statement that invokes the native function.
pub open spec fn invocation_of(f: Function) -> Seq<char> {
    "  "@ + line_if(f.return_type is Some, "const uniffiResult = "@) + line_if(
        f.is_async,
        "await "@,
    ) + f.ffi_func.name@ + "("@ + call_args_of(f) + ");\n"@
}

/// The statement that lifts and returns the native result, if any.
pub open spec fn return_line_of(f: Function) -> Seq<char> {
    match f.return_type {
        Some(t) => "  return "@ + lift_expr_of("uniffiResult"@, t) + ";\n"@,
        None => Seq::empty(),
    }
}

/// A function wrapper's closing lines, after the native call and its check.
pub open spec fn function_tail_of(f: Function) -> Seq<char> {
    return_line_of(f) + "}\n\n"@
}

/// Everything emitted for a function: a host wrapper that lowers the
/// arguments, invokes the native function, checks the call status where
/// there is one, and lifts the result.
pub open spec fn function_wrapper_of(f: Function) -> Seq<char> {
    function_head_of(f) + line_if(f.ffi_func.has_rust_call_status_arg, status_decl_line())
        + invocation_of(f) + line_if(f.ffi_func.has_rust_call_status_arg, status_check_line())
        + function_tail_of(f)
}

fn push_params(out: &mut String, args: &Vec<Argument>) -> (r: Result<(), GenerationError>)
    ensures
        r is Ok <==> !args_have_custom(args@),
        r is Ok ==> final(out)@ == old(out)@ + params_of(args@),
        r matches Err(e) ==> e matches GenerationError::UnresolvedCustomType { name }
            && args_mention_custom(args@, name@),
{
    let ghost start = out@;
    let n = args.len();
    for i in 0..n
        invariant
            n == args@.len(),
            out@ == start + params_of(args@.take(i as int)),
            forall|k: int| 0 <= k < i ==> !has_custom(#[trigger] args@[k].typ),
    {
        let a = &args[i];
        let typ = match typescript_type_name(&a.typ) {
            Ok(t) => t,
            Err(e) => {
                assert(args@[i as int] == *a);
                return Err(e);
            },
        };
        append_if(out, i > 0, ", ");
        let name = typescript_var_name(a.name.as_str());
        out.append(name.as_str());
        out.append(": ");
        out.append(typ.as_str());
        assert(args@.take(i + 1).drop_last() =~= args@.take(i as int));
    }
    assert(args@.take(n as int) =~= args@);
    Ok(())
}

fn push_lowered_args(out: &mut String, args: &Vec<Argument>) -> (r: Result<(), GenerationError>)
    ensures
        r is Ok <==> !args_have_custom(args@),
        r is Ok ==> final(out)@ == old(out)@ + lowered_args_of(args@),
        r matches Err(e) ==> e matches GenerationError::UnresolvedCustomType { name }
            && args_mention_custom(args@, name@),
{
    let ghost start = out@;
    let n = args.len();
    for i in 0..n
        invariant
            n == args@.len(),
            out@ == start + lowered_args_of(args@.take(i as int)),
            forall|k: int| 0 <= k < i ==> !has_custom(#[trigger] args@[k].typ),
    {
        let a = &args[i];
        let name = typescript_var_name(a.name.as_str());
        let lowered = match typescript_ffi_converter_lower_with(name, &a.typ) {
            Ok(t) => t,
            Err(e) => {
                assert(args@[i as int] == *a);
                return Err(e);
            },
        };
        append_if(out, i > 0, ", ");
        out.append(lowered.as_str());
        assert(args@.take(i + 1).drop_last() =~= args@.take(i as int));
    }
    assert(args@.take(n as int) =~= args@);
    Ok(())
}

fn result_type(t: &Option<Type>) -> (r: Result<String, GenerationError>)
    ensures
        r is Ok <==> !result_has_custom(*t),
        r matches Ok(s) ==> s@ == result_type_of(*t),
        r matches Err(e) ==> e matches GenerationError::UnresolvedCustomType { name }
            && result_mentions_custom(*t, name@),
{
    match t {
        Some(t) => typescript_type_name(t),
        None => Ok(String::from_str("void")),
    }
}

fn function_head(func: &Function) -> (r: Result<String, GenerationError>)
    ensures
        r is Ok <==> !function_has_custom(*func),
        r matches Ok(s) ==> s@ == function_head_of(*func),
        r matches Err(e) ==> e matches GenerationError::UnresolvedCustomType { name }
            && function_mentions_custom(*func, name@),
{
    let mut r = doc_block(&func.docstring);
    r.append("export ");
    append_if(&mut r, func.is_async, "async ");
    r.append("function ");
    let name = typescript_fn_name(func.name.as_str());
    r.append(name.as_str());
    r.append("(");
    push_params(&mut r, &func.arguments)?;
    r.append("): ");
    let result = result_type(&func.return_type)?;
    if func.is_async {
        r.append("Promise<");
        r.append(result.as_str());
        r.append(">");
    } else {
        r.append(result.as_str());
    }
    r.append(" {\n");
    Ok(r)
}

fn invocation(func: &Function) -> (r: Result<String, GenerationError>)
    ensures
        r is Ok <==> !args_have_custom(func.arguments@),
        r matches Ok(s) ==> s@ == invocation_of(*func),
        r matches Err(e) ==> e matches GenerationError::UnresolvedCustomType { name }
            && args_mention_custom(func.arguments@, name@),
{
    let has_status = func.ffi_func.has_rust_call_status_arg;
    let mut r = String::from_str("  ");
    append_if(&mut r, func.return_type.is_some(), "const uniffiResult = ");
    append_if(&mut r, func.is_async, "await ");
    r.append(func.ffi_func.name.as_str());
    r.append("(");
    let ghost before_args = r@;
    push_lowered_args(&mut r, &func.arguments)?;
    append_if(&mut r, has_status && func.arguments.len() > 0, ", ");
    append_if(&mut r, has_status, "uniffiStatus");
    assert(r@ =~= before_args + call_args_of(*func));
    r.append(");\n");
    Ok(r)
}

fn return_line(func: &Function) -> (r: Result<String, GenerationError>)
    ensures
        r is Ok <==> !result_has_custom(func.return_type),
        r matches Ok(s) ==> s@ == return_line_of(*func),
        r matches Err(e) ==> e matches GenerationError::UnresolvedCustomType { name }
            && result_mentions_custom(func.return_type, name@),
{
    match &func.return_type {
        Some(t) => {
            let lifted = typescript_ffi_converter_lift_with(String::from_str("uniffiResult"), t)?;
            let mut r = String::from_str("  return ");
            r.append(lifted.as_str());
            r.append(";\n");
            Ok(r)
        },
        None => Ok(String::new()),
    }
}

/// Emits the host wrapper of a function. Where the native function takes a
/// call status, the status is created before the call and checked by the
/// statement right after it, in the async form as in the plain one.
pub fn typescript_function_decl(func: &Function) -> (r: Result<String, GenerationError>)
    ensures
        r is Ok <==> !function_has_custom(*func),
        r matches Ok(s) ==> s@ == function_wrapper_of(*func),
        r matches Err(e) ==> e matches GenerationError::UnresolvedCustomType { name }
            && function_mentions_custom(*func, name@),
{
    let has_status = func.ffi_func.has_rust_call_status_arg;
    let mut r = function_head(func)?;
    append_if(&mut r, has_status, "  const uniffiStatus = uniffiCreateCallStatus();\n");
    let call = invocation(func)?;
    r.append(call.as_str());
    append_if(&mut r, has_status, "  uniffiCheckCallStatus(uniffiStatus);\n");
    let ghost before_tail = r@;
    let ret = return_line(func)?;
    r.append(ret.as_str());
    r.append("}\n\n");
    assert(r@ =~= before_tail + function_tail_of(*func));
    Ok(r)
}

/// One field in a variant's type: a comma, the field name and its type.
pub open spec fn variant_field_type_of(f: Field) -> Seq<char> {
    ", "@ + var_name_of(f.name@) + ": "@ + type_name_of(f.typ)
}

pub open spec fn variant_field_types_of(fs: Seq<Field>) -> Seq<char>
    decreases fs.len(),
{
    if fs.len() == 0 {
        Seq::empty()
    } else {
        variant_field_types_of(fs.drop_last()) + variant_field_type_of(fs.last())
    }
}

/// One field in a variant's converter entry.
pub open spec fn variant_field_converter_of(f: Field) -> Seq<char> {
    "[\""@ + var_name_of(f.name@) + "\", "@ + converter_of(f.typ) + "], "@
}

pub open spec fn variant_field_converters_of(fs: Seq<Field>) -> Seq<char>
    decreases fs.len(),
{
    if fs.len() == 0 {
        Seq::empty()
    } else {
        variant_field_converters_of(fs.drop_last()) + variant_field_converter_of(fs.last())
    }
}

/// Line of an enum's type declaration for one variant: a tagged object.
pub open spec fn variant_type_line_of(v: Variant) -> Seq<char> {
    "  | { tag: \""@ + v.name@ + "\""@ + variant_field_types_of(v.fields@) + " }\n"@
}

pub open spec fn variant_type_lines_of(vs: Seq<Variant>) -> Seq<char>
    decreases vs.len(),
{
    if vs.len() == 0 {
        Seq::empty()
    } else {
        variant_type_lines_of(vs.drop_last()) + variant_type_line_of(vs.last())
    }
}

/// Line of an enum's converter declaration for one variant.
pub open spec fn variant_converter_line_of(v: Variant) -> Seq<char> {
    "  [\""@ + v.name@ + "\", ["@ + variant_field_converters_of(v.fields@) + "]],\n"@
}

pub open spec fn variant_converter_lines_of(vs: Seq<Variant>) -> Seq<char>
    decreases vs.len(),
{
    if vs.len() == 0 {
        Seq::empty()
    } else {
        variant_converter_lines_of(vs.drop_last()) + variant_converter_line_of(vs.last())
    }
}

/// The name under which an enum's converter is declared.
pub open spec fn enum_converter_decl_name(e: Enumeration) -> Seq<char> {
    definition_converter_name_of(e.name@)
}

/// Everything emitted for an enum: its type, then its converter.
pub open spec fn enum_decl_of(e: Enumeration) -> Seq<char> {
    doc_block_of(e.docstring) + "export type "@ + upper_camel_of(e.name@) + " =\n"@
        + variant_type_lines_of(e.variants@) + ";\n\n"@ + "export const "@
        + enum_converter_decl_name(e) + " = uniffiEnumConverter<"@ + upper_camel_of(e.name@)
        + ">([\n"@ + variant_converter_lines_of(e.variants@) + "]);\n\n"@
}

fn push_variant_field_types(out: &mut String, fields: &Vec<Field>) -> (r: Result<(), GenerationError>)
    ensures
        r is Ok <==> !fields_have_custom(fields@),
        r is Ok ==> final(out)@ == old(out)@ + variant_field_types_of(fields@),
        r matches Err(e) ==> e matches GenerationError::UnresolvedCustomType { name }
            && fields_mention_custom(fields@, name@),
{
    let ghost start = out@;
    let n = fields.len();
    for i in 0..n
        invariant
            n == fields@.len(),
            out@ == start + variant_field_types_of(fields@.take(i as int)),
            forall|k: int| 0 <= k < i ==> !has_custom(#[trigger] fields@[k].typ),
    {
        let f = &fields[i];
        let name = typescript_var_name(f.name.as_str());
        let t = match typescript_type_name(&f.typ) {
            Ok(t) => t,
            Err(e) => {
                assert(fields@[i as int] == *f);
                return Err(e);
            },
        };
        out.append(", ");
        out.append(name.as_str());
        out.append(": ");
        out.append(t.as_str());
        assert(fields@.take(i + 1).drop_last() =~= fields@.take(i as int));
    }
    assert(fields@.take(n as int) =~= fields@);
    Ok(())
}


fn push_variant_field_converters(out: &mut String, fields: &Vec<Field>) -> (r: Result<(), GenerationError>)
    ensures
        r is Ok <==> !fields_have_custom(fields@),
        r is Ok ==> final(out)@ == old(out)@ + variant_field_converters_of(fields@),
        r matches Err(e) ==> e matches GenerationError::UnresolvedCustomType { name }
            && fields_mention_custom(fields@, name@),
{
    let ghost start = out@;
    let n = fields.len();
    for i in 0..n
        invariant
            n == fields@.len(),
            out@ == start + variant_field_converters_of(fields@.take(i as int)),
            forall|k: int| 0 <= k < i ==> !has_custom(#[trigger] fields@[k].typ),
    {
        let f = &fields[i];
        let name = typescript_var_name(f.name.as_str());
        let t = match typescript_ffi_converter_name(&f.typ) {
            Ok(t) => t,
            Err(e) => {
                assert(fields@[i as int] == *f);
                return Err(e);
            },
        };
        out.append("[\"");
        out.append(name.as_str());
        out.append("\", ");
        out.append(t.as_str());
        out.append("], ");
        assert(fields@.take(i + 1).drop_last() =~= fields@.take(i as int));
    }
    assert(fields@.take(n as int) =~= fields@);
    Ok(())
}


fn push_variant_type_lines(out: &mut String, variants: &Vec<Variant>) -> (r: Result<(), GenerationError>)
    ensures
        r is Ok <==> !variants_have_custom(variants@),
        r is Ok ==> final(out)@ == old(out)@ + variant_type_lines_of(variants@),
        r matches Err(e) ==> e matches GenerationError::UnresolvedCustomType { name }
            && variants_mention_custom(variants@, name@),
{
    let ghost start = out@;
    let n = variants.len();
    for i in 0..n
        invariant
            n == variants@.len(),
            out@ == start + variant_type_lines_of(variants@.take(i as int)),
            forall|k: int| 0 <= k < i ==> !fields_have_custom(#[trigger] variants@[k].fields@),
    {
        let v = &variants[i];
        assert(variants@[i as int] == *v);
        let ghost before = out@;
        out.append("  | { tag: \"");
        out.append(v.name.as_str());
        out.append("\"");
        push_variant_field_types(out, &v.fields)?;
        out.append(" }\n");
        assert(out@ =~= before + variant_type_line_of(*v));
        assert(variants@.take(i + 1).drop_last() =~= variants@.take(i as int));
    }
    assert(variants@.take(n as int) =~= variants@);
    Ok(())
}


fn push_variant_converter_lines(out: &mut String, variants: &Vec<Variant>) -> (r: Result<(), GenerationError>)
    ensures
        r is Ok <==> !variants_have_custom(variants@),
        r is Ok ==> final(out)@ == old(out)@ + variant_converter_lines_of(variants@),
        r matches Err(e) ==> e matches GenerationError::UnresolvedCustomType { name }
            && variants_mention_custom(variants@, name@),
{
    let ghost start = out@;
    let n = variants.len();
    for i in 0..n
        invariant
            n == variants@.len(),
            out@ == start + variant_converter_lines_of(variants@.take(i as int)),
            forall|k: int| 0 <= k < i ==> !fields_have_custom(#[trigger] variants@[k].fields@),
    {
        let v = &variants[i];
        assert(variants@[i as int] == *v);
        let ghost before = out@;
        out.append("  [\"");
        out.append(v.name.as_str());
        out.append("\", [");
        push_variant_field_converters(out, &v.fields)?;
        out.append("]],\n");
        assert(out@ =~= before + variant_converter_line_of(*v));
        assert(variants@.take(i + 1).drop_last() =~= variants@.take(i as int));
    }
    assert(variants@.take(n as int) =~= variants@);
    Ok(())
}


/// Emits an enum's type, a union of tagged objects, followed by the
/// declaration of its converter.
pub fn typescript_enum_decl(e: &Enumeration) -> (r: Result<String, GenerationError>)
    ensures
        r is Ok <==> !variants_have_custom(e.variants@),
        r matches Ok(s) ==> s@ == enum_decl_of(*e),
        r matches Err(err) ==> err matches GenerationError::UnresolvedCustomType { name }
            && variants_mention_custom(e.variants@, name@),
{
    let tname = upper_camel_case(e.name.as_str());
    let mut r = doc_block(&e.docstring);
    r.append("export type ");
    r.append(tname.as_str());
    r.append(" =\n");
    push_variant_type_lines(&mut r, &e.variants)?;
    r.append(";\n\n");
    let conv = typescript_ffi_converter_struct_enum_object_name(e.name.as_str());
    r.append("export const ");
    r.append(conv.as_str());
    r.append(" = uniffiEnumConverter<");
    r.append(tname.as_str());
    r.append(">([\n");
    push_variant_converter_lines(&mut r, &e.variants)?;
    r.append("]);\n\n");
    Ok(r)
}

/// The name under which an object's converter is declared.
pub open spec fn object_converter_decl_name(o: Object) -> Seq<char> {
    definition_converter_name_of(o.name@)
}

/// Everything emitted for an object: the interface its class implements,
/// the class that owns a native handle, the factory that wraps handles and
/// the converter built on that factory.
pub open spec fn object_decl_of(o: Object) -> Seq<char> {
    doc_block_of(o.docstring) + "export interface "@ + protocol_name_of(o.name@) + " {\n}\n\n"@
        + "export class "@ + class_name_of(o.name@) + " implements "@ + protocol_name_of(o.name@)
        + " {\n  constructor(readonly uniffiHandle: bigint) {}\n}\n\n"@ + "export const "@
        + object_factory_name_of(o.name@) + " = uniffiObjectFactory("@ + class_name_of(o.name@)
        + ");\n\n"@ + "export const "@ + object_converter_decl_name(o)
        + " = uniffiObjectConverter("@ + object_factory_name_of(o.name@) + ");\n\n"@
}

pub fn typescript_object_decl(o: &Object) -> (r: String)
    ensures
        r@ == object_decl_of(*o),
{
    let protocol = typescript_protocol_name(o.name.as_str());
    let class = typescript_class_name(o.name.as_str());
    let factory = typescript_ffi_object_factory_name(o.name.as_str());
    let conv = typescript_ffi_converter_struct_enum_object_name(o.name.as_str());
    let mut r = doc_block(&o.docstring);
    r.append("export interface ");
    r.append(protocol.as_str());
    r.append(" {\n}\n\n");
    r.append("export class ");
    r.append(class.as_str());
    r.append(" implements ");
    r.append(protocol.as_str());
    r.append(" {\n  constructor(readonly uniffiHandle: bigint) {}\n}\n\n");
    r.append("export const ");
    r.append(factory.as_str());
    r.append(" = uniffiObjectFactory(");
    r.append(class.as_str());
    r.append(");\n\n");
    r.append("export const ");
    r.append(conv.as_str());
    r.append(" = uniffiObjectConverter(");
    r.append(factory.as_str());
    r.append(");\n\n");
    r
}

/// The converter that type resolution names for a record, enum or object
/// is the converter that the definition's own declaration introduces.
pub proof fn lemma_converter_names_agree(r: Record, e: Enumeration, o: Object)
    ensures
        converter_of(Type::Record { name: r.name }) == record_converter_decl_name(r),
        ("export const "@ + converter_of(Type::Record { name: r.name })).is_prefix_of(
            record_converter_decl_of(r),
        ),
        record_decl_of(r) == record_type_decl_of(r) + record_converter_decl_of(r),
        converter_of(Type::Enum { name: e.name }) == enum_converter_decl_name(e),
        converter_of(Type::Object { name: o.name }) == object_converter_decl_name(o),
{
    let head = "export const "@ + converter_of(Type::Record { name: r.name });
    assert(record_converter_decl_of(r).subrange(0, head.len() as int) =~= head);
}

/// Where the native function takes a call status, its wrapper creates the
/// status, invokes the native function with it as the last argument, and
/// checks it in the statement right after the invocation, before the only
/// exit; async and plain wrappers alike.
pub proof fn lemma_status_checked_after_call(f: Function)
    requires
        f.ffi_func.has_rust_call_status_arg,
    ensures
        function_wrapper_of(f) == function_head_of(f) + status_decl_line() + invocation_of(f)
            + status_check_line() + function_tail_of(f),
        call_args_of(f) == lowered_args_of(f.arguments@) + line_if(f.arguments@.len() > 0, ", "@)
            + "uniffiStatus"@,
        function_tail_of(f) == return_line_of(f) + "}\n\n"@,
{
}

} // verus!
