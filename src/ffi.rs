use crate::naming::{
    callback_name_of, ffi_struct_name_of, typescript_callback_name, typescript_ffi_struct_name,
};
use crate::text::{append_if, line_if};
use vstd::prelude::*;

verus! {

/// How a value is passed across the native call boundary.
pub enum FfiType {
    UInt8,
    Int8,
    UInt16,
    Int16,
    UInt32,
    Int32,
    UInt64,
    Int64,
    Float32,
    Float64,
    /// Pointer to a native reference-counted value of the named type.
    RustArcPtr { name: String },
    /// Byte buffer owned by whoever currently holds it.
    RustBuffer,
    /// Bytes borrowed from the host for the duration of one call.
    ForeignBytes,
    /// Pointer to the named native callback.
    Callback { name: String },
    /// The named native struct.
    Struct { name: String },
    /// Opaque 64-bit handle.
    Handle,
    RustCallStatus,
    Reference { inner: Box<FfiType> },
    MutReference { inner: Box<FfiType> },
    VoidPointer,
}

/// A named, typed slot: a field of a native struct or an argument of a
/// native function.
pub struct FfiField {
    pub name: String,
    pub typ: FfiType,
}

/// A native struct, laid out field by field in this order.
pub struct FfiStruct {
    pub name: String,
    pub fields: Vec<FfiField>,
}

/// A native function exported by the library.
pub struct FfiFunction {
    pub name: String,
    pub arguments: Vec<FfiField>,
    pub return_type: Option<FfiType>,
    pub has_rust_call_status_arg: bool,
    pub is_async: bool,
}

/// A native callback that the host implements.
pub struct FfiCallbackFunction {
    pub name: String,
    pub arguments: Vec<FfiField>,
    pub return_type: Option<FfiType>,
    pub has_rust_call_status_arg: bool,
}

pub enum FfiDefinition {
    Function(FfiFunction),
    CallbackFunction(FfiCallbackFunction),
    Struct(FfiStruct),
}

/// The host spelling of a native ABI type.
pub open spec fn ffi_type_name_of(t: FfiType) -> Seq<char>
    decreases t,
{
    match t {
        FfiType::UInt8 => "FfiType.UInt8"@,
        FfiType::Int8 => "FfiType.Int8"@,
        FfiType::UInt16 => "FfiType.UInt16"@,
        FfiType::Int16 => "FfiType.Int16"@,
        FfiType::UInt32 => "FfiType.UInt32"@,
        FfiType::Int32 => "FfiType.Int32"@,
        FfiType::UInt64 => "FfiType.UInt64"@,
        FfiType::Int64 => "FfiType.Int64"@,
        FfiType::Float32 => "FfiType.Float32"@,
        FfiType::Float64 => "FfiType.Float64"@,
        FfiType::RustArcPtr { .. } => "FfiType.RustArcPtr"@,
        FfiType::RustBuffer => "FfiType.RustBuffer"@,
        FfiType::ForeignBytes => "FfiType.ForeignBytes"@,
        FfiType::Callback { name } => callback_name_of(name@),
        FfiType::Struct { name } => ffi_struct_name_of(name@),
        FfiType::Handle => "FfiType.Handle"@,
        FfiType::RustCallStatus => "FfiType.RustCallStatus"@,
        FfiType::Reference { inner } => "FfiType.Reference("@ + ffi_type_name_of(*inner) + ")"@,
        FfiType::MutReference { inner } => "FfiType.MutReference("@ + ffi_type_name_of(*inner)
            + ")"@,
        FfiType::VoidPointer => "FfiType.VoidPointer"@,
    }
}

/// The host spelling of an optional return type; no return type is `Void`.
pub open spec fn return_type_name_of(t: Option<FfiType>) -> Seq<char> {
    match t {
        Some(t) => ffi_type_name_of(t),
        None => "FfiType.Void"@,
    }
}

/// One line of a field or argument list.
pub open spec fn field_line_of(f: FfiField) -> Seq<char> {
    "  [\""@ + f.name@ + "\", "@ + ffi_type_name_of(f.typ) + "],\n"@
}

/// The lines of a field or argument list, in order.
pub open spec fn field_lines_of(fs: Seq<FfiField>) -> Seq<char>
    decreases fs.len(),
{
    if fs.len() == 0 {
        Seq::empty()
    } else {
        field_lines_of(fs.drop_last()) + field_line_of(fs.last())
    }
}

/// The trailing argument through which a native function reports its status.
pub open spec fn function_status_line() -> Seq<char> {
    "  [\"uniffi_out_err\", FfiType.MutReference(FfiType.RustCallStatus)],\n"@
}

/// The trailing argument through which a native callback reports its status.
pub open spec fn callback_status_line() -> Seq<char> {
    "  [\"rust_call_status\", FfiType.MutReference(FfiType.RustCallStatus)],\n"@
}

/// Declaration of a native struct.
pub open spec fn struct_decl_of(s: FfiStruct) -> Seq<char> {
    "export const "@ + ffi_struct_name_of(s.name@) + " = defineStruct(\""@ + s.name@ + "\", [\n"@
        + field_lines_of(s.fields@) + "]);\n"@
}

/// Declaration of a native function.
pub open spec fn function_decl_of(f: FfiFunction) -> Seq<char> {
    "export const "@ + f.name@ + " = defineFunction(\""@ + f.name@ + "\", [\n"@
        + field_lines_of(f.arguments@) + line_if(f.has_rust_call_status_arg, function_status_line()) + "], "@ + return_type_name_of(f.return_type) + ");\n"@
}

/// Declaration of a native callback.
pub open spec fn callback_decl_of(c: FfiCallbackFunction) -> Seq<char> {
    "export const "@ + callback_name_of(c.name@) + " = defineCallback(\""@ + c.name@ + "\", [\n"@
        + field_lines_of(c.arguments@) + line_if(c.has_rust_call_status_arg, callback_status_line()) + "], "@ + return_type_name_of(c.return_type) + ");\n"@
}

pub open spec fn definition_decl_of(d: FfiDefinition) -> Seq<char> {
    match d {
        FfiDefinition::Function(f) => function_decl_of(f),
        FfiDefinition::CallbackFunction(c) => callback_decl_of(c),
        FfiDefinition::Struct(s) => struct_decl_of(s),
    }
}

/// The declarations of a list of native definitions, in order.
pub open spec fn definition_decls_of(ds: Seq<FfiDefinition>) -> Seq<char>
    decreases ds.len(),
{
    if ds.len() == 0 {
        Seq::empty()
    } else {
        definition_decls_of(ds.drop_last()) + definition_decl_of(ds.last())
    }
}

pub fn typescript_ffi_type_name(typ: &FfiType) -> (r: String)
    ensures
        r@ == ffi_type_name_of(*typ),
    decreases typ,
{
    match typ {
        FfiType::UInt8 => String::from_str("FfiType.UInt8"),
        FfiType::Int8 => String::from_str("FfiType.Int8"),
        FfiType::UInt16 => String::from_str("FfiType.UInt16"),
        FfiType::Int16 => String::from_str("FfiType.Int16"),
        FfiType::UInt32 => String::from_str("FfiType.UInt32"),
        FfiType::Int32 => String::from_str("FfiType.Int32"),
        FfiType::UInt64 => String::from_str("FfiType.UInt64"),
        FfiType::Int64 => String::from_str("FfiType.Int64"),
        FfiType::Float32 => String::from_str("FfiType.Float32"),
        FfiType::Float64 => String::from_str("FfiType.Float64"),
        FfiType::RustArcPtr { .. } => String::from_str("FfiType.RustArcPtr"),
        FfiType::RustBuffer => String::from_str("FfiType.RustBuffer"),
        FfiType::ForeignBytes => String::from_str("FfiType.ForeignBytes"),
        FfiType::Callback { name } => typescript_callback_name(name.as_str()),
        FfiType::Struct { name } => typescript_ffi_struct_name(name.as_str()),
        FfiType::Handle => String::from_str("FfiType.Handle"),
        FfiType::RustCallStatus => String::from_str("FfiType.RustCallStatus"),
        FfiType::Reference { inner } => {
            let i = typescript_ffi_type_name(inner);
            let mut r = String::from_str("FfiType.Reference(");
            r.append(i.as_str());
            r.append(")");
            r
        },
        FfiType::MutReference { inner } => {
            let i = typescript_ffi_type_name(inner);
            let mut r = String::from_str("FfiType.MutReference(");
            r.append(i.as_str());
            r.append(")");
            r
        },
        FfiType::VoidPointer => String::from_str("FfiType.VoidPointer"),
    }
}

fn return_type_name(typ: &Option<FfiType>) -> (r: String)
    ensures
        r@ == return_type_name_of(*typ),
{
    match typ {
        Some(t) => typescript_ffi_type_name(t),
        None => String::from_str("FfiType.Void"),
    }
}

/// Appends the lines of `fields`, in order, to `out`.
fn push_field_lines(out: &mut String, fields: &Vec<FfiField>)
    ensures
        final(out)@ == old(out)@ + field_lines_of(fields@),
{
    let ghost start = out@;
    let n = fields.len();
    for i in 0..n
        invariant
            n == fields@.len(),
            out@ == start + field_lines_of(fields@.take(i as int)),
    {
        let f = &fields[i];
        let t = typescript_ffi_type_name(&f.typ);
        out.append("  [\"");
        out.append(f.name.as_str());
        out.append("\", ");
        out.append(t.as_str());
        out.append("],\n");
        assert(fields@.take(i + 1).drop_last() =~= fields@.take(i as int));
    }
    assert(fields@.take(n as int) =~= fields@);
}

/// Emits the declaration of a native struct: every field in the order
/// declared, with its ABI type.
pub fn typescript_ffi_struct_decl(s: &FfiStruct) -> (r: String)
    ensures
        r@ == struct_decl_of(*s),
{
    let sname = typescript_ffi_struct_name(s.name.as_str());
    let mut r = String::from_str("export const ");
    r.append(sname.as_str());
    r.append(" = defineStruct(\"");
    r.append(s.name.as_str());
    r.append("\", [\n");
    push_field_lines(&mut r, &s.fields);
    r.append("]);\n");
    r
}

/// Emits the declaration of a native function: its arguments as declared,
/// then the call-status argument if it has one, then its return type.
pub fn typescript_ffi_function_decl(f: &FfiFunction) -> (r: String)
    ensures
        r@ == function_decl_of(*f),
{
    let mut r = String::from_str("export const ");
    r.append(f.name.as_str());
    r.append(" = defineFunction(\"");
    r.append(f.name.as_str());
    r.append("\", [\n");
    push_field_lines(&mut r, &f.arguments);
    append_if(
        &mut r,
        f.has_rust_call_status_arg,
        "  [\"uniffi_out_err\", FfiType.MutReference(FfiType.RustCallStatus)],\n",
    );
    r.append("], ");
    let ret = return_type_name(&f.return_type);
    r.append(ret.as_str());
    r.append(");\n");
    r
}

/// Emits the declaration of a native callback, shaped as a function's.
pub fn typescript_ffi_callback_decl(c: &FfiCallbackFunction) -> (r: String)
    ensures
        r@ == callback_decl_of(*c),
{
    let cname = typescript_callback_name(c.name.as_str());
    let mut r = String::from_str("export const ");
    r.append(cname.as_str());
    r.append(" = defineCallback(\"");
    r.append(c.name.as_str());
    r.append("\", [\n");
    push_field_lines(&mut r, &c.arguments);
    append_if(
        &mut r,
        c.has_rust_call_status_arg,
        "  [\"rust_call_status\", FfiType.MutReference(FfiType.RustCallStatus)],\n",
    );
    r.append("], ");
    let ret = return_type_name(&c.return_type);
    r.append(ret.as_str());
    r.append(");\n");
    r
}

pub fn typescript_ffi_definition_decl(d: &FfiDefinition) -> (r: String)
    ensures
        r@ == definition_decl_of(*d),
{
    match d {
        FfiDefinition::Function(f) => typescript_ffi_function_decl(f),
        FfiDefinition::CallbackFunction(c) => typescript_ffi_callback_decl(c),
        FfiDefinition::Struct(s) => typescript_ffi_struct_decl(s),
    }
}

/// Emits the declarations of all native definitions, in order.
pub fn typescript_ffi_definitions(defs: &Vec<FfiDefinition>) -> (r: String)
    ensures
        r@ == definition_decls_of(defs@),
{
    let mut r = String::new();
    let n = defs.len();
    for i in 0..n
        invariant
            n == defs@.len(),
            r@ == definition_decls_of(defs@.take(i as int)),
    {
        let d = typescript_ffi_definition_decl(&defs[i]);
        r.append(d.as_str());
        assert(defs@.take(i + 1).drop_last() =~= defs@.take(i as int));
    }
    assert(defs@.take(n as int) =~= defs@);
    r
}

/// `a` and `b` are the same ABI type, whatever the strings that hold the
/// names in them.
pub open spec fn same_ffi_type(a: FfiType, b: FfiType) -> bool
    decreases a,
{
    match (a, b) {
        (FfiType::RustArcPtr { name: x }, FfiType::RustArcPtr { name: y }) => x@ == y@,
        (FfiType::Callback { name: x }, FfiType::Callback { name: y }) => x@ == y@,
        (FfiType::Struct { name: x }, FfiType::Struct { name: y }) => x@ == y@,
        (FfiType::Reference { inner: x }, FfiType::Reference { inner: y }) => same_ffi_type(*x, *y),
        (FfiType::MutReference { inner: x }, FfiType::MutReference { inner: y }) => same_ffi_type(
            *x,
            *y,
        ),
        _ => !(a is RustArcPtr || a is Callback || a is Struct || a is Reference
            || a is MutReference) && a == b,
    }
}

/// The ABI type mapping depends on an ABI type's structure alone.
pub proof fn lemma_ffi_type_name_structural(a: FfiType, b: FfiType)
    requires
        same_ffi_type(a, b),
    ensures
        ffi_type_name_of(a) == ffi_type_name_of(b),
    decreases a,
{
    match (a, b) {
        (FfiType::Reference { inner: x }, FfiType::Reference { inner: y }) => {
            lemma_ffi_type_name_structural(*x, *y);
        },
        (FfiType::MutReference { inner: x }, FfiType::MutReference { inner: y }) => {
            lemma_ffi_type_name_structural(*x, *y);
        },
        _ => {},
    }
}

/// Field lists keep their order: the lines of `a` followed by `b` are the
/// lines of `a` followed by the lines of `b`, one line per field, each
/// with the field's own ABI type.
pub proof fn lemma_field_lines_keep_order(a: Seq<FfiField>, b: Seq<FfiField>)
    ensures
        field_lines_of(a + b) == field_lines_of(a) + field_lines_of(b),
    decreases b.len(),
{
    if b.len() == 0 {
        assert(a + b =~= a);
        assert(field_lines_of(a) + field_lines_of(b) =~= field_lines_of(a));
    } else {
        lemma_field_lines_keep_order(a, b.drop_last());
        assert((a + b).drop_last() =~= a + b.drop_last());
        assert((a + b).last() == b.last());
        assert(field_lines_of(a) + field_lines_of(b) =~= field_lines_of(a) + field_lines_of(
            b.drop_last(),
        ) + field_line_of(b.last()));
    }
}

} // verus!
