use crate::naming::{
    class_name_of, definition_converter_name_of, lower_camel_case, lower_camel_of,
    suffixed, typescript_class_name, typescript_ffi_converter_struct_enum_object_name,
    upper_camel_case, upper_camel_of,
};
use crate::types::{GenerationError, Type};
use vstd::prelude::*;

verus! {

/// `t` is or holds a custom type. No renderer for custom types is
/// registered, so such a type has no mapping and is reported.
pub open spec fn has_custom(t: Type) -> bool
    decreases t,
{
    match t {
        Type::Custom { .. } => true,
        Type::Optional { inner_type } => has_custom(*inner_type),
        Type::Sequence { inner_type } => has_custom(*inner_type),
        Type::Mapping { key_type, value_type } => has_custom(*key_type) || has_custom(*value_type),
        _ => false,
    }
}

/// `t` is or holds a custom type named `n`.
pub open spec fn mentions_custom(t: Type, n: Seq<char>) -> bool
    decreases t,
{
    match t {
        Type::Custom { name, .. } => name@ == n,
        Type::Optional { inner_type } => mentions_custom(*inner_type, n),
        Type::Sequence { inner_type } => mentions_custom(*inner_type, n),
        Type::Mapping { key_type, value_type } => mentions_custom(*key_type, n) || mentions_custom(
            *value_type,
            n,
        ),
        _ => false,
    }
}

/// What a resolver returns for `t`: the mapping `s` where `t` holds no
/// custom type, otherwise an error naming a custom type that `t` holds.
pub open spec fn resolved(r: Result<String, GenerationError>, t: Type, s: Seq<char>) -> bool {
    &&& r is Ok <==> !has_custom(t)
    &&& r matches Ok(v) ==> v@ == s
    &&& r matches Err(e) ==> e matches GenerationError::UnresolvedCustomType { name }
        && mentions_custom(t, name@)
}

/// The TypeScript type that values of `t` take in the host; custom types
/// have none.
///
/// Integers up to 32 bits are `number`; 64-bit integers are `bigint`, which
/// holds every 64-bit value exactly.
pub open spec fn type_name_of(t: Type) -> Seq<char>
    decreases t,
{
    match t {
        Type::Int8 => "/*i8*/number"@,
        Type::Int16 => "/*i16*/number"@,
        Type::Int32 => "/*i32*/number"@,
        Type::Int64 => "/*i64*/bigint"@,
        Type::UInt8 => "/*u8*/number"@,
        Type::UInt16 => "/*u16*/number"@,
        Type::UInt32 => "/*u32*/number"@,
        Type::UInt64 => "/*u64*/bigint"@,
        Type::Float32 => "/*f32*/number"@,
        Type::Float64 => "/*f64*/number"@,
        Type::Boolean => "boolean"@,
        Type::String => "string"@,
        Type::Bytes => "ArrayBuffer"@,
        Type::Timestamp => "Date"@,
        Type::Duration => "number /* in milliseconds */"@,
        Type::Enum { name } => upper_camel_of(name@),
        Type::Record { name } => upper_camel_of(name@),
        Type::Object { name } => class_name_of(name@),
        Type::CallbackInterface { name } => lower_camel_of(name@),
        Type::Optional { inner_type } => type_name_of(*inner_type) + " | undefined"@,
        Type::Sequence { inner_type } => "Array<"@ + type_name_of(*inner_type) + ">"@,
        Type::Mapping { key_type, value_type } => "Map<"@ + type_name_of(*key_type) + ", "@
            + type_name_of(*value_type) + ">"@,
        // never emitted: the resolvers report custom types instead
        Type::Custom { .. } => Seq::empty(),
    }
}

/// The converter that moves values of `t` across the boundary: a named
/// singleton for simple and named types, a constructor expression over the
/// inner converters for composite types; custom types have none.
pub open spec fn converter_of(t: Type) -> Seq<char>
    decreases t,
{
    match t {
        Type::Int8 => "FfiConverterInt8"@,
        Type::Int16 => "FfiConverterInt16"@,
        Type::Int32 => "FfiConverterInt32"@,
        Type::Int64 => "FfiConverterInt64"@,
        Type::UInt8 => "FfiConverterUInt8"@,
        Type::UInt16 => "FfiConverterUInt16"@,
        Type::UInt32 => "FfiConverterUInt32"@,
        Type::UInt64 => "FfiConverterUInt64"@,
        Type::Float32 => "FfiConverterFloat32"@,
        Type::Float64 => "FfiConverterFloat64"@,
        Type::Boolean => "FfiConverterBool"@,
        Type::String => "FfiConverterString"@,
        Type::Bytes => "FfiConverterBytes"@,
        Type::Timestamp => "FfiConverterTimestamp"@,
        Type::Duration => "FfiConverterDuration"@,
        Type::Enum { name } => definition_converter_name_of(name@),
        Type::Record { name } => definition_converter_name_of(name@),
        Type::Object { name } => definition_converter_name_of(name@),
        Type::CallbackInterface { name } => lower_camel_of(name@),
        Type::Optional { inner_type } => optional_converter_of(converter_of(*inner_type)),
        Type::Sequence { inner_type } => sequence_converter_of(converter_of(*inner_type)),
        Type::Mapping { key_type, value_type } => mapping_converter_of(
            converter_of(*key_type),
            converter_of(*value_type),
        ),
        // never emitted: the resolvers report custom types instead
        Type::Custom { .. } => Seq::empty(),
    }
}

/// The optional-converter constructor applied to an inner converter.
pub open spec fn optional_converter_of(inner: Seq<char>) -> Seq<char> {
    "(new FfiConverterOptional("@ + inner + "))"@
}

/// The sequence-converter constructor applied to an inner converter.
pub open spec fn sequence_converter_of(inner: Seq<char>) -> Seq<char> {
    "(new FfiConverterArray("@ + inner + "))"@
}

/// The map-converter constructor applied to a key and a value converter.
pub open spec fn mapping_converter_of(key: Seq<char>, value: Seq<char>) -> Seq<char> {
    "(new FfiConverterMap("@ + key + ", "@ + value + "))"@
}

/// Kinds that cross the boundary inside a length-prefixed byte buffer.
pub open spec fn is_buffer_kind(t: Type) -> bool {
    t is String || t is Mapping || t is Sequence || t is Enum || t is Record
}

/// Expression that lifts the native value `target` into a host value of `t`.
pub open spec fn lift_expr_of(target: Seq<char>, t: Type) -> Seq<char> {
    if is_buffer_kind(t) {
        converter_of(t) + ".lift(new UniffiRustBufferValue("@ + target
            + ").consumeIntoUint8Array())"@
    } else if t is Optional {
        "new FfiConverterOptional("@ + converter_of(*t->Optional_inner_type)
            + ").lift(new UniffiRustBufferValue("@ + target + ").consumeIntoUint8Array())"@
    } else {
        converter_of(t) + ".lift("@ + target + ")"@
    }
}

/// Expression that lowers the host value `target` of `t` into a native value.
pub open spec fn lower_expr_of(target: Seq<char>, t: Type) -> Seq<char> {
    if is_buffer_kind(t) {
        "UniffiRustBufferValue.allocateWithBytes("@ + converter_of(t) + ".lower("@ + target
            + ")).toStruct()"@
    } else if t is Optional {
        "UniffiRustBufferValue.allocateWithBytes(new FfiConverterOptional("@ + converter_of(
            *t->Optional_inner_type,
        ) + ").lower("@ + target + ")).toStruct()"@
    } else {
        converter_of(t) + ".lower("@ + target + ")"@
    }
}

pub fn typescript_type_name(typ: &Type) -> (r: Result<String, GenerationError>)
    ensures
        resolved(r, *typ, type_name_of(*typ)),
    decreases typ,
{
    Ok(match typ {
        Type::Int8 => String::from_str("/*i8*/number"),
        Type::Int16 => String::from_str("/*i16*/number"),
        Type::Int32 => String::from_str("/*i32*/number"),
        Type::Int64 => String::from_str("/*i64*/bigint"),
        Type::UInt8 => String::from_str("/*u8*/number"),
        Type::UInt16 => String::from_str("/*u16*/number"),
        Type::UInt32 => String::from_str("/*u32*/number"),
        Type::UInt64 => String::from_str("/*u64*/bigint"),
        Type::Float32 => String::from_str("/*f32*/number"),
        Type::Float64 => String::from_str("/*f64*/number"),
        Type::Boolean => String::from_str("boolean"),
        Type::String => String::from_str("string"),
        Type::Bytes => String::from_str("ArrayBuffer"),
        Type::Timestamp => String::from_str("Date"),
        Type::Duration => String::from_str("number /* in milliseconds */"),
        Type::Enum { name } => upper_camel_case(name.as_str()),
        Type::Record { name } => upper_camel_case(name.as_str()),
        Type::Object { name } => typescript_class_name(name.as_str()),
        Type::CallbackInterface { name } => lower_camel_case(name.as_str()),
        Type::Optional { inner_type } => {
            let inner = typescript_type_name(inner_type)?;
            suffixed(inner, " | undefined")
        },
        Type::Sequence { inner_type } => {
            let inner = typescript_type_name(inner_type)?;
            let mut r = String::from_str("Array<");
            r.append(inner.as_str());
            r.append(">");
            r
        },
        Type::Mapping { key_type, value_type } => {
            let key = typescript_type_name(key_type)?;
            let value = typescript_type_name(value_type)?;
            let mut r = String::from_str("Map<");
            r.append(key.as_str());
            r.append(", ");
            r.append(value.as_str());
            r.append(">");
            r
        },
        Type::Custom { name, .. } => {
            return Err(GenerationError::UnresolvedCustomType { name: name.clone() });
        },
    })
}

pub fn typescript_ffi_converter_name(typ: &Type) -> (r: Result<String, GenerationError>)
    ensures
        resolved(r, *typ, converter_of(*typ)),
    decreases typ,
{
    Ok(match typ {
        Type::Int8 => String::from_str("FfiConverterInt8"),
        Type::Int16 => String::from_str("FfiConverterInt16"),
        Type::Int32 => String::from_str("FfiConverterInt32"),
        Type::Int64 => String::from_str("FfiConverterInt64"),
        Type::UInt8 => String::from_str("FfiConverterUInt8"),
        Type::UInt16 => String::from_str("FfiConverterUInt16"),
        Type::UInt32 => String::from_str("FfiConverterUInt32"),
        Type::UInt64 => String::from_str("FfiConverterUInt64"),
        Type::Float32 => String::from_str("FfiConverterFloat32"),
        Type::Float64 => String::from_str("FfiConverterFloat64"),
        Type::Boolean => String::from_str("FfiConverterBool"),
        Type::String => String::from_str("FfiConverterString"),
        Type::Bytes => String::from_str("FfiConverterBytes"),
        Type::Timestamp => String::from_str("FfiConverterTimestamp"),
        Type::Duration => String::from_str("FfiConverterDuration"),
        Type::Enum { name } | Type::Record { name } | Type::Object { name } => {
            typescript_ffi_converter_struct_enum_object_name(name.as_str())
        },
        Type::CallbackInterface { name } => lower_camel_case(name.as_str()),
        Type::Optional { inner_type } => {
            let inner = typescript_ffi_converter_name(inner_type)?;
            let mut r = String::from_str("(new FfiConverterOptional(");
            r.append(inner.as_str());
            r.append("))");
            r
        },
        Type::Sequence { inner_type } => {
            let inner = typescript_ffi_converter_name(inner_type)?;
            let mut r = String::from_str("(new FfiConverterArray(");
            r.append(inner.as_str());
            r.append("))");
            r
        },
        Type::Mapping { key_type, value_type } => {
            let key = typescript_ffi_converter_name(key_type)?;
            let value = typescript_ffi_converter_name(value_type)?;
            let mut r = String::from_str("(new FfiConverterMap(");
            r.append(key.as_str());
            r.append(", ");
            r.append(value.as_str());
            r.append("))");
            r
        },
        Type::Custom { name, .. } => {
            return Err(GenerationError::UnresolvedCustomType { name: name.clone() });
        },
    })
}

/// Whether `typ` crosses the boundary inside a byte buffer.
fn is_buffer_backed(typ: &Type) -> (r: bool)
    ensures
        r == is_buffer_kind(*typ),
{
    match typ {
        Type::String | Type::Mapping { .. } | Type::Sequence { .. } | Type::Enum { .. }
        | Type::Record { .. } => true,
        _ => false,
    }
}

pub fn typescript_ffi_converter_lift_with(target: String, typ: &Type) -> (r: Result<
    String,
    GenerationError,
>)
    ensures
        resolved(r, *typ, lift_expr_of(target@, *typ)),
{
    if is_buffer_backed(typ) {
        let mut r = typescript_ffi_converter_name(typ)?;
        r.append(".lift(new UniffiRustBufferValue(");
        r.append(target.as_str());
        r.append(").consumeIntoUint8Array())");
        Ok(r)
    } else if let Type::Optional { inner_type } = typ {
        let inner = typescript_ffi_converter_name(inner_type)?;
        let mut r = String::from_str("new FfiConverterOptional(");
        r.append(inner.as_str());
        r.append(").lift(new UniffiRustBufferValue(");
        r.append(target.as_str());
        r.append(").consumeIntoUint8Array())");
        Ok(r)
    } else {
        let mut r = typescript_ffi_converter_name(typ)?;
        r.append(".lift(");
        r.append(target.as_str());
        r.append(")");
        Ok(r)
    }
}

pub fn typescript_ffi_converter_lower_with(target: String, typ: &Type) -> (r: Result<
    String,
    GenerationError,
>)
    ensures
        resolved(r, *typ, lower_expr_of(target@, *typ)),
{
    if is_buffer_backed(typ) {
        let conv = typescript_ffi_converter_name(typ)?;
        let mut r = String::from_str("UniffiRustBufferValue.allocateWithBytes(");
        r.append(conv.as_str());
        r.append(".lower(");
        r.append(target.as_str());
        r.append(")).toStruct()");
        Ok(r)
    } else if let Type::Optional { inner_type } = typ {
        let inner = typescript_ffi_converter_name(inner_type)?;
        let mut r = String::from_str(
            "UniffiRustBufferValue.allocateWithBytes(new FfiConverterOptional(",
        );
        r.append(inner.as_str());
        r.append(").lower(");
        r.append(target.as_str());
        r.append(")).toStruct()");
        Ok(r)
    } else {
        let mut r = typescript_ffi_converter_name(typ)?;
        r.append(".lower(");
        r.append(target.as_str());
        r.append(")");
        Ok(r)
    }
}

/// Types without a name or an inner type.
pub open spec fn is_leaf(t: Type) -> bool {
    !(t is Enum || t is Record || t is Object || t is CallbackInterface || t is Optional
        || t is Sequence || t is Mapping || t is Custom)
}

/// `a` and `b` have the same shape and the same names, whatever the
/// strings that hold those names.
pub open spec fn same_type(a: Type, b: Type) -> bool
    decreases a,
{
    match (a, b) {
        (Type::Enum { name: x }, Type::Enum { name: y }) => x@ == y@,
        (Type::Record { name: x }, Type::Record { name: y }) => x@ == y@,
        (Type::Object { name: x }, Type::Object { name: y }) => x@ == y@,
        (Type::CallbackInterface { name: x }, Type::CallbackInterface { name: y }) => x@ == y@,
        (Type::Optional { inner_type: x }, Type::Optional { inner_type: y }) => same_type(*x, *y),
        (Type::Sequence { inner_type: x }, Type::Sequence { inner_type: y }) => same_type(*x, *y),
        (
            Type::Mapping { key_type: xk, value_type: xv },
            Type::Mapping { key_type: yk, value_type: yv },
        ) => same_type(*xk, *yk) && same_type(*xv, *yv),
        (Type::Custom { name: x, builtin: xb }, Type::Custom { name: y, builtin: yb }) => x@ == y@
            && same_type(*xb, *yb),
        _ => is_leaf(a) && a == b,
    }
}

/// Type mapping and converter derivation depend on a type's structure
/// alone: structurally equal types get identical type names, converters,
/// and lift and lower expressions.
pub proof fn lemma_resolvers_structural(a: Type, b: Type, target: Seq<char>)
    requires
        same_type(a, b),
    ensures
        has_custom(a) == has_custom(b),
        type_name_of(a) == type_name_of(b),
        converter_of(a) == converter_of(b),
        lift_expr_of(target, a) == lift_expr_of(target, b),
        lower_expr_of(target, a) == lower_expr_of(target, b),
    decreases a,
{
    match (a, b) {
        (Type::Optional { inner_type: x }, Type::Optional { inner_type: y }) => {
            lemma_resolvers_structural(*x, *y, target);
        },
        (Type::Sequence { inner_type: x }, Type::Sequence { inner_type: y }) => {
            lemma_resolvers_structural(*x, *y, target);
        },
        (
            Type::Mapping { key_type: xk, value_type: xv },
            Type::Mapping { key_type: yk, value_type: yv },
        ) => {
            lemma_resolvers_structural(*xk, *yk, target);
            lemma_resolvers_structural(*xv, *yv, target);
        },
        _ => {},
    }
}

} // verus!
