use uniffi_bindgen_node::resolve::{
    typescript_ffi_converter_lift_with, typescript_ffi_converter_lower_with,
    typescript_ffi_converter_name, typescript_type_name,
};
use uniffi_bindgen_node::types::{GenerationError, Type};

fn tn(t: &Type) -> String {
    typescript_type_name(t).unwrap()
}

fn conv(t: &Type) -> String {
    typescript_ffi_converter_name(t).unwrap()
}

fn lift(target: String, t: &Type) -> String {
    typescript_ffi_converter_lift_with(target, t).unwrap()
}

fn lower(target: String, t: &Type) -> String {
    typescript_ffi_converter_lower_with(target, t).unwrap()
}

fn boxed(t: Type) -> Box<Type> {
    Box::new(t)
}

#[test]
fn scalar_type_names_split_at_64_bits() {
    assert_eq!(tn(&Type::Int8), "/*i8*/number");
    assert_eq!(tn(&Type::UInt32), "/*u32*/number");
    assert_eq!(tn(&Type::Int64), "/*i64*/bigint");
    assert_eq!(tn(&Type::UInt64), "/*u64*/bigint");
    assert_eq!(tn(&Type::Float64), "/*f64*/number");
}

#[test]
fn simple_type_names() {
    assert_eq!(tn(&Type::Boolean), "boolean");
    assert_eq!(tn(&Type::String), "string");
    assert_eq!(tn(&Type::Bytes), "ArrayBuffer");
    assert_eq!(tn(&Type::Timestamp), "Date");
    assert_eq!(tn(&Type::Duration), "number /* in milliseconds */");
}

#[test]
fn named_type_names() {
    let name = || "user_profile".to_string();
    assert_eq!(tn(&Type::Record { name: name() }), "UserProfile");
    assert_eq!(tn(&Type::Enum { name: name() }), "UserProfile");
    assert_eq!(tn(&Type::Object { name: name() }), "UserProfile");
    assert_eq!(tn(&Type::CallbackInterface { name: name() }), "userProfile");
}

#[test]
fn composite_type_names() {
    let t = Type::Mapping {
        key_type: boxed(Type::String),
        value_type: boxed(Type::Optional { inner_type: boxed(Type::Sequence { inner_type: boxed(Type::Int64) }) }),
    };
    assert_eq!(tn(&t), "Map<string, Array</*i64*/bigint> | undefined>");
}

#[test]
fn singleton_converter_names() {
    assert_eq!(conv(&Type::Int32), "FfiConverterInt32");
    assert_eq!(conv(&Type::Boolean), "FfiConverterBool");
    assert_eq!(conv(&Type::Duration), "FfiConverterDuration");
    assert_eq!(
        conv(&Type::Object { name: "file_handle".to_string() }),
        "FfiConverterTypeFileHandle"
    );
    assert_eq!(
        conv(&Type::CallbackInterface { name: "event_sink".to_string() }),
        "eventSink"
    );
}

#[test]
fn optional_sequence_int32_converter_nests_inner_to_outer() {
    let t = Type::Optional { inner_type: boxed(Type::Sequence { inner_type: boxed(Type::Int32) }) };
    assert_eq!(
        conv(&t),
        "(new FfiConverterOptional((new FfiConverterArray(FfiConverterInt32))))"
    );
}

#[test]
fn map_converter() {
    let t = Type::Mapping { key_type: boxed(Type::String), value_type: boxed(Type::UInt8) };
    assert_eq!(
        conv(&t),
        "(new FfiConverterMap(FfiConverterString, FfiConverterUInt8))"
    );
}

#[test]
fn structurally_equal_types_resolve_identically() {
    let make = || Type::Sequence { inner_type: boxed(Type::Record { name: "point".to_string() }) };
    let (a, b) = (make(), make());
    assert_eq!(tn(&a), tn(&b));
    assert_eq!(conv(&a), conv(&b));
    assert_eq!(
        lift("x".to_string(), &a),
        lift("x".to_string(), &b)
    );
}

#[test]
fn buffer_kinds_lift_through_a_buffer() {
    assert_eq!(
        lift("ret".to_string(), &Type::String),
        "FfiConverterString.lift(new UniffiRustBufferValue(ret).consumeIntoUint8Array())"
    );
    assert_eq!(
        lift("ret".to_string(), &Type::Record { name: "point".to_string() }),
        "FfiConverterTypePoint.lift(new UniffiRustBufferValue(ret).consumeIntoUint8Array())"
    );
}

#[test]
fn optional_lifts_and_lowers_through_a_buffer() {
    let t = Type::Optional { inner_type: boxed(Type::Int32) };
    assert_eq!(
        lift("ret".to_string(), &t),
        "new FfiConverterOptional(FfiConverterInt32).lift(new UniffiRustBufferValue(ret).consumeIntoUint8Array())"
    );
    assert_eq!(
        lower("v".to_string(), &t),
        "UniffiRustBufferValue.allocateWithBytes(new FfiConverterOptional(FfiConverterInt32).lower(v)).toStruct()"
    );
}

#[test]
fn value_kinds_lift_and_lower_directly() {
    assert_eq!(lift("ret".to_string(), &Type::UInt64), "FfiConverterUInt64.lift(ret)");
    assert_eq!(
        lower("h".to_string(), &Type::Object { name: "file".to_string() }),
        "FfiConverterTypeFile.lower(h)"
    );
}

#[test]
fn buffer_kinds_lower_into_a_new_buffer() {
    let t = Type::Sequence { inner_type: boxed(Type::Boolean) };
    assert_eq!(
        lower("flags".to_string(), &t),
        "UniffiRustBufferValue.allocateWithBytes((new FfiConverterArray(FfiConverterBool)).lower(flags)).toStruct()"
    );
}

fn custom_name(r: Result<String, GenerationError>) -> String {
    match r {
        Err(GenerationError::UnresolvedCustomType { name }) => name,
        other => panic!("expected an unresolved custom type, got {other:?}"),
    }
}

#[test]
fn custom_type_is_reported_by_every_resolver() {
    let t = || Type::Custom { name: "my_url".to_string(), builtin: boxed(Type::String) };
    assert_eq!(custom_name(typescript_type_name(&t())), "my_url");
    assert_eq!(custom_name(typescript_ffi_converter_name(&t())), "my_url");
    assert_eq!(custom_name(typescript_ffi_converter_lift_with("v".to_string(), &t())), "my_url");
    assert_eq!(custom_name(typescript_ffi_converter_lower_with("v".to_string(), &t())), "my_url");
}

#[test]
fn nested_custom_type_is_reported() {
    let t = Type::Mapping {
        key_type: boxed(Type::String),
        value_type: boxed(Type::Optional {
            inner_type: boxed(Type::Custom { name: "uuid".to_string(), builtin: boxed(Type::String) }),
        }),
    };
    assert_eq!(custom_name(typescript_type_name(&t)), "uuid");
    assert_eq!(custom_name(typescript_ffi_converter_name(&t)), "uuid");
}
