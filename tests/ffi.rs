use uniffi_bindgen_node::ffi::{
    typescript_ffi_definitions, typescript_ffi_function_decl, typescript_ffi_struct_decl,
    typescript_ffi_type_name, FfiCallbackFunction, FfiDefinition, FfiField, FfiFunction,
    FfiStruct, FfiType,
};

fn field(name: &str, typ: FfiType) -> FfiField {
    FfiField { name: name.to_string(), typ }
}

#[test]
fn struct_fields_keep_order_and_width() {
    let s = FfiStruct {
        name: "packed_header".to_string(),
        fields: vec![field("a", FfiType::UInt8), field("b", FfiType::UInt32), field("c", FfiType::UInt8)],
    };
    assert_eq!(
        typescript_ffi_struct_decl(&s),
        "export const UniffiPackedHeader = defineStruct(\"packed_header\", [\n  [\"a\", FfiType.UInt8],\n  [\"b\", FfiType.UInt32],\n  [\"c\", FfiType.UInt8],\n]);\n"
    );
}

#[test]
fn abi_type_names() {
    assert_eq!(typescript_ffi_type_name(&FfiType::Int64), "FfiType.Int64");
    assert_eq!(typescript_ffi_type_name(&FfiType::RustBuffer), "FfiType.RustBuffer");
    assert_eq!(typescript_ffi_type_name(&FfiType::Handle), "FfiType.Handle");
    assert_eq!(typescript_ffi_type_name(&FfiType::Struct { name: "v_table".to_string() }), "UniffiVTable");
    assert_eq!(
        typescript_ffi_type_name(&FfiType::MutReference { inner: Box::new(FfiType::RustCallStatus) }),
        "FfiType.MutReference(FfiType.RustCallStatus)"
    );
    assert_eq!(
        typescript_ffi_type_name(&FfiType::Reference { inner: Box::new(FfiType::Callback { name: "free".to_string() }) }),
        "FfiType.Reference(UniffiCallbackFree)"
    );
}

#[test]
fn function_with_call_status_ends_with_status_argument() {
    let f = FfiFunction {
        name: "uniffi_geom_fn_scale".to_string(),
        arguments: vec![field("value", FfiType::RustBuffer), field("factor", FfiType::Float64)],
        return_type: Some(FfiType::RustBuffer),
        has_rust_call_status_arg: true,
        is_async: false,
    };
    assert_eq!(
        typescript_ffi_function_decl(&f),
        "export const uniffi_geom_fn_scale = defineFunction(\"uniffi_geom_fn_scale\", [\n  [\"value\", FfiType.RustBuffer],\n  [\"factor\", FfiType.Float64],\n  [\"uniffi_out_err\", FfiType.MutReference(FfiType.RustCallStatus)],\n], FfiType.RustBuffer);\n"
    );
}

#[test]
fn definitions_in_declared_order() {
    let defs = vec![
        FfiDefinition::CallbackFunction(FfiCallbackFunction {
            name: "continuation".to_string(),
            arguments: vec![field("data", FfiType::UInt64), field("poll", FfiType::Int8)],
            return_type: None,
            has_rust_call_status_arg: false,
        }),
        FfiDefinition::Function(FfiFunction {
            name: "ffi_poll".to_string(),
            arguments: vec![
                field("handle", FfiType::Handle),
                field("callback", FfiType::Callback { name: "continuation".to_string() }),
            ],
            return_type: None,
            has_rust_call_status_arg: false,
            is_async: false,
        }),
    ];
    assert_eq!(
        typescript_ffi_definitions(&defs),
        "export const UniffiCallbackContinuation = defineCallback(\"continuation\", [\n  [\"data\", FfiType.UInt64],\n  [\"poll\", FfiType.Int8],\n], FfiType.Void);\nexport const ffi_poll = defineFunction(\"ffi_poll\", [\n  [\"handle\", FfiType.Handle],\n  [\"callback\", UniffiCallbackContinuation],\n], FfiType.Void);\n"
    );
}

#[test]
fn callback_with_call_status() {
    let defs = vec![FfiDefinition::CallbackFunction(FfiCallbackFunction {
        name: "method0".to_string(),
        arguments: vec![],
        return_type: Some(FfiType::Int32),
        has_rust_call_status_arg: true,
    })];
    assert_eq!(
        typescript_ffi_definitions(&defs),
        "export const UniffiCallbackMethod0 = defineCallback(\"method0\", [\n  [\"rust_call_status\", FfiType.MutReference(FfiType.RustCallStatus)],\n], FfiType.Int32);\n"
    );
}

#[test]
fn no_definitions_emit_nothing() {
    assert_eq!(typescript_ffi_definitions(&vec![]), "");
}
