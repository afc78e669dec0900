use uniffi_bindgen_node::docs::typescript_docstring;
use uniffi_bindgen_node::naming::{
    kebab_name, typescript_argument_var_name, typescript_callback_name, typescript_class_name,
    typescript_ffi_converter_struct_enum_object_name, typescript_ffi_object_factory_name,
    typescript_ffi_struct_name, typescript_fn_name, typescript_protocol_name, typescript_var_name,
};

#[test]
fn fn_and_var_names_are_lower_camel() {
    assert_eq!(typescript_fn_name("get_user_name"), "getUserName");
    assert_eq!(typescript_var_name("max_retry_count"), "maxRetryCount");
    assert_eq!(typescript_var_name("HTTPServer"), "httpServer");
}

#[test]
fn argument_var_name_adds_suffix() {
    assert_eq!(typescript_argument_var_name("user_id"), "userIdArg");
}

#[test]
fn class_and_protocol_names_are_pascal() {
    assert_eq!(typescript_class_name("my_object"), "MyObject");
    assert_eq!(typescript_protocol_name("my_object"), "MyObjectInterface");
}

#[test]
fn ffi_struct_and_callback_names() {
    assert_eq!(typescript_ffi_struct_name("rust_buffer"), "UniffiRustBuffer");
    assert_eq!(
        typescript_callback_name("rust_future_continuation_callback"),
        "UniffiCallbackRustFutureContinuationCallback"
    );
}

#[test]
fn definition_converter_and_factory_names() {
    assert_eq!(
        typescript_ffi_converter_struct_enum_object_name("point_2d"),
        "FfiConverterTypePoint2d"
    );
    assert_eq!(
        typescript_ffi_object_factory_name("file_handle"),
        "uniffiTypeFileHandleObjectFactory"
    );
}

#[test]
fn kebab_name_for_files() {
    assert_eq!(kebab_name("my_crate"), "my-crate");
    assert_eq!(kebab_name("MyCrate"), "my-crate");
}

#[test]
fn empty_identifier_gives_empty_name() {
    assert_eq!(typescript_fn_name(""), "");
    assert_eq!(typescript_class_name(""), "");
}

#[test]
fn docstring_at_top_level() {
    assert_eq!(
        typescript_docstring("Adds two numbers.\nReturns the sum.", &0),
        "/**\n * Adds two numbers.\n * Returns the sum.\n */"
    );
}

#[test]
fn docstring_dedented_and_indented() {
    assert_eq!(
        typescript_docstring("    First line.\n    Second line.", &2),
        "  /**\n   * First line.\n   * Second line.\n   */"
    );
}
