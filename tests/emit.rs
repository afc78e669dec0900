use uniffi_bindgen_node::emit::{
    typescript_enum_decl, typescript_function_decl, typescript_object_decl, typescript_record_decl,
};
use uniffi_bindgen_node::ffi::FfiFunction;
use uniffi_bindgen_node::resolve::{typescript_ffi_converter_name, typescript_type_name};
use uniffi_bindgen_node::types::{
    Argument, Enumeration, Field, Function, GenerationError, Object, Record, Type, Variant,
};

fn point_record() -> Record {
    Record {
        name: "Point".to_string(),
        fields: vec![
            Field { name: "x".to_string(), typ: Type::Float64 },
            Field { name: "y".to_string(), typ: Type::Float64 },
        ],
        docstring: None,
    }
}

fn point() -> Type {
    Type::Record { name: "Point".to_string() }
}

fn ffi(name: &str, status: bool) -> FfiFunction {
    FfiFunction {
        name: name.to_string(),
        arguments: vec![],
        return_type: None,
        has_rust_call_status_arg: status,
        is_async: false,
    }
}

#[test]
fn distance_scenario() {
    assert_eq!(typescript_type_name(&point()).unwrap(), "Point");
    let f = Function {
        name: "distance".to_string(),
        arguments: vec![
            Argument { name: "a".to_string(), typ: point() },
            Argument { name: "b".to_string(), typ: point() },
        ],
        return_type: Some(Type::Float64),
        is_async: false,
        docstring: None,
        ffi_func: ffi("uniffi_geom_fn_func_distance", false),
    };
    assert_eq!(
        typescript_function_decl(&f).unwrap(),
        "export function distance(a: Point, b: Point): /*f64*/number {\n  const uniffiResult = uniffi_geom_fn_func_distance(UniffiRustBufferValue.allocateWithBytes(FfiConverterTypePoint.lower(a)).toStruct(), UniffiRustBufferValue.allocateWithBytes(FfiConverterTypePoint.lower(b)).toStruct());\n  return FfiConverterFloat64.lift(uniffiResult);\n}\n\n"
    );
}

#[test]
fn status_checked_right_after_sync_call() {
    let f = Function {
        name: "reset_all".to_string(),
        arguments: vec![],
        return_type: None,
        is_async: false,
        docstring: None,
        ffi_func: ffi("uniffi_app_fn_func_reset_all", true),
    };
    assert_eq!(
        typescript_function_decl(&f).unwrap(),
        "export function resetAll(): void {\n  const uniffiStatus = uniffiCreateCallStatus();\n  uniffi_app_fn_func_reset_all(uniffiStatus);\n  uniffiCheckCallStatus(uniffiStatus);\n}\n\n"
    );
}

#[test]
fn status_checked_right_after_async_call() {
    let f = Function {
        name: "fetch_count".to_string(),
        arguments: vec![Argument { name: "user_id".to_string(), typ: Type::UInt32 }],
        return_type: Some(Type::UInt64),
        is_async: true,
        docstring: Some("Counts items.".to_string()),
        ffi_func: ffi("uniffi_app_fn_func_fetch_count", true),
    };
    assert_eq!(
        typescript_function_decl(&f).unwrap(),
        "/**\n * Counts items.\n */\nexport async function fetchCount(userId: /*u32*/number): Promise</*u64*/bigint> {\n  const uniffiStatus = uniffiCreateCallStatus();\n  const uniffiResult = await uniffi_app_fn_func_fetch_count(FfiConverterUInt32.lower(userId), uniffiStatus);\n  uniffiCheckCallStatus(uniffiStatus);\n  return FfiConverterUInt64.lift(uniffiResult);\n}\n\n"
    );
}

#[test]
fn record_declares_type_and_converter() {
    assert_eq!(
        typescript_record_decl(&point_record()).unwrap(),
        "export type Point = {\n  x: /*f64*/number;\n  y: /*f64*/number;\n};\n\nexport const FfiConverterTypePoint = uniffiRecordConverter<Point>([\n  [\"x\", FfiConverterFloat64],\n  [\"y\", FfiConverterFloat64],\n]);\n\n"
    );
}

#[test]
fn record_converter_name_agrees_with_resolver() {
    let rec = Record { name: "bank_account".to_string(), fields: vec![], docstring: None };
    let conv = typescript_ffi_converter_name(&Type::Record { name: "bank_account".to_string() }).unwrap();
    let decl = typescript_record_decl(&rec).unwrap();
    assert!(decl.contains(&format!("export const {conv} = uniffiRecordConverter<BankAccount>")));
}

#[test]
fn enum_declares_tagged_union_and_converter() {
    let e = Enumeration {
        name: "shape".to_string(),
        variants: vec![
            Variant {
                name: "Circle".to_string(),
                fields: vec![Field { name: "radius".to_string(), typ: Type::Float64 }],
            },
            Variant { name: "Empty".to_string(), fields: vec![] },
        ],
        docstring: None,
    };
    assert_eq!(
        typescript_enum_decl(&e).unwrap(),
        "export type Shape =\n  | { tag: \"Circle\", radius: /*f64*/number }\n  | { tag: \"Empty\" }\n;\n\nexport const FfiConverterTypeShape = uniffiEnumConverter<Shape>([\n  [\"Circle\", [[\"radius\", FfiConverterFloat64], ]],\n  [\"Empty\", []],\n]);\n\n"
    );
    let conv = typescript_ffi_converter_name(&Type::Enum { name: "shape".to_string() }).unwrap();
    assert!(typescript_enum_decl(&e).unwrap().contains(&format!("export const {conv} = ")));
}

#[test]
fn object_declares_class_factory_and_converter() {
    let o = Object { name: "file_handle".to_string(), docstring: None };
    assert_eq!(
        typescript_object_decl(&o),
        "export interface FileHandleInterface {\n}\n\nexport class FileHandle implements FileHandleInterface {\n  constructor(readonly uniffiHandle: bigint) {}\n}\n\nexport const uniffiTypeFileHandleObjectFactory = uniffiObjectFactory(FileHandle);\n\nexport const FfiConverterTypeFileHandle = uniffiObjectConverter(uniffiTypeFileHandleObjectFactory);\n\n"
    );
    let conv = typescript_ffi_converter_name(&Type::Object { name: "file_handle".to_string() }).unwrap();
    assert!(typescript_object_decl(&o).contains(&format!("export const {conv} = ")));
}

#[test]
fn custom_field_is_reported_by_the_emitters() {
    let custom = || Type::Custom { name: "timestamp_ms".to_string(), builtin: Box::new(Type::Int64) };
    let rec = Record {
        name: "event".to_string(),
        fields: vec![Field { name: "at".to_string(), typ: custom() }],
        docstring: None,
    };
    match typescript_record_decl(&rec) {
        Err(GenerationError::UnresolvedCustomType { name }) => assert_eq!(name, "timestamp_ms"),
        other => panic!("expected an unresolved custom type, got {other:?}"),
    }
    let f = Function {
        name: "now".to_string(),
        arguments: vec![],
        return_type: Some(custom()),
        is_async: false,
        docstring: None,
        ffi_func: ffi("uniffi_app_fn_func_now", true),
    };
    match typescript_function_decl(&f) {
        Err(GenerationError::UnresolvedCustomType { name }) => assert_eq!(name, "timestamp_ms"),
        other => panic!("expected an unresolved custom type, got {other:?}"),
    }
}
