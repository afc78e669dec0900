use uniffi_bindgen_node::ffi::FfiFunction;
use uniffi_bindgen_node::generator::{
    generate_node_bindings, ImportExtension, IndexTsTemplate, NodeBindingGenerator, NodeTsTemplate,
};
use uniffi_bindgen_node::types::{
    Enumeration, Field, Function, GenerationError, Interface, Object, Record, Type,
};

fn interface(records: &[&str], enums: &[&str], objects: &[&str]) -> Interface {
    Interface {
        namespace: "geo_kit".to_string(),
        records: records
            .iter()
            .map(|n| Record { name: n.to_string(), fields: vec![], docstring: None })
            .collect(),
        enums: enums
            .iter()
            .map(|n| Enumeration { name: n.to_string(), variants: vec![], docstring: None })
            .collect(),
        objects: objects.iter().map(|n| Object { name: n.to_string(), docstring: None }).collect(),
        functions: vec![],
        ffi_definitions: vec![],
    }
}

#[test]
fn import_suffixes() {
    assert_eq!(ImportExtension::Plain.suffix(), "");
    assert_eq!(ImportExtension::Ts.suffix(), ".ts");
    assert_eq!(ImportExtension::Js.suffix(), ".js");
}

#[test]
fn index_auto_loads_the_library() {
    let t = IndexTsTemplate::new("geo-kit-node", "geo-kit-sys", ImportExtension::Js, false);
    assert_eq!(
        t.render(),
        "export * from \"./geo-kit-node.js\";\nimport { uniffiLoad } from \"./geo-kit-sys.js\";\n\nuniffiLoad();\n"
    );
}

#[test]
fn index_hands_loading_to_consumer() {
    let t = IndexTsTemplate::new("geo-kit-node", "geo-kit-sys", ImportExtension::Plain, true);
    assert_eq!(
        t.render(),
        "export * from \"./geo-kit-node\";\nexport { uniffiLoad } from \"./geo-kit-sys\";\n"
    );
}

#[test]
fn node_module_imports_runtime_then_declares() {
    let ci = interface(&["point"], &[], &[]);
    let out = NodeTsTemplate::new(&ci, "geo-kit-sys", ImportExtension::Ts).render().unwrap();
    assert!(out.starts_with("import {\n  FfiType,\n"));
    assert!(out.contains("} from \"./geo-kit-sys.ts\";\n\n\nexport type Point = {\n};\n\n"));
    assert!(out.ends_with("export const FfiConverterTypePoint = uniffiRecordConverter<Point>([\n]);\n\n"));
}

#[test]
fn cased_name_collision_is_reported() {
    let ci = interface(&["user_id"], &["color"], &["UserId"]);
    match generate_node_bindings(&ci, "s", "n", false, ImportExtension::Plain) {
        Err(GenerationError::NameCollision { first, second, declared }) => {
            assert_eq!(first, "user_id");
            assert_eq!(second, "UserId");
            assert_eq!(declared, "UserId");
        }
        other => panic!("collision not reported: {other:?}"),
    }
}

#[test]
fn distinct_names_generate() {
    let ci = interface(&["user"], &["color"], &["session"]);
    let b = generate_node_bindings(&ci, "s", "n", true, ImportExtension::Plain);
    assert!(b.is_ok());
}

#[test]
fn component_files_named_after_namespace() {
    let g = NodeBindingGenerator::new(false, ImportExtension::Js);
    let ci = interface(&[], &[], &[]);
    let files = match g.render_component(&ci) {
        Ok(files) => files,
        Err(_) => panic!("no collision expected"),
    };
    assert_eq!(files.len(), 2);
    assert_eq!(files[0].file_name, "geo-kit-node.ts");
    assert!(files[0].contents.contains("from \"./geo-kit-sys.js\";"));
    assert_eq!(files[1].file_name, "index.ts");
    assert_eq!(
        files[1].contents,
        "export * from \"./geo-kit-node.js\";\nimport { uniffiLoad } from \"./geo-kit-sys.js\";\n\nuniffiLoad();\n"
    );
}

fn function(name: &str) -> Function {
    Function {
        name: name.to_string(),
        arguments: vec![],
        return_type: None,
        is_async: false,
        docstring: None,
        ffi_func: FfiFunction {
            name: format!("uniffi_fn_{name}"),
            arguments: vec![],
            return_type: None,
            has_rust_call_status_arg: true,
            is_async: false,
        },
    }
}

fn collision(ci: &Interface) -> (String, String, String) {
    match generate_node_bindings(ci, "s", "n", false, ImportExtension::Plain) {
        Err(GenerationError::NameCollision { first, second, declared }) => (first, second, declared),
        other => panic!("collision not reported: {other:?}"),
    }
}

#[test]
fn function_wrapper_collision_is_reported() {
    let mut ci = interface(&[], &[], &[]);
    ci.functions = vec![function("foo_bar"), function("fooBar")];
    assert_eq!(
        collision(&ci),
        ("foo_bar".to_string(), "fooBar".to_string(), "fooBar".to_string())
    );
}

#[test]
fn object_interface_collision_is_reported() {
    let ci = interface(&["FooInterface"], &[], &["foo"]);
    assert_eq!(
        collision(&ci),
        ("FooInterface".to_string(), "foo".to_string(), "FooInterface".to_string())
    );
}

#[test]
fn custom_type_in_interface_is_reported() {
    let mut ci = interface(&[], &[], &[]);
    ci.records = vec![Record {
        name: "link".to_string(),
        fields: vec![Field {
            name: "target".to_string(),
            typ: Type::Custom { name: "url".to_string(), builtin: Box::new(Type::String) },
        }],
        docstring: None,
    }];
    match generate_node_bindings(&ci, "s", "n", false, ImportExtension::Plain) {
        Err(GenerationError::UnresolvedCustomType { name }) => assert_eq!(name, "url"),
        other => panic!("custom type not reported: {other:?}"),
    }
}
