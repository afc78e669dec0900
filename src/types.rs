use crate::ffi::{FfiDefinition, FfiFunction};
use vstd::prelude::*;

verus! {

/// The shape of a value at the API boundary of the native library.
///
/// Named variants carry only the name of the definition they refer to.
pub enum Type {
    Int8,
    Int16,
    Int32,
    Int64,
    UInt8,
    UInt16,
    UInt32,
    UInt64,
    Float32,
    Float64,
    Boolean,
    String,
    Bytes,
    Timestamp,
    Duration,
    Enum { name: String },
    Record { name: String },
    Object { name: String },
    CallbackInterface { name: String },
    Optional { inner_type: Box<Type> },
    Sequence { inner_type: Box<Type> },
    Mapping { key_type: Box<Type>, value_type: Box<Type> },
    Custom { name: String, builtin: Box<Type> },
}

/// Why bindings could not be generated.
#[derive(Debug)]
pub enum GenerationError {
    /// Two definitions that would be declared under one identifier.
    NameCollision { first: String, second: String, declared: String },
    /// A custom type for which no renderer is registered.
    UnresolvedCustomType { name: String },
}

/// A named, typed field of a record or of an enum variant.
pub struct Field {
    pub name: String,
    pub typ: Type,
}

pub struct Record {
    pub name: String,
    pub fields: Vec<Field>,
    pub docstring: Option<String>,
}

pub struct Variant {
    pub name: String,
    pub fields: Vec<Field>,
}

pub struct Enumeration {
    pub name: String,
    pub variants: Vec<Variant>,
    pub docstring: Option<String>,
}

pub struct Object {
    pub name: String,
    pub docstring: Option<String>,
}

pub struct Argument {
    pub name: String,
    pub typ: Type,
}

/// A function of the library's public surface, with the native function
/// that implements it.
pub struct Function {
    pub name: String,
    pub arguments: Vec<Argument>,
    pub return_type: Option<Type>,
    pub is_async: bool,
    pub docstring: Option<String>,
    pub ffi_func: FfiFunction,
}

/// The interface description of one component of the native library.
pub struct Interface {
    pub namespace: String,
    pub records: Vec<Record>,
    pub enums: Vec<Enumeration>,
    pub objects: Vec<Object>,
    pub functions: Vec<Function>,
    pub ffi_definitions: Vec<FfiDefinition>,
}

} // verus!
