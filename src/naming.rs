use heck::{ToKebabCase, ToLowerCamelCase, ToUpperCamelCase};
use vstd::prelude::*;

verus! {

/// What heck's `to_lower_camel_case` makes of an identifier.
pub uninterp spec fn lower_camel_of(s: Seq<char>) -> Seq<char>;

/// What heck's `to_upper_camel_case` (also reached as `to_pascal_case`)
/// makes of an identifier.
pub uninterp spec fn upper_camel_of(s: Seq<char>) -> Seq<char>;

/// What heck's `to_kebab_case` makes of an identifier.
pub uninterp spec fn kebab_of(s: Seq<char>) -> Seq<char>;

/// Relies on heck's `ToLowerCamelCase::to_lower_camel_case`: the result
/// depends on the characters of `s` alone, and an empty identifier gives an
/// empty one.
#[verifier::external_body]
pub(crate) fn lower_camel_case(s: &str) -> (r: String)
    ensures
        r@ == lower_camel_of(s@),
        s@.len() == 0 ==> r@.len() == 0,
{
    s.to_lower_camel_case()
}

/// Relies on heck's `ToUpperCamelCase::to_upper_camel_case`: the result
/// depends on the characters of `s` alone, and an empty identifier gives an
/// empty one. heck's `to_pascal_case` is defined as this same call.
#[verifier::external_body]
pub(crate) fn upper_camel_case(s: &str) -> (r: String)
    ensures
        r@ == upper_camel_of(s@),
        s@.len() == 0 ==> r@.len() == 0,
{
    s.to_upper_camel_case()
}

/// Relies on heck's `ToKebabCase::to_kebab_case`: the result depends on the
/// characters of `s` alone, and an empty identifier gives an empty one.
#[verifier::external_body]
fn kebab_case(s: &str) -> (r: String)
    ensures
        r@ == kebab_of(s@),
        s@.len() == 0 ==> r@.len() == 0,
{
    s.to_kebab_case()
}

/// Name of the host function generated for a native function.
pub open spec fn fn_name_of(raw: Seq<char>) -> Seq<char> {
    lower_camel_of(raw)
}

/// Name of a host variable, field or parameter.
pub open spec fn var_name_of(raw: Seq<char>) -> Seq<char> {
    lower_camel_of(raw)
}

/// Name of an argument handed to a native function call.
pub open spec fn argument_var_name_of(raw: Seq<char>) -> Seq<char> {
    var_name_of(raw) + "Arg"@
}

/// Name of the host class generated for an object.
pub open spec fn class_name_of(raw: Seq<char>) -> Seq<char> {
    upper_camel_of(raw)
}

/// Name of the host interface that an object's class implements.
pub open spec fn protocol_name_of(raw: Seq<char>) -> Seq<char> {
    class_name_of(raw) + "Interface"@
}

/// Name of the host declaration of a native struct.
pub open spec fn ffi_struct_name_of(raw: Seq<char>) -> Seq<char> {
    "Uniffi"@ + upper_camel_of(raw)
}

/// Name of the host declaration of a native callback.
pub open spec fn callback_name_of(raw: Seq<char>) -> Seq<char> {
    "UniffiCallback"@ + upper_camel_of(raw)
}

/// Name of the converter declared for a record, enum or object definition.
pub open spec fn definition_converter_name_of(raw: Seq<char>) -> Seq<char> {
    "FfiConverterType"@ + upper_camel_of(raw)
}

/// Name of the factory that wraps native handles of an object.
pub open spec fn object_factory_name_of(raw: Seq<char>) -> Seq<char> {
    "uniffiType"@ + class_name_of(raw) + "ObjectFactory"@
}

/// `prefix` followed by `s`, as a new string.
pub(crate) fn prefixed(prefix: &str, s: &str) -> (r: String)
    ensures
        r@ == prefix@ + s@,
{
    let mut r = String::from_str(prefix);
    r.append(s);
    r
}

/// `s` followed by `suffix`, as a new string.
pub(crate) fn suffixed(s: String, suffix: &str) -> (r: String)
    ensures
        r@ == s@ + suffix@,
{
    let mut r = s;
    r.append(suffix);
    r
}

pub fn typescript_fn_name(raw_name: &str) -> (r: String)
    ensures
        r@ == fn_name_of(raw_name@),
        raw_name@.len() == 0 ==> r@.len() == 0,
{
    lower_camel_case(raw_name)
}

pub fn typescript_var_name(raw_name: &str) -> (r: String)
    ensures
        r@ == var_name_of(raw_name@),
        raw_name@.len() == 0 ==> r@.len() == 0,
{
    lower_camel_case(raw_name)
}

/// The name of a given argument to an extern C ffi function call.
pub fn typescript_argument_var_name(raw_name: &str) -> (r: String)
    ensures
        r@ == argument_var_name_of(raw_name@),
{
    suffixed(typescript_var_name(raw_name), "Arg")
}

pub fn typescript_class_name(raw_name: &str) -> (r: String)
    ensures
        r@ == class_name_of(raw_name@),
        raw_name@.len() == 0 ==> r@.len() == 0,
{
    upper_camel_case(raw_name)
}

pub fn typescript_protocol_name(raw_name: &str) -> (r: String)
    ensures
        r@ == protocol_name_of(raw_name@),
{
    suffixed(typescript_class_name(raw_name), "Interface")
}

pub fn typescript_ffi_struct_name(raw_name: &str) -> (r: String)
    ensures
        r@ == ffi_struct_name_of(raw_name@),
{
    let n = upper_camel_case(raw_name);
    prefixed("Uniffi", n.as_str())
}

pub fn typescript_callback_name(raw_name: &str) -> (r: String)
    ensures
        r@ == callback_name_of(raw_name@),
{
    let n = upper_camel_case(raw_name);
    prefixed("UniffiCallback", n.as_str())
}

pub fn typescript_ffi_converter_struct_enum_object_name(struct_name: &str) -> (r: String)
    ensures
        r@ == definition_converter_name_of(struct_name@),
{
    let n = upper_camel_case(struct_name);
    prefixed("FfiConverterType", n.as_str())
}

pub fn typescript_ffi_object_factory_name(object_name: &str) -> (r: String)
    ensures
        r@ == object_factory_name_of(object_name@),
{
    let n = typescript_class_name(object_name);
    suffixed(prefixed("uniffiType", n.as_str()), "ObjectFactory")
}

/// Identifier in kebab case, used for file names.
pub fn kebab_name(raw_name: &str) -> (r: String)
    ensures
        r@ == kebab_of(raw_name@),
        raw_name@.len() == 0 ==> r@.len() == 0,
{
    kebab_case(raw_name)
}

} // verus!
