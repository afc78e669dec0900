use crate::emit::{
    enum_decl_of, function_wrapper_of, object_decl_of, record_decl_of, typescript_enum_decl,
    typescript_function_decl, typescript_object_decl, typescript_record_decl,
};
use crate::ffi::{definition_decl_of, definition_decls_of, typescript_ffi_definitions, FfiDefinition};
use crate::emit::{
    fields_have_custom, fields_mention_custom, function_has_custom, function_mentions_custom,
    variants_have_custom, variants_mention_custom,
};
use crate::naming::{
    class_name_of, definition_converter_name_of, fn_name_of, kebab_name, kebab_of,
    object_factory_name_of, protocol_name_of, typescript_class_name,
    typescript_ffi_converter_struct_enum_object_name, typescript_ffi_object_factory_name,
    typescript_fn_name, typescript_protocol_name, upper_camel_case, upper_camel_of,
};
use crate::types::{Enumeration, Function, GenerationError, Interface, Object, Record};
use vstd::prelude::*;

verus! {

/// The extension written at the end of import paths in the generated files.
#[derive(Clone, Copy, Debug, PartialEq, Eq)]
pub enum ImportExtension {
    Plain,
    Ts,
    Js,
}

pub open spec fn import_suffix_of(e: ImportExtension) -> Seq<char> {
    match e {
        ImportExtension::Plain => ""@,
        ImportExtension::Ts => ".ts"@,
        ImportExtension::Js => ".js"@,
    }
}

impl ImportExtension {
    pub fn suffix(&self) -> (r: &'static str)
        ensures
            r@ == import_suffix_of(*self),
    {
        match self {
            ImportExtension::Plain => "",
            ImportExtension::Ts => ".ts",
            ImportExtension::Js => ".js",
        }
    }
}

/// The contents of the two generated files.
#[derive(Debug)]
pub struct Bindings {
    pub node_ts_file_contents: String,
    pub index_ts_file_contents: String,
}

/// What is emitted for each of `ds`, in order.
pub open spec fn record_decls_of(ds: Seq<Record>) -> Seq<char>
    decreases ds.len(),
{
    if ds.len() == 0 {
        Seq::empty()
    } else {
        record_decls_of(ds.drop_last()) + record_decl_of(ds.last())
    }
}

/// What is emitted for each of `ds`, in order.
pub open spec fn enum_decls_of(ds: Seq<Enumeration>) -> Seq<char>
    decreases ds.len(),
{
    if ds.len() == 0 {
        Seq::empty()
    } else {
        enum_decls_of(ds.drop_last()) + enum_decl_of(ds.last())
    }
}

/// What is emitted for each of `ds`, in order.
pub open spec fn object_decls_of(ds: Seq<Object>) -> Seq<char>
    decreases ds.len(),
{
    if ds.len() == 0 {
        Seq::empty()
    } else {
        object_decls_of(ds.drop_last()) + object_decl_of(ds.last())
    }
}

/// What is emitted for each of `ds`, in order.
pub open spec fn function_decls_of(ds: Seq<Function>) -> Seq<char>
    decreases ds.len(),
{
    if ds.len() == 0 {
        Seq::empty()
    } else {
        function_decls_of(ds.drop_last()) + function_wrapper_of(ds.last())
    }
}

/// What the generated module imports from the runtime module.
pub open spec fn runtime_imports() -> Seq<char> {
    "import {\n  FfiType,\n  defineStruct,\n  defineFunction,\n  defineCallback,\n  UniffiRustBufferValue,\n  uniffiCreateCallStatus,\n  uniffiCheckCallStatus,\n  uniffiRecordConverter,\n  uniffiEnumConverter,\n  uniffiObjectFactory,\n  uniffiObjectConverter,\n  FfiConverterOptional,\n  FfiConverterArray,\n  FfiConverterMap,\n  FfiConverterInt8,\n  FfiConverterInt16,\n  FfiConverterInt32,\n  FfiConverterInt64,\n  FfiConverterUInt8,\n  FfiConverterUInt16,\n  FfiConverterUInt32,\n  FfiConverterUInt64,\n  FfiConverterFloat32,\n  FfiConverterFloat64,\n  FfiConverterBool,\n  FfiConverterString,\n  FfiConverterBytes,\n  FfiConverterTimestamp,\n  FfiConverterDuration,\n} from \"./"@
}

/// The generated module: imports from the runtime module, the native
/// declarations, then the records, enums, objects and functions.
pub open spec fn node_ts_of(ci: Interface, sys: Seq<char>, ext: ImportExtension) -> Seq<char> {
    runtime_imports() + sys + import_suffix_of(ext) + "\";\n\n"@ + definition_decls_of(
        ci.ffi_definitions@,
    ) + "\n"@ + record_decls_of(ci.records@) + enum_decls_of(ci.enums@) + object_decls_of(
        ci.objects@,
    ) + function_decls_of(ci.functions@)
}

/// The entry module: it re-exports the generated module, and either loads
/// the native library itself or hands its loader to the consumer.
pub open spec fn index_ts_of(
    node: Seq<char>,
    sys: Seq<char>,
    ext: ImportExtension,
    disable_auto_loading: bool,
) -> Seq<char> {
    "export * from \"./"@ + node + import_suffix_of(ext) + "\";\n"@ + if disable_auto_loading {
        "export { uniffiLoad } from \"./"@ + sys + import_suffix_of(ext) + "\";\n"@
    } else {
        "import { uniffiLoad } from \"./"@ + sys + import_suffix_of(ext) + "\";\n\nuniffiLoad();\n"@
    }
}

/// The identifiers that the generated module declares for one kind of
/// definition of `ci`, in the order of the definitions: record types, record
/// converters, enum types, enum converters, object classes, object
/// interfaces, object factories, object converters, function wrappers.
pub open spec fn identifier_block(ci: Interface, b: int) -> Seq<Seq<char>> {
    if b == 0 {
        Seq::new(ci.records@.len(), |k: int| upper_camel_of(ci.records@[k].name@))
    } else if b == 1 {
        Seq::new(ci.records@.len(), |k: int| definition_converter_name_of(ci.records@[k].name@))
    } else if b == 2 {
        Seq::new(ci.enums@.len(), |k: int| upper_camel_of(ci.enums@[k].name@))
    } else if b == 3 {
        Seq::new(ci.enums@.len(), |k: int| definition_converter_name_of(ci.enums@[k].name@))
    } else if b == 4 {
        Seq::new(ci.objects@.len(), |k: int| class_name_of(ci.objects@[k].name@))
    } else if b == 5 {
        Seq::new(ci.objects@.len(), |k: int| protocol_name_of(ci.objects@[k].name@))
    } else if b == 6 {
        Seq::new(ci.objects@.len(), |k: int| object_factory_name_of(ci.objects@[k].name@))
    } else if b == 7 {
        Seq::new(ci.objects@.len(), |k: int| definition_converter_name_of(ci.objects@[k].name@))
    } else {
        Seq::new(ci.functions@.len(), |k: int| fn_name_of(ci.functions@[k].name@))
    }
}

/// The definition name that each of `identifier_block(ci, b)` comes from.
pub open spec fn name_block(ci: Interface, b: int) -> Seq<Seq<char>> {
    if b == 0 {
        Seq::new(ci.records@.len(), |k: int| ci.records@[k].name@)
    } else if b == 1 {
        Seq::new(ci.records@.len(), |k: int| ci.records@[k].name@)
    } else if b == 2 {
        Seq::new(ci.enums@.len(), |k: int| ci.enums@[k].name@)
    } else if b == 3 {
        Seq::new(ci.enums@.len(), |k: int| ci.enums@[k].name@)
    } else if b == 4 {
        Seq::new(ci.objects@.len(), |k: int| ci.objects@[k].name@)
    } else if b == 5 {
        Seq::new(ci.objects@.len(), |k: int| ci.objects@[k].name@)
    } else if b == 6 {
        Seq::new(ci.objects@.len(), |k: int| ci.objects@[k].name@)
    } else if b == 7 {
        Seq::new(ci.objects@.len(), |k: int| ci.objects@[k].name@)
    } else {
        Seq::new(ci.functions@.len(), |k: int| ci.functions@[k].name@)
    }
}

/// The first `b` identifier blocks, one after the other.
pub open spec fn identifiers_upto(ci: Interface, b: nat) -> Seq<Seq<char>>
    decreases b,
{
    if b == 0 {
        Seq::empty()
    } else {
        identifiers_upto(ci, (b - 1) as nat) + identifier_block(ci, b - 1)
    }
}

/// The first `b` name blocks, one after the other.
pub open spec fn names_upto(ci: Interface, b: nat) -> Seq<Seq<char>>
    decreases b,
{
    if b == 0 {
        Seq::empty()
    } else {
        names_upto(ci, (b - 1) as nat) + name_block(ci, b - 1)
    }
}

/// Every identifier that the generated module declares for the
/// definitions of `ci`: the type and converter of each record and enum; the
/// class, interface, factory and converter of each object; the wrapper of
/// each function.
pub open spec fn declared_identifiers(ci: Interface) -> Seq<Seq<char>> {
    identifiers_upto(ci, 9)
}

/// The definition name that each of `declared_identifiers(ci)` comes from.
pub open spec fn declaring_names(ci: Interface) -> Seq<Seq<char>> {
    names_upto(ci, 9)
}

/// The `i`-th and `j`-th identifiers are one identifier.
pub open spec fn collide(ids: Seq<Seq<char>>, i: int, j: int) -> bool {
    0 <= i < j < ids.len() && ids[i] == ids[j]
}

pub open spec fn has_collision(ids: Seq<Seq<char>>) -> bool {
    exists|i: int, j: int| #[trigger] collide(ids, i, j)
}

pub open spec fn records_have_custom(rs: Seq<Record>) -> bool {
    exists|k: int| 0 <= k < rs.len() && fields_have_custom(#[trigger] rs[k].fields@)
}

pub open spec fn records_mention_custom(rs: Seq<Record>, n: Seq<char>) -> bool {
    exists|k: int| 0 <= k < rs.len() && fields_mention_custom(#[trigger] rs[k].fields@, n)
}

pub open spec fn enums_have_custom(es: Seq<Enumeration>) -> bool {
    exists|k: int| 0 <= k < es.len() && variants_have_custom(#[trigger] es[k].variants@)
}

pub open spec fn enums_mention_custom(es: Seq<Enumeration>, n: Seq<char>) -> bool {
    exists|k: int| 0 <= k < es.len() && variants_mention_custom(#[trigger] es[k].variants@, n)
}

pub open spec fn functions_have_custom(fs: Seq<Function>) -> bool {
    exists|k: int| 0 <= k < fs.len() && function_has_custom(#[trigger] fs[k])
}

pub open spec fn functions_mention_custom(fs: Seq<Function>, n: Seq<char>) -> bool {
    exists|k: int| 0 <= k < fs.len() && function_mentions_custom(#[trigger] fs[k], n)
}

/// A record field, an enum variant field, or a function argument or return
/// type of `ci` holds a custom type.
pub open spec fn interface_has_custom(ci: Interface) -> bool {
    records_have_custom(ci.records@) || enums_have_custom(ci.enums@) || functions_have_custom(
        ci.functions@,
    )
}

/// As `interface_has_custom`, for a custom type named `n`.
pub open spec fn interface_mentions_custom(ci: Interface, n: Seq<char>) -> bool {
    records_mention_custom(ci.records@, n) || enums_mention_custom(ci.enums@, n)
        || functions_mention_custom(ci.functions@, n)
}


fn push_record_decls(out: &mut String, ds: &Vec<Record>) -> (r: Result<(), GenerationError>)
    ensures
        r is Ok <==> !records_have_custom(ds@),
        r is Ok ==> final(out)@ == old(out)@ + record_decls_of(ds@),
        r matches Err(e) ==> e matches GenerationError::UnresolvedCustomType { name }
            && records_mention_custom(ds@, name@),
{
    let ghost start = out@;
    let n = ds.len();
    for i in 0..n
        invariant
            n == ds@.len(),
            out@ == start + record_decls_of(ds@.take(i as int)),
            forall|m: int| 0 <= m < i ==> !fields_have_custom(#[trigger] ds@[m].fields@),
    {
        let d = typescript_record_decl(&ds[i])?;
        out.append(d.as_str());
        assert(ds@.take(i + 1).drop_last() =~= ds@.take(i as int));
    }
    assert(ds@.take(n as int) =~= ds@);
    Ok(())
}


fn push_enum_decls(out: &mut String, ds: &Vec<Enumeration>) -> (r: Result<(), GenerationError>)
    ensures
        r is Ok <==> !enums_have_custom(ds@),
        r is Ok ==> final(out)@ == old(out)@ + enum_decls_of(ds@),
        r matches Err(e) ==> e matches GenerationError::UnresolvedCustomType { name }
            && enums_mention_custom(ds@, name@),
{
    let ghost start = out@;
    let n = ds.len();
    for i in 0..n
        invariant
            n == ds@.len(),
            out@ == start + enum_decls_of(ds@.take(i as int)),
            forall|m: int| 0 <= m < i ==> !variants_have_custom(#[trigger] ds@[m].variants@),
    {
        let d = typescript_enum_decl(&ds[i])?;
        out.append(d.as_str());
        assert(ds@.take(i + 1).drop_last() =~= ds@.take(i as int));
    }
    assert(ds@.take(n as int) =~= ds@);
    Ok(())
}


fn push_object_decls(out: &mut String, ds: &Vec<Object>)
    ensures
        final(out)@ == old(out)@ + object_decls_of(ds@),
{
    let ghost start = out@;
    let n = ds.len();
    for i in 0..n
        invariant
            n == ds@.len(),
            out@ == start + object_decls_of(ds@.take(i as int)),
    {
        let d = typescript_object_decl(&ds[i]);
        out.append(d.as_str());
        assert(ds@.take(i + 1).drop_last() =~= ds@.take(i as int));
    }
    assert(ds@.take(n as int) =~= ds@);
}

fn push_function_decls(out: &mut String, ds: &Vec<Function>) -> (r: Result<(), GenerationError>)
    ensures
        r is Ok <==> !functions_have_custom(ds@),
        r is Ok ==> final(out)@ == old(out)@ + function_decls_of(ds@),
        r matches Err(e) ==> e matches GenerationError::UnresolvedCustomType { name }
            && functions_mention_custom(ds@, name@),
{
    let ghost start = out@;
    let n = ds.len();
    for i in 0..n
        invariant
            n == ds@.len(),
            out@ == start + function_decls_of(ds@.take(i as int)),
            forall|m: int| 0 <= m < i ==> !function_has_custom(#[trigger] ds@[m]),
    {
        let d = typescript_function_decl(&ds[i])?;
        out.append(d.as_str());
        assert(ds@.take(i + 1).drop_last() =~= ds@.take(i as int));
    }
    assert(ds@.take(n as int) =~= ds@);
    Ok(())
}


/// The generated module, before rendering.
pub struct NodeTsTemplate<'ci> {
    pub ci: &'ci Interface,
    pub sys_ts_main_file_name: String,
    pub out_import_extension: ImportExtension,
}

impl<'ci> NodeTsTemplate<'ci> {
    pub fn new(
        ci: &'ci Interface,
        sys_ts_main_file_name: &str,
        out_import_extension: ImportExtension,
    ) -> (r: Self)
        ensures
            r.ci == ci,
            r.sys_ts_main_file_name@ == sys_ts_main_file_name@,
            r.out_import_extension == out_import_extension,
    {
        NodeTsTemplate {
            ci,
            sys_ts_main_file_name: String::from_str(sys_ts_main_file_name),
            out_import_extension,
        }
    }

    pub fn render(&self) -> (r: Result<String, GenerationError>)
        ensures
            r is Ok <==> !interface_has_custom(*self.ci),
            r matches Ok(s) ==> s@ == node_ts_of(
                *self.ci,
                self.sys_ts_main_file_name@,
                self.out_import_extension,
            ),
            r matches Err(e) ==> e matches GenerationError::UnresolvedCustomType { name }
                && interface_mentions_custom(*self.ci, name@),
    {
        let ci = self.ci;
        let mut r = String::from_str(
            "import {\n  FfiType,\n  defineStruct,\n  defineFunction,\n  defineCallback,\n  UniffiRustBufferValue,\n  uniffiCreateCallStatus,\n  uniffiCheckCallStatus,\n  uniffiRecordConverter,\n  uniffiEnumConverter,\n  uniffiObjectFactory,\n  uniffiObjectConverter,\n  FfiConverterOptional,\n  FfiConverterArray,\n  FfiConverterMap,\n  FfiConverterInt8,\n  FfiConverterInt16,\n  FfiConverterInt32,\n  FfiConverterInt64,\n  FfiConverterUInt8,\n  FfiConverterUInt16,\n  FfiConverterUInt32,\n  FfiConverterUInt64,\n  FfiConverterFloat32,\n  FfiConverterFloat64,\n  FfiConverterBool,\n  FfiConverterString,\n  FfiConverterBytes,\n  FfiConverterTimestamp,\n  FfiConverterDuration,\n} from \"./",
        );
        r.append(self.sys_ts_main_file_name.as_str());
        r.append(self.out_import_extension.suffix());
        r.append("\";\n\n");
        let decls = typescript_ffi_definitions(&ci.ffi_definitions);
        r.append(decls.as_str());
        r.append("\n");
        push_record_decls(&mut r, &ci.records)?;
        push_enum_decls(&mut r, &ci.enums)?;
        push_object_decls(&mut r, &ci.objects);
        push_function_decls(&mut r, &ci.functions)?;
        Ok(r)
    }
}

/// The entry module, before rendering.
pub struct IndexTsTemplate {
    pub node_ts_main_file_name: String,
    pub sys_ts_main_file_name: String,
    pub out_import_extension: ImportExtension,
    pub out_disable_auto_loading_lib: bool,
}

impl IndexTsTemplate {
    pub fn new(
        node_ts_main_file_name: &str,
        sys_ts_main_file_name: &str,
        out_import_extension: ImportExtension,
        out_disable_auto_loading_lib: bool,
    ) -> (r: Self)
        ensures
            r.node_ts_main_file_name@ == node_ts_main_file_name@,
            r.sys_ts_main_file_name@ == sys_ts_main_file_name@,
            r.out_import_extension == out_import_extension,
            r.out_disable_auto_loading_lib == out_disable_auto_loading_lib,
    {
        IndexTsTemplate {
            node_ts_main_file_name: String::from_str(node_ts_main_file_name),
            sys_ts_main_file_name: String::from_str(sys_ts_main_file_name),
            out_import_extension,
            out_disable_auto_loading_lib,
        }
    }

    pub fn render(&self) -> (r: String)
        ensures
            r@ == index_ts_of(
                self.node_ts_main_file_name@,
                self.sys_ts_main_file_name@,
                self.out_import_extension,
                self.out_disable_auto_loading_lib,
            ),
    {
        let suffix = self.out_import_extension.suffix();
        let mut r = String::from_str("export * from \"./");
        r.append(self.node_ts_main_file_name.as_str());
        r.append(suffix);
        r.append("\";\n");
        if self.out_disable_auto_loading_lib {
            r.append("export { uniffiLoad } from \"./");
            r.append(self.sys_ts_main_file_name.as_str());
            r.append(suffix);
            r.append("\";\n");
        } else {
            r.append("import { uniffiLoad } from \"./");
            r.append(self.sys_ts_main_file_name.as_str());
            r.append(suffix);
            r.append("\";\n\nuniffiLoad();\n");
        }
        r
    }
}

proof fn lemma_names_align(ci: Interface, b: nat)
    ensures
        names_upto(ci, b).len() == identifiers_upto(ci, b).len(),
    decreases b,
{
    if b > 0 {
        lemma_names_align(ci, (b - 1) as nat);
    }
}

/// `decl` holds the views of `ids` and `from` those of `names`, in order.
pub open spec fn holds(decl: Seq<String>, from: Seq<String>, ids: Seq<Seq<char>>, names: Seq<
    Seq<char>,
>) -> bool {
    &&& decl.len() == ids.len()
    &&& from.len() == names.len()
    &&& forall|k: int| 0 <= k < ids.len() ==> #[trigger] decl[k]@ == ids[k]
    &&& forall|k: int| 0 <= k < names.len() ==> #[trigger] from[k]@ == names[k]
}

/// `declared_identifiers(ci)` and `declaring_names(ci)`, computed.
fn identifiers(ci: &Interface) -> (r: (Vec<String>, Vec<String>))
    ensures
        holds(r.0@, r.1@, declared_identifiers(*ci), declaring_names(*ci)),
{
    let mut decl: Vec<String> = Vec::new();
    let mut from: Vec<String> = Vec::new();
    let ghost ids = identifiers_upto(*ci, 0);
    let ghost names = names_upto(*ci, 0);
    let ghost blk = identifier_block(*ci, 0);
    let ghost nblk = name_block(*ci, 0);
    for i in 0..ci.records.len()
        invariant
            ids == identifiers_upto(*ci, 0),
            names == names_upto(*ci, 0),
            blk == identifier_block(*ci, 0),
            nblk == name_block(*ci, 0),
            holds(decl@, from@, ids + blk.take(i as int), names + nblk.take(i as int)),
    {
        let name = &ci.records[i].name;
        decl.push(upper_camel_case(name.as_str()));
        from.push(name.clone());
        assert(ids + blk.take(i + 1) =~= (ids + blk.take(i as int)).push(blk[i as int]));
        assert(names + nblk.take(i + 1) =~= (names + nblk.take(i as int)).push(nblk[i as int]));
    }
    assert(blk.take(ci.records@.len() as int) =~= blk);
    assert(nblk.take(ci.records@.len() as int) =~= nblk);
    assert(identifiers_upto(*ci, 1) == ids + blk);
    assert(names_upto(*ci, 1) == names + nblk);
    let ghost ids = identifiers_upto(*ci, 1);
    let ghost names = names_upto(*ci, 1);
    let ghost blk = identifier_block(*ci, 1);
    let ghost nblk = name_block(*ci, 1);
    for i in 0..ci.records.len()
        invariant
            ids == identifiers_upto(*ci, 1),
            names == names_upto(*ci, 1),
            blk == identifier_block(*ci, 1),
            nblk == name_block(*ci, 1),
            holds(decl@, from@, ids + blk.take(i as int), names + nblk.take(i as int)),
    {
        let name = &ci.records[i].name;
        decl.push(typescript_ffi_converter_struct_enum_object_name(name.as_str()));
        from.push(name.clone());
        assert(ids + blk.take(i + 1) =~= (ids + blk.take(i as int)).push(blk[i as int]));
        assert(names + nblk.take(i + 1) =~= (names + nblk.take(i as int)).push(nblk[i as int]));
    }
    assert(blk.take(ci.records@.len() as int) =~= blk);
    assert(nblk.take(ci.records@.len() as int) =~= nblk);
    assert(identifiers_upto(*ci, 2) == ids + blk);
    assert(names_upto(*ci, 2) == names + nblk);
    let ghost ids = identifiers_upto(*ci, 2);
    let ghost names = names_upto(*ci, 2);
    let ghost blk = identifier_block(*ci, 2);
    let ghost nblk = name_block(*ci, 2);
    for i in 0..ci.enums.len()
        invariant
            ids == identifiers_upto(*ci, 2),
            names == names_upto(*ci, 2),
            blk == identifier_block(*ci, 2),
            nblk == name_block(*ci, 2),
            holds(decl@, from@, ids + blk.take(i as int), names + nblk.take(i as int)),
    {
        let name = &ci.enums[i].name;
        decl.push(upper_camel_case(name.as_str()));
        from.push(name.clone());
        assert(ids + blk.take(i + 1) =~= (ids + blk.take(i as int)).push(blk[i as int]));
        assert(names + nblk.take(i + 1) =~= (names + nblk.take(i as int)).push(nblk[i as int]));
    }
    assert(blk.take(ci.enums@.len() as int) =~= blk);
    assert(nblk.take(ci.enums@.len() as int) =~= nblk);
    assert(identifiers_upto(*ci, 3) == ids + blk);
    assert(names_upto(*ci, 3) == names + nblk);
    let ghost ids = identifiers_upto(*ci, 3);
    let ghost names = names_upto(*ci, 3);
    let ghost blk = identifier_block(*ci, 3);
    let ghost nblk = name_block(*ci, 3);
    for i in 0..ci.enums.len()
        invariant
            ids == identifiers_upto(*ci, 3),
            names == names_upto(*ci, 3),
            blk == identifier_block(*ci, 3),
            nblk == name_block(*ci, 3),
            holds(decl@, from@, ids + blk.take(i as int), names + nblk.take(i as int)),
    {
        let name = &ci.enums[i].name;
        decl.push(typescript_ffi_converter_struct_enum_object_name(name.as_str()));
        from.push(name.clone());
        assert(ids + blk.take(i + 1) =~= (ids + blk.take(i as int)).push(blk[i as int]));
        assert(names + nblk.take(i + 1) =~= (names + nblk.take(i as int)).push(nblk[i as int]));
    }
    assert(blk.take(ci.enums@.len() as int) =~= blk);
    assert(nblk.take(ci.enums@.len() as int) =~= nblk);
    assert(identifiers_upto(*ci, 4) == ids + blk);
    assert(names_upto(*ci, 4) == names + nblk);
    let ghost ids = identifiers_upto(*ci, 4);
    let ghost names = names_upto(*ci, 4);
    let ghost blk = identifier_block(*ci, 4);
    let ghost nblk = name_block(*ci, 4);
    for i in 0..ci.objects.len()
        invariant
            ids == identifiers_upto(*ci, 4),
            names == names_upto(*ci, 4),
            blk == identifier_block(*ci, 4),
            nblk == name_block(*ci, 4),
            holds(decl@, from@, ids + blk.take(i as int), names + nblk.take(i as int)),
    {
        let name = &ci.objects[i].name;
        decl.push(typescript_class_name(name.as_str()));
        from.push(name.clone());
        assert(ids + blk.take(i + 1) =~= (ids + blk.take(i as int)).push(blk[i as int]));
        assert(names + nblk.take(i + 1) =~= (names + nblk.take(i as int)).push(nblk[i as int]));
    }
    assert(blk.take(ci.objects@.len() as int) =~= blk);
    assert(nblk.take(ci.objects@.len() as int) =~= nblk);
    assert(identifiers_upto(*ci, 5) == ids + blk);
    assert(names_upto(*ci, 5) == names + nblk);
    let ghost ids = identifiers_upto(*ci, 5);
    let ghost names = names_upto(*ci, 5);
    let ghost blk = identifier_block(*ci, 5);
    let ghost nblk = name_block(*ci, 5);
    for i in 0..ci.objects.len()
        invariant
            ids == identifiers_upto(*ci, 5),
            names == names_upto(*ci, 5),
            blk == identifier_block(*ci, 5),
            nblk == name_block(*ci, 5),
            holds(decl@, from@, ids + blk.take(i as int), names + nblk.take(i as int)),
    {
        let name = &ci.objects[i].name;
        decl.push(typescript_protocol_name(name.as_str()));
        from.push(name.clone());
        assert(ids + blk.take(i + 1) =~= (ids + blk.take(i as int)).push(blk[i as int]));
        assert(names + nblk.take(i + 1) =~= (names + nblk.take(i as int)).push(nblk[i as int]));
    }
    assert(blk.take(ci.objects@.len() as int) =~= blk);
    assert(nblk.take(ci.objects@.len() as int) =~= nblk);
    assert(identifiers_upto(*ci, 6) == ids + blk);
    assert(names_upto(*ci, 6) == names + nblk);
    let ghost ids = identifiers_upto(*ci, 6);
    let ghost names = names_upto(*ci, 6);
    let ghost blk = identifier_block(*ci, 6);
    let ghost nblk = name_block(*ci, 6);
    for i in 0..ci.objects.len()
        invariant
            ids == identifiers_upto(*ci, 6),
            names == names_upto(*ci, 6),
            blk == identifier_block(*ci, 6),
            nblk == name_block(*ci, 6),
            holds(decl@, from@, ids + blk.take(i as int), names + nblk.take(i as int)),
    {
        let name = &ci.objects[i].name;
        decl.push(typescript_ffi_object_factory_name(name.as_str()));
        from.push(name.clone());
        assert(ids + blk.take(i + 1) =~= (ids + blk.take(i as int)).push(blk[i as int]));
        assert(names + nblk.take(i + 1) =~= (names + nblk.take(i as int)).push(nblk[i as int]));
    }
    assert(blk.take(ci.objects@.len() as int) =~= blk);
    assert(nblk.take(ci.objects@.len() as int) =~= nblk);
    assert(identifiers_upto(*ci, 7) == ids + blk);
    assert(names_upto(*ci, 7) == names + nblk);
    let ghost ids = identifiers_upto(*ci, 7);
    let ghost names = names_upto(*ci, 7);
    let ghost blk = identifier_block(*ci, 7);
    let ghost nblk = name_block(*ci, 7);
    for i in 0..ci.objects.len()
        invariant
            ids == identifiers_upto(*ci, 7),
            names == names_upto(*ci, 7),
            blk == identifier_block(*ci, 7),
            nblk == name_block(*ci, 7),
            holds(decl@, from@, ids + blk.take(i as int), names + nblk.take(i as int)),
    {
        let name = &ci.objects[i].name;
        decl.push(typescript_ffi_converter_struct_enum_object_name(name.as_str()));
        from.push(name.clone());
        assert(ids + blk.take(i + 1) =~= (ids + blk.take(i as int)).push(blk[i as int]));
        assert(names + nblk.take(i + 1) =~= (names + nblk.take(i as int)).push(nblk[i as int]));
    }
    assert(blk.take(ci.objects@.len() as int) =~= blk);
    assert(nblk.take(ci.objects@.len() as int) =~= nblk);
    assert(identifiers_upto(*ci, 8) == ids + blk);
    assert(names_upto(*ci, 8) == names + nblk);
    let ghost ids = identifiers_upto(*ci, 8);
    let ghost names = names_upto(*ci, 8);
    let ghost blk = identifier_block(*ci, 8);
    let ghost nblk = name_block(*ci, 8);
    for i in 0..ci.functions.len()
        invariant
            ids == identifiers_upto(*ci, 8),
            names == names_upto(*ci, 8),
            blk == identifier_block(*ci, 8),
            nblk == name_block(*ci, 8),
            holds(decl@, from@, ids + blk.take(i as int), names + nblk.take(i as int)),
    {
        let name = &ci.functions[i].name;
        decl.push(typescript_fn_name(name.as_str()));
        from.push(name.clone());
        assert(ids + blk.take(i + 1) =~= (ids + blk.take(i as int)).push(blk[i as int]));
        assert(names + nblk.take(i + 1) =~= (names + nblk.take(i as int)).push(nblk[i as int]));
    }
    assert(blk.take(ci.functions@.len() as int) =~= blk);
    assert(nblk.take(ci.functions@.len() as int) =~= nblk);
    assert(identifiers_upto(*ci, 9) == ids + blk);
    assert(names_upto(*ci, 9) == names + nblk);
    (decl, from)
}

/// The first pair of equal identifiers, by position of the later one.
fn find_collision(ids: &Vec<String>) -> (r: Option<(usize, usize)>)
    ensures
        r is None ==> !has_collision(ids@.map_values(|s: String| s@)),
        r matches Some((i, j)) ==> collide(ids@.map_values(|s: String| s@), i as int, j as int),
{
    let ghost views = ids@.map_values(|s: String| s@);
    let n = ids.len();
    for j in 0..n
        invariant
            n == ids@.len(),
            views == ids@.map_values(|s: String| s@),
            forall|a: int, b: int| 0 <= a < b < j ==> !#[trigger] collide(views, a, b),
    {
        for i in 0..j
            invariant
                n == ids@.len(),
                j < n,
                views == ids@.map_values(|s: String| s@),
                forall|a: int, b: int| 0 <= a < b < j ==> !#[trigger] collide(views, a, b),
                forall|a: int| 0 <= a < i ==> !#[trigger] collide(views, a, j as int),
        {
            if ids[i] == ids[j] {
                return Some((i, j));
            }
        }
    }
    None
}

/// Renders both files for `ci`, unless two of its definitions would be
/// declared under one identifier or it holds a custom type, which has no
/// mapping.
pub fn generate_node_bindings(
    ci: &Interface,
    sys_ts_main_file_name: &str,
    node_ts_main_file_name: &str,
    out_disable_auto_loading_lib: bool,
    out_import_extension: ImportExtension,
) -> (r: Result<Bindings, GenerationError>)
    ensures
        generated(r, *ci, sys_ts_main_file_name@, node_ts_main_file_name@, out_import_extension,
            out_disable_auto_loading_lib),
{
    let (ids, raws) = identifiers(ci);
    proof {
        lemma_names_align(*ci, 9);
    }
    let ghost declared = declared_identifiers(*ci);
    let ghost views = ids@.map_values(|s: String| s@);
    assert(views =~= declared);
    assert forall|k: int| 0 <= k < raws@.len() implies #[trigger] raws@[k]@ == declaring_names(
        *ci,
    )[k] by {}
    match find_collision(&ids) {
        Some((i, j)) => {
            return Err(
                GenerationError::NameCollision {
                    first: raws[i].clone(),
                    second: raws[j].clone(),
                    declared: ids[i].clone(),
                },
            );
        },
        None => {},
    }
    let node_ts_file_contents = NodeTsTemplate::new(
        ci,
        sys_ts_main_file_name,
        out_import_extension,
    ).render()?;
    let index_ts_file_contents = IndexTsTemplate::new(
        node_ts_main_file_name,
        sys_ts_main_file_name,
        out_import_extension,
        out_disable_auto_loading_lib,
    ).render();
    Ok(Bindings { node_ts_file_contents, index_ts_file_contents })
}

/// What generating the bindings of `ci` gives: an error where two
/// definitions would be declared under one identifier, naming both and the
/// identifier; otherwise an error where `ci` holds a custom type, naming
/// one; otherwise the two files.
pub open spec fn generated(
    r: Result<Bindings, GenerationError>,
    ci: Interface,
    sys: Seq<char>,
    node: Seq<char>,
    ext: ImportExtension,
    disable_auto_loading: bool,
) -> bool {
    &&& r is Err <==> has_collision(declared_identifiers(ci)) || interface_has_custom(ci)
    &&& has_collision(declared_identifiers(ci)) ==> r is Err && r->Err_0 is NameCollision
    &&& r matches Ok(b) ==> b.node_ts_file_contents@ == node_ts_of(ci, sys, ext)
        && b.index_ts_file_contents@ == index_ts_of(node, sys, ext, disable_auto_loading)
    &&& r matches Err(GenerationError::NameCollision { first, second, declared }) ==> exists|
        i: int,
        j: int,
    |
        #[trigger] collide(declared_identifiers(ci), i, j) && declaring_names(ci)[i] == first@
            && declaring_names(ci)[j] == second@ && declared_identifiers(ci)[i] == declared@
    &&& r matches Err(GenerationError::UnresolvedCustomType { name }) ==> interface_mentions_custom(
        ci,
        name@,
    )
}

/// Base name of the runtime module for a component's namespace.
pub open spec fn sys_file_name_of(namespace: Seq<char>) -> Seq<char> {
    kebab_of(namespace) + "-sys"@
}

/// Base name of the generated module for a component's namespace.
pub open spec fn node_file_name_of(namespace: Seq<char>) -> Seq<char> {
    kebab_of(namespace) + "-node"@
}

/// A file to write into the output directory.
pub struct OutputFile {
    pub file_name: String,
    pub contents: String,
}

/// Settings of the generator, under `[bindings.node]` in the configuration;
/// there are none yet.
pub struct NodeBindingGeneratorConfig {}

impl Default for NodeBindingGeneratorConfig {
    fn default() -> (r: Self)
        ensures
            r == (NodeBindingGeneratorConfig {}),
    {
        NodeBindingGeneratorConfig {}
    }
}

/// Generates the TypeScript bindings of each component.
pub struct NodeBindingGenerator {
    out_disable_auto_loading_lib: bool,
    out_import_extension: ImportExtension,
}

impl NodeBindingGenerator {
    /// Whether consumers load the native library themselves.
    pub closed spec fn disables_auto_loading(&self) -> bool {
        self.out_disable_auto_loading_lib
    }

    /// The extension written at the end of import paths.
    pub closed spec fn import_extension(&self) -> ImportExtension {
        self.out_import_extension
    }

    pub fn new(out_disable_auto_loading_lib: bool, out_import_extension: ImportExtension) -> (r:
        Self)
        ensures
            r.disables_auto_loading() == out_disable_auto_loading_lib,
            r.import_extension() == out_import_extension,
    {
        Self { out_disable_auto_loading_lib, out_import_extension }
    }

    /// The files to write for one component: its generated module, named
    /// after its namespace, and the entry module `index.ts`.
    pub fn render_component(&self, ci: &Interface) -> (r: Result<Vec<OutputFile>, GenerationError>)
        ensures
            r is Err <==> has_collision(declared_identifiers(*ci)) || interface_has_custom(*ci),
            r matches Ok(files) ==> {
                let node = node_file_name_of(ci.namespace@);
                let sys = sys_file_name_of(ci.namespace@);
                &&& files@.len() == 2
                &&& files@[0].file_name@ == node + ".ts"@
                &&& files@[0].contents@ == node_ts_of(*ci, sys, self.import_extension())
                &&& files@[1].file_name@ == "index.ts"@
                &&& files@[1].contents@ == index_ts_of(
                    node,
                    sys,
                    self.import_extension(),
                    self.disables_auto_loading(),
                )
            },
            r matches Err(e) ==> generated(
                Err(e),
                *ci,
                sys_file_name_of(ci.namespace@),
                node_file_name_of(ci.namespace@),
                self.import_extension(),
                self.disables_auto_loading(),
            ),
    {
        let base = kebab_name(ci.namespace.as_str());
        let mut sys = base.clone();
        sys.append("-sys");
        let mut node = base;
        node.append("-node");
        let bindings = generate_node_bindings(
            ci,
            sys.as_str(),
            node.as_str(),
            self.out_disable_auto_loading_lib,
            self.out_import_extension,
        )?;
        let mut node_file = node;
        node_file.append(".ts");
        let mut files: Vec<OutputFile> = Vec::new();
        files.push(OutputFile { file_name: node_file, contents: bindings.node_ts_file_contents });
        files.push(
            OutputFile {
                file_name: String::from_str("index.ts"),
                contents: bindings.index_ts_file_contents,
            },
        );
        Ok(files)
    }
}

proof fn lemma_definition_decls_concat(a: Seq<FfiDefinition>, b: Seq<FfiDefinition>)
    ensures
        definition_decls_of(a + b) == definition_decls_of(a) + definition_decls_of(b),
    decreases b.len(),
{
    if b.len() == 0 {
        assert(a + b =~= a);
        assert(definition_decls_of(a) + definition_decls_of(b) =~= definition_decls_of(a));
    } else {
        lemma_definition_decls_concat(a, b.drop_last());
        assert((a + b).drop_last() =~= a + b.drop_last());
        assert((a + b).last() == b.last());
        assert(definition_decls_of(a) + definition_decls_of(b) =~= definition_decls_of(a) + definition_decls_of(b.drop_last()) + definition_decl_of(b.last()));
    }
}

proof fn lemma_definition_decls_split(ds: Seq<FfiDefinition>, k: int)
    requires
        0 <= k < ds.len(),
    ensures
        definition_decls_of(ds) == definition_decls_of(ds.take(k)) + definition_decl_of(ds[k]) + definition_decls_of(ds.skip(k + 1)),
{
    let one = seq![ds[k]];
    assert(ds =~= ds.take(k) + one + ds.skip(k + 1));
    lemma_definition_decls_concat(ds.take(k) + one, ds.skip(k + 1));
    lemma_definition_decls_concat(ds.take(k), one);
    assert(one.drop_last() =~= Seq::<FfiDefinition>::empty());
    assert(definition_decls_of(one.drop_last()) == Seq::<char>::empty());
    assert(definition_decls_of(one) =~= definition_decl_of(ds[k]));
}

proof fn lemma_record_decls_concat(a: Seq<Record>, b: Seq<Record>)
    ensures
        record_decls_of(a + b) == record_decls_of(a) + record_decls_of(b),
    decreases b.len(),
{
    if b.len() == 0 {
        assert(a + b =~= a);
        assert(record_decls_of(a) + record_decls_of(b) =~= record_decls_of(a));
    } else {
        lemma_record_decls_concat(a, b.drop_last());
        assert((a + b).drop_last() =~= a + b.drop_last());
        assert((a + b).last() == b.last());
        assert(record_decls_of(a) + record_decls_of(b) =~= record_decls_of(a) + record_decls_of(b.drop_last()) + record_decl_of(b.last()));
    }
}

proof fn lemma_record_decls_split(ds: Seq<Record>, k: int)
    requires
        0 <= k < ds.len(),
    ensures
        record_decls_of(ds) == record_decls_of(ds.take(k)) + record_decl_of(ds[k]) + record_decls_of(ds.skip(k + 1)),
{
    let one = seq![ds[k]];
    assert(ds =~= ds.take(k) + one + ds.skip(k + 1));
    lemma_record_decls_concat(ds.take(k) + one, ds.skip(k + 1));
    lemma_record_decls_concat(ds.take(k), one);
    assert(one.drop_last() =~= Seq::<Record>::empty());
    assert(record_decls_of(one.drop_last()) == Seq::<char>::empty());
    assert(record_decls_of(one) =~= record_decl_of(ds[k]));
}

proof fn lemma_enum_decls_concat(a: Seq<Enumeration>, b: Seq<Enumeration>)
    ensures
        enum_decls_of(a + b) == enum_decls_of(a) + enum_decls_of(b),
    decreases b.len(),
{
    if b.len() == 0 {
        assert(a + b =~= a);
        assert(enum_decls_of(a) + enum_decls_of(b) =~= enum_decls_of(a));
    } else {
        lemma_enum_decls_concat(a, b.drop_last());
        assert((a + b).drop_last() =~= a + b.drop_last());
        assert((a + b).last() == b.last());
        assert(enum_decls_of(a) + enum_decls_of(b) =~= enum_decls_of(a) + enum_decls_of(b.drop_last()) + enum_decl_of(b.last()));
    }
}

proof fn lemma_enum_decls_split(ds: Seq<Enumeration>, k: int)
    requires
        0 <= k < ds.len(),
    ensures
        enum_decls_of(ds) == enum_decls_of(ds.take(k)) + enum_decl_of(ds[k]) + enum_decls_of(ds.skip(k + 1)),
{
    let one = seq![ds[k]];
    assert(ds =~= ds.take(k) + one + ds.skip(k + 1));
    lemma_enum_decls_concat(ds.take(k) + one, ds.skip(k + 1));
    lemma_enum_decls_concat(ds.take(k), one);
    assert(one.drop_last() =~= Seq::<Enumeration>::empty());
    assert(enum_decls_of(one.drop_last()) == Seq::<char>::empty());
    assert(enum_decls_of(one) =~= enum_decl_of(ds[k]));
}

proof fn lemma_object_decls_concat(a: Seq<Object>, b: Seq<Object>)
    ensures
        object_decls_of(a + b) == object_decls_of(a) + object_decls_of(b),
    decreases b.len(),
{
    if b.len() == 0 {
        assert(a + b =~= a);
        assert(object_decls_of(a) + object_decls_of(b) =~= object_decls_of(a));
    } else {
        lemma_object_decls_concat(a, b.drop_last());
        assert((a + b).drop_last() =~= a + b.drop_last());
        assert((a + b).last() == b.last());
        assert(object_decls_of(a) + object_decls_of(b) =~= object_decls_of(a) + object_decls_of(b.drop_last()) + object_decl_of(b.last()));
    }
}

proof fn lemma_object_decls_split(ds: Seq<Object>, k: int)
    requires
        0 <= k < ds.len(),
    ensures
        object_decls_of(ds) == object_decls_of(ds.take(k)) + object_decl_of(ds[k]) + object_decls_of(ds.skip(k + 1)),
{
    let one = seq![ds[k]];
    assert(ds =~= ds.take(k) + one + ds.skip(k + 1));
    lemma_object_decls_concat(ds.take(k) + one, ds.skip(k + 1));
    lemma_object_decls_concat(ds.take(k), one);
    assert(one.drop_last() =~= Seq::<Object>::empty());
    assert(object_decls_of(one.drop_last()) == Seq::<char>::empty());
    assert(object_decls_of(one) =~= object_decl_of(ds[k]));
}

proof fn lemma_function_decls_concat(a: Seq<Function>, b: Seq<Function>)
    ensures
        function_decls_of(a + b) == function_decls_of(a) + function_decls_of(b),
    decreases b.len(),
{
    if b.len() == 0 {
        assert(a + b =~= a);
        assert(function_decls_of(a) + function_decls_of(b) =~= function_decls_of(a));
    } else {
        lemma_function_decls_concat(a, b.drop_last());
        assert((a + b).drop_last() =~= a + b.drop_last());
        assert((a + b).last() == b.last());
        assert(function_decls_of(a) + function_decls_of(b) =~= function_decls_of(a) + function_decls_of(b.drop_last()) + function_wrapper_of(b.last()));
    }
}

proof fn lemma_function_decls_split(ds: Seq<Function>, k: int)
    requires
        0 <= k < ds.len(),
    ensures
        function_decls_of(ds) == function_decls_of(ds.take(k)) + function_wrapper_of(ds[k]) + function_decls_of(ds.skip(k + 1)),
{
    let one = seq![ds[k]];
    assert(ds =~= ds.take(k) + one + ds.skip(k + 1));
    lemma_function_decls_concat(ds.take(k) + one, ds.skip(k + 1));
    lemma_function_decls_concat(ds.take(k), one);
    assert(one.drop_last() =~= Seq::<Function>::empty());
    assert(function_decls_of(one.drop_last()) == Seq::<char>::empty());
    assert(function_decls_of(one) =~= function_wrapper_of(ds[k]));
}

/// `t` stands in `s`, as one contiguous piece.
pub open spec fn holds_text(s: Seq<char>, t: Seq<char>) -> bool {
    exists|pre: Seq<char>, post: Seq<char>| s == #[trigger] (pre + t + post)
}

proof fn lemma_holds_left(a: Seq<char>, b: Seq<char>)
    ensures
        holds_text(a + b, a),
{
    assert(a + b =~= Seq::<char>::empty() + a + b);
}

proof fn lemma_holds_right(a: Seq<char>, b: Seq<char>)
    ensures
        holds_text(a + b, b),
{
    assert(a + b =~= a + b + Seq::<char>::empty());
}

proof fn lemma_holds_trans(s: Seq<char>, t: Seq<char>, u: Seq<char>)
    requires
        holds_text(s, t),
        holds_text(t, u),
    ensures
        holds_text(s, u),
{
    let (p1, q1) = choose|p: Seq<char>, q: Seq<char>| s == #[trigger] (p + t + q);
    let (p2, q2) = choose|p: Seq<char>, q: Seq<char>| t == #[trigger] (p + u + q);
    assert(s =~= (p1 + p2) + u + (q2 + q1));
}

proof fn lemma_module_holds_each_definition(ci: Interface, sys: Seq<char>, ext: ImportExtension)
    ensures
        forall|k: int|
            0 <= k < ci.ffi_definitions@.len() ==> holds_text(
                node_ts_of(ci, sys, ext),
                #[trigger] definition_decl_of(ci.ffi_definitions@[k]),
            ),
{
    let x0 = runtime_imports() + sys + import_suffix_of(ext) + "\";\n\n"@;
    let x1 = x0 + definition_decls_of(ci.ffi_definitions@);
    let x2 = x1 + "\n"@;
    let x3 = x2 + record_decls_of(ci.records@);
    let x4 = x3 + enum_decls_of(ci.enums@);
    let x5 = x4 + object_decls_of(ci.objects@);
    let x6 = x5 + function_decls_of(ci.functions@);
    assert(node_ts_of(ci, sys, ext) == x6);
    lemma_holds_left(x5, function_decls_of(ci.functions@));
    lemma_holds_left(x4, object_decls_of(ci.objects@));
    lemma_holds_trans(x6, x5, x4);
    lemma_holds_left(x3, enum_decls_of(ci.enums@));
    lemma_holds_trans(x6, x4, x3);
    lemma_holds_left(x2, record_decls_of(ci.records@));
    lemma_holds_trans(x6, x3, x2);
    lemma_holds_left(x1, "\n"@);
    lemma_holds_trans(x6, x2, x1);
    lemma_holds_right(x0, definition_decls_of(ci.ffi_definitions@));
    lemma_holds_trans(x6, x1, definition_decls_of(ci.ffi_definitions@));
    assert forall|k: int| 0 <= k < ci.ffi_definitions@.len() implies holds_text(
        x6,
        #[trigger] definition_decl_of(ci.ffi_definitions@[k]),
    ) by {
        let ds = ci.ffi_definitions@;
        lemma_definition_decls_split(ds, k);
        assert(definition_decls_of(ds) == #[trigger] (definition_decls_of(ds.take(k)) + definition_decl_of(ds[k]) + definition_decls_of(ds.skip(k + 1))));
        lemma_holds_trans(x6, definition_decls_of(ds), definition_decl_of(ds[k]));
    }
}

proof fn lemma_module_holds_each_record(ci: Interface, sys: Seq<char>, ext: ImportExtension)
    ensures
        forall|k: int|
            0 <= k < ci.records@.len() ==> holds_text(
                node_ts_of(ci, sys, ext),
                #[trigger] record_decl_of(ci.records@[k]),
            ),
{
    let x0 = runtime_imports() + sys + import_suffix_of(ext) + "\";\n\n"@;
    let x1 = x0 + definition_decls_of(ci.ffi_definitions@);
    let x2 = x1 + "\n"@;
    let x3 = x2 + record_decls_of(ci.records@);
    let x4 = x3 + enum_decls_of(ci.enums@);
    let x5 = x4 + object_decls_of(ci.objects@);
    let x6 = x5 + function_decls_of(ci.functions@);
    assert(node_ts_of(ci, sys, ext) == x6);
    lemma_holds_left(x5, function_decls_of(ci.functions@));
    lemma_holds_left(x4, object_decls_of(ci.objects@));
    lemma_holds_trans(x6, x5, x4);
    lemma_holds_left(x3, enum_decls_of(ci.enums@));
    lemma_holds_trans(x6, x4, x3);
    lemma_holds_right(x2, record_decls_of(ci.records@));
    lemma_holds_trans(x6, x3, record_decls_of(ci.records@));
    assert forall|k: int| 0 <= k < ci.records@.len() implies holds_text(
        x6,
        #[trigger] record_decl_of(ci.records@[k]),
    ) by {
        let ds = ci.records@;
        lemma_record_decls_split(ds, k);
        assert(record_decls_of(ds) == #[trigger] (record_decls_of(ds.take(k)) + record_decl_of(ds[k]) + record_decls_of(ds.skip(k + 1))));
        lemma_holds_trans(x6, record_decls_of(ds), record_decl_of(ds[k]));
    }
}

proof fn lemma_module_holds_each_enum(ci: Interface, sys: Seq<char>, ext: ImportExtension)
    ensures
        forall|k: int|
            0 <= k < ci.enums@.len() ==> holds_text(
                node_ts_of(ci, sys, ext),
                #[trigger] enum_decl_of(ci.enums@[k]),
            ),
{
    let x0 = runtime_imports() + sys + import_suffix_of(ext) + "\";\n\n"@;
    let x1 = x0 + definition_decls_of(ci.ffi_definitions@);
    let x2 = x1 + "\n"@;
    let x3 = x2 + record_decls_of(ci.records@);
    let x4 = x3 + enum_decls_of(ci.enums@);
    let x5 = x4 + object_decls_of(ci.objects@);
    let x6 = x5 + function_decls_of(ci.functions@);
    assert(node_ts_of(ci, sys, ext) == x6);
    lemma_holds_left(x5, function_decls_of(ci.functions@));
    lemma_holds_left(x4, object_decls_of(ci.objects@));
    lemma_holds_trans(x6, x5, x4);
    lemma_holds_right(x3, enum_decls_of(ci.enums@));
    lemma_holds_trans(x6, x4, enum_decls_of(ci.enums@));
    assert forall|k: int| 0 <= k < ci.enums@.len() implies holds_text(
        x6,
        #[trigger] enum_decl_of(ci.enums@[k]),
    ) by {
        let ds = ci.enums@;
        lemma_enum_decls_split(ds, k);
        assert(enum_decls_of(ds) == #[trigger] (enum_decls_of(ds.take(k)) + enum_decl_of(ds[k]) + enum_decls_of(ds.skip(k + 1))));
        lemma_holds_trans(x6, enum_decls_of(ds), enum_decl_of(ds[k]));
    }
}

proof fn lemma_module_holds_each_object(ci: Interface, sys: Seq<char>, ext: ImportExtension)
    ensures
        forall|k: int|
            0 <= k < ci.objects@.len() ==> holds_text(
                node_ts_of(ci, sys, ext),
                #[trigger] object_decl_of(ci.objects@[k]),
            ),
{
    let x0 = runtime_imports() + sys + import_suffix_of(ext) + "\";\n\n"@;
    let x1 = x0 + definition_decls_of(ci.ffi_definitions@);
    let x2 = x1 + "\n"@;
    let x3 = x2 + record_decls_of(ci.records@);
    let x4 = x3 + enum_decls_of(ci.enums@);
    let x5 = x4 + object_decls_of(ci.objects@);
    let x6 = x5 + function_decls_of(ci.functions@);
    assert(node_ts_of(ci, sys, ext) == x6);
    lemma_holds_left(x5, function_decls_of(ci.functions@));
    lemma_holds_right(x4, object_decls_of(ci.objects@));
    lemma_holds_trans(x6, x5, object_decls_of(ci.objects@));
    assert forall|k: int| 0 <= k < ci.objects@.len() implies holds_text(
        x6,
        #[trigger] object_decl_of(ci.objects@[k]),
    ) by {
        let ds = ci.objects@;
        lemma_object_decls_split(ds, k);
        assert(object_decls_of(ds) == #[trigger] (object_decls_of(ds.take(k)) + object_decl_of(ds[k]) + object_decls_of(ds.skip(k + 1))));
        lemma_holds_trans(x6, object_decls_of(ds), object_decl_of(ds[k]));
    }
}

proof fn lemma_module_holds_each_function(ci: Interface, sys: Seq<char>, ext: ImportExtension)
    ensures
        forall|k: int|
            0 <= k < ci.functions@.len() ==> holds_text(
                node_ts_of(ci, sys, ext),
                #[trigger] function_wrapper_of(ci.functions@[k]),
            ),
{
    let x0 = runtime_imports() + sys + import_suffix_of(ext) + "\";\n\n"@;
    let x1 = x0 + definition_decls_of(ci.ffi_definitions@);
    let x2 = x1 + "\n"@;
    let x3 = x2 + record_decls_of(ci.records@);
    let x4 = x3 + enum_decls_of(ci.enums@);
    let x5 = x4 + object_decls_of(ci.objects@);
    let x6 = x5 + function_decls_of(ci.functions@);
    assert(node_ts_of(ci, sys, ext) == x6);
    lemma_holds_right(x5, function_decls_of(ci.functions@));
    assert forall|k: int| 0 <= k < ci.functions@.len() implies holds_text(
        x6,
        #[trigger] function_wrapper_of(ci.functions@[k]),
    ) by {
        let ds = ci.functions@;
        lemma_function_decls_split(ds, k);
        assert(function_decls_of(ds) == #[trigger] (function_decls_of(ds.take(k)) + function_wrapper_of(ds[k]) + function_decls_of(ds.skip(k + 1))));
        lemma_holds_trans(x6, function_decls_of(ds), function_wrapper_of(ds[k]));
    }
}

/// The generated module holds, unchanged, what is emitted for each
/// definition of `ci` on its own: the declaration of every native struct,
/// function and callback with its fields and arguments in order and their
/// ABI types; every record, enum and object with the converter it
/// declares; and every function wrapper, which checks the call status right
/// after the native call. This is the module that `generate_node_bindings`
/// returns when it succeeds.
pub proof fn lemma_module_holds_every_definition(ci: Interface, sys: Seq<char>, ext: ImportExtension)
    ensures
        forall|k: int|
            0 <= k < ci.ffi_definitions@.len() ==> holds_text(
                node_ts_of(ci, sys, ext),
                #[trigger] definition_decl_of(ci.ffi_definitions@[k]),
            ),
        forall|k: int|
            0 <= k < ci.records@.len() ==> holds_text(
                node_ts_of(ci, sys, ext),
                #[trigger] record_decl_of(ci.records@[k]),
            ),
        forall|k: int|
            0 <= k < ci.enums@.len() ==> holds_text(
                node_ts_of(ci, sys, ext),
                #[trigger] enum_decl_of(ci.enums@[k]),
            ),
        forall|k: int|
            0 <= k < ci.objects@.len() ==> holds_text(
                node_ts_of(ci, sys, ext),
                #[trigger] object_decl_of(ci.objects@[k]),
            ),
        forall|k: int|
            0 <= k < ci.functions@.len() ==> holds_text(
                node_ts_of(ci, sys, ext),
                #[trigger] function_wrapper_of(ci.functions@[k]),
            ),
{
    lemma_module_holds_each_definition(ci, sys, ext);
    lemma_module_holds_each_record(ci, sys, ext);
    lemma_module_holds_each_enum(ci, sys, ext);
    lemma_module_holds_each_object(ci, sys, ext);
    lemma_module_holds_each_function(ci, sys, ext);
}

} // verus!
