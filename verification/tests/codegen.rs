use savefile::abi::buffer::FlexBuffer;
use savefile::abi::connection::{AbiConnection, Owning};
use savefile::abi::definition::ReceiverType;
use savefile::abi::serialize_helpers::{SeparateSerializerAndDeserializer, SerializerAndDeserializer};
use savefile::interfaces::adder::AdderImplementation;
use savefile::attrs::field::{AttrsResult, DefaultValue, VersionRange};
use savefile::attrs::repr::RemovedType;
use savefile::codegen::abi_types::{
    layout_of, parse_type, AbiMacroError, ArgSchema, ArgType, BoundDecl, GenericArgDecl, PathArgsDecl, TypeDecl,
};
use savefile::codegen::exportable::{
    check_exportable, check_method, method_dispatch, ArgDecl, GenericParamDecl, MethodDecl, ReceiverDecl,
    SuperTraitDecl, TraitDecl, TraitItemDecl, WhereBoundDecl, WherePredDecl,
};
use savefile::codegen::fields::{
    field_actions, fields_written, introspect_fields, DeriveError, FieldAction, FieldDecl, FieldDefault,
};
use savefile::codegen::packing::{enum_packing_exec, record_packing_exec, PackedDecision};
use savefile::codegen::record_schema::{derived_enum_schema, derived_schema, VariantDecl};
use savefile::attrs::{AttrMeta, NestedMeta};
use savefile::schema::nodes::{SchemaNode, SchemaPrimitive};
use savefile::schema::Schema;

fn attrs(from: u32, to: u32) -> AttrsResult {
    AttrsResult {
        version_from: from,
        version_to: to,
        ignore: false,
        default_fn: None,
        default_val: None,
        deserialize_types: vec![],
        introspect_key: false,
        introspect_ignore: false,
    }
}

fn field(name: &str, a: AttrsResult) -> FieldDecl {
    FieldDecl { name: name.to_string(), removed: RemovedType::NotRemoved, attrs: a }
}

fn path(name: &str) -> TypeDecl {
    TypeDecl::Path { segments: 1, name: name.to_string(), args: PathArgsDecl::Bare }
}

fn reference(inner: TypeDecl, mutable: bool) -> TypeDecl {
    TypeDecl::Reference { lifetime: None, mutable, inner: Box::new(inner) }
}

fn dyn_trait(name: &str, parenthesized: bool) -> TypeDecl {
    TypeDecl::TraitObject {
        has_dyn: true,
        bounds: vec![BoundDecl::Trait { name: name.to_string(), parenthesized, for_lifetimes: false, maybe: false }],
    }
}

fn u32_schema() -> Schema {
    Schema { nodes: vec![SchemaNode::Primitive(SchemaPrimitive::schema_u32)] }
}

fn method(name: &str, args: Vec<ArgDecl>, ret: Option<TypeDecl>) -> MethodDecl {
    MethodDecl {
        name: name.to_string(),
        receiver: Some(ReceiverDecl::Reference { lifetime: None, mutable: false }),
        args,
        ret,
        where_clause: None,
        generics: vec![],
        is_async: false,
        is_variadic: false,
        is_unsafe: false,
        has_abi: false,
    }
}

fn arg(name: &str, ty: TypeDecl) -> ArgDecl {
    ArgDecl { name: Some(name.to_string()), ty }
}

#[test]
fn test_field_actions_by_version() {
    let mut b = attrs(1, u32::MAX);
    b.deserialize_types = vec![VersionRange {
        from: 0,
        to: 0,
        convert_fun: String::new(),
        serialized_type: "u8".to_string(),
    }];
    let mut c = attrs(2, u32::MAX);
    c.default_val = Some(DefaultValue::Literal("7".to_string()));
    let fields = vec![field("a", attrs(0, u32::MAX)), field("b", b), field("c", c), field("d", attrs(3, u32::MAX))];
    let v0 = field_actions(&fields, 0).unwrap();
    assert_eq!(
        v0,
        vec![
            FieldAction::Read,
            FieldAction::ReadOlder(0),
            FieldAction::Fill(FieldDefault::Given),
            FieldAction::Fill(FieldDefault::TypeDefault)
        ]
    );
    let v2 = field_actions(&fields, 2).unwrap();
    assert_eq!(
        v2,
        vec![FieldAction::Read, FieldAction::Read, FieldAction::Read, FieldAction::Fill(FieldDefault::TypeDefault)]
    );
}

#[test]
fn test_field_actions_unreachable_default_and_removed() {
    let mut b = attrs(1, u32::MAX);
    b.deserialize_types = vec![VersionRange {
        from: 0,
        to: 0,
        convert_fun: String::new(),
        serialized_type: "u8".to_string(),
    }];
    let mut removed = field("r", attrs(0, 0));
    removed.removed = RemovedType::Removed;
    let fields = vec![field("b", b), removed];
    let v5 = field_actions(&fields, 5).unwrap();
    assert_eq!(
        v5,
        vec![FieldAction::Read, FieldAction::Fill(FieldDefault::RemovedMarker)]
    );
    let mut b2 = attrs(1, u32::MAX);
    b2.deserialize_types = vec![VersionRange {
        from: 0,
        to: 0,
        convert_fun: String::new(),
        serialized_type: "u8".to_string(),
    }];
    let mut tail = attrs(0, 3);
    tail.ignore = false;
    let f2 = vec![field("b", b2), field("t", tail)];
    // The field `t` exists from version 0, so no version below its first one
    // lacks it: the derive treats its filling-in as unreachable.
    assert_eq!(field_actions(&f2, 4).unwrap()[1], FieldAction::Fill(FieldDefault::Unreachable));
}

#[test]
fn test_field_refusals() {
    let mut everywhere = field("x", attrs(0, u32::MAX));
    everywhere.removed = RemovedType::Removed;
    let fields = vec![field("a", attrs(0, u32::MAX)), everywhere];
    assert_eq!(field_actions(&fields, 0).unwrap_err(), DeriveError::RemovedInEveryVersion);
    assert_eq!(fields_written(&fields, 0).unwrap_err(), DeriveError::RemovedInEveryVersion);
    let reversed = vec![field("a", attrs(3, 1))];
    assert_eq!(field_actions(&reversed, 0).unwrap_err(), DeriveError::ReversedVersions);
}

#[test]
fn test_fields_written() {
    let mut skipped = attrs(0, u32::MAX);
    skipped.ignore = true;
    let fields = vec![field("a", attrs(0, u32::MAX)), field("b", attrs(1, 2)), field("c", skipped)];
    assert_eq!(fields_written(&fields, 0).unwrap(), vec![true, false, false]);
    assert_eq!(fields_written(&fields, 2).unwrap(), vec![true, true, false]);
    assert_eq!(fields_written(&fields, 3).unwrap(), vec![true, false, false]);
}

#[test]
fn test_derived_schema() {
    let fields = vec![field("a", attrs(0, u32::MAX)), field("b", attrs(1, u32::MAX))];
    let own = vec![u32_schema(), u32_schema()];
    let older: Vec<Vec<Schema>> = vec![vec![], vec![]];
    let s0 = derived_schema("Rec", &fields, 0, &own, &older).unwrap();
    assert_eq!(
        s0.nodes,
        vec![
            SchemaNode::Struct { dbg_name: "Rec".to_string(), field_count: 1 },
            SchemaNode::Field { name: "a".to_string(), removed: false },
            SchemaNode::Primitive(SchemaPrimitive::schema_u32),
        ]
    );
    let s1 = derived_schema("Rec", &fields, 1, &own, &older).unwrap();
    assert_eq!(s1.nodes.len(), 5);
    assert_eq!(s1.nodes[0], SchemaNode::Struct { dbg_name: "Rec".to_string(), field_count: 2 });
}

#[test]
fn test_derived_schema_older_type_and_removed() {
    let mut b = attrs(1, u32::MAX);
    b.deserialize_types = vec![VersionRange {
        from: 0,
        to: 0,
        convert_fun: String::new(),
        serialized_type: "u8".to_string(),
    }];
    let mut gone = field("g", attrs(0, 0));
    gone.removed = RemovedType::Removed;
    let fields = vec![field("b", b), gone];
    let own = vec![u32_schema(), u32_schema()];
    let older = vec![vec![Schema { nodes: vec![SchemaNode::Primitive(SchemaPrimitive::schema_u8)] }], vec![]];
    let s0 = derived_schema("Rec", &fields, 0, &own, &older).unwrap();
    assert_eq!(
        s0.nodes,
        vec![
            SchemaNode::Struct { dbg_name: "Rec".to_string(), field_count: 2 },
            SchemaNode::Field { name: "b".to_string(), removed: false },
            SchemaNode::Primitive(SchemaPrimitive::schema_u8),
            SchemaNode::Field { name: "g".to_string(), removed: true },
            SchemaNode::Primitive(SchemaPrimitive::schema_u32),
        ]
    );
}

#[test]
fn test_introspect_fields() {
    let mut hidden = attrs(0, u32::MAX);
    hidden.introspect_ignore = true;
    let mut key = attrs(0, u32::MAX);
    key.introspect_key = true;
    let fields = vec![field("a", attrs(0, u32::MAX)), field("h", hidden), field("k", key)];
    let plan = introspect_fields(&fields).unwrap();
    assert_eq!(plan.fields, vec![0, 2]);
    assert_eq!(plan.key, Some(2));
    let mut key2 = attrs(0, u32::MAX);
    key2.introspect_key = true;
    let mut key3 = attrs(0, u32::MAX);
    key3.introspect_key = true;
    let two = vec![field("a", key2), field("b", key3)];
    assert_eq!(introspect_fields(&two).err(), Some(DeriveError::TwoIntrospectKeys));
}

#[test]
fn test_parse_type_kinds() {
    assert_eq!(parse_type(&path("u32"), false, false, false, false), Ok(ArgType::PlainData(Some((4, 4)))));
    assert_eq!(parse_type(&path("String"), false, false, false, false), Ok(ArgType::PlainData(None)));
    assert_eq!(parse_type(&reference(path("str"), false), false, false, false, false), Ok(ArgType::Str(false)));
    assert_eq!(
        parse_type(&reference(TypeDecl::Slice(Box::new(path("u8"))), false), false, false, false, false),
        Ok(ArgType::Reference(Box::new(ArgType::Slice(Box::new(ArgType::PlainData(Some((1, 1)))))), false))
    );
    assert_eq!(
        parse_type(&reference(dyn_trait("FnMut", true), true), false, false, false, false),
        Ok(ArgType::Reference(Box::new(ArgType::Fn { is_mut: true, sync: false, send: false }), true))
    );
    assert_eq!(
        parse_type(&reference(dyn_trait("Adder", false), false), false, false, false, false),
        Ok(ArgType::Reference(Box::new(ArgType::Trait("Adder".to_string(), false)), false))
    );
    let boxed = TypeDecl::Path {
        segments: 1,
        name: "Box".to_string(),
        args: PathArgsDecl::Angle(vec![GenericArgDecl::Type(dyn_trait("Adder", false))]),
    };
    assert_eq!(
        parse_type(&boxed, false, false, false, false),
        Ok(ArgType::Boxed(Box::new(ArgType::Trait("Adder".to_string(), false))))
    );
    let result = TypeDecl::Path {
        segments: 1,
        name: "Result".to_string(),
        args: PathArgsDecl::Angle(vec![GenericArgDecl::Type(path("u32")), GenericArgDecl::Type(path("String"))]),
    };
    assert_eq!(
        parse_type(&result, true, false, false, false),
        Ok(ArgType::Result(Box::new(ArgType::PlainData(Some((4, 4)))), Box::new(ArgType::PlainData(None))))
    );
    // As an argument, `Result` is plain data.
    assert_eq!(parse_type(&result, false, false, false, false), Ok(ArgType::PlainData(None)));
}

#[test]
fn test_parse_type_refusals() {
    let ref_ref = reference(reference(path("u32"), false), false);
    assert_eq!(parse_type(&ref_ref, false, false, false, false), Err(AbiMacroError::ReferenceToReference));
    let with_lifetime =
        TypeDecl::Reference { lifetime: Some("a".to_string()), mutable: false, inner: Box::new(path("u32")) };
    assert_eq!(parse_type(&with_lifetime, false, false, false, false), Err(AbiMacroError::LifetimeNotSupported));
    let shared_fnmut = reference(dyn_trait("FnMut", true), false);
    assert_eq!(
        parse_type(&shared_fnmut, false, false, false, false),
        Err(AbiMacroError::FnMutBehindSharedReference)
    );
    assert_eq!(
        parse_type(&reference(dyn_trait("FnOnce", true), false), false, false, false, false),
        Err(AbiMacroError::FnOnceNotSupported)
    );
    assert_eq!(
        parse_type(&reference(path("u32"), true), false, false, false, false),
        Err(AbiMacroError::MutableReference)
    );
    let four = TypeDecl::Tuple(vec![path("u8"), path("u8"), path("u8"), path("u8")]);
    assert_eq!(parse_type(&four, false, false, false, false), Err(AbiMacroError::TupleTooLong));
    assert_eq!(parse_type(&TypeDecl::Other, true, false, false, false), Err(AbiMacroError::UnsupportedType));
}

#[test]
fn test_layout_of_tuples_and_arrays() {
    assert_eq!(layout_of(&TypeDecl::Tuple(vec![])), Some((0, 1)));
    assert_eq!(layout_of(&TypeDecl::Tuple(vec![path("u32"), path("u32")])), Some((8, 4)));
    assert_eq!(layout_of(&TypeDecl::Tuple(vec![path("u32"), path("u8")])), None);
    let arr = TypeDecl::Array { elem: Box::new(path("u16")), len: Some(3) };
    assert_eq!(layout_of(&arr), Some((6, 2)));
}

#[test]
fn test_get_instruction() {
    let k = ArgType::Reference(Box::new(ArgType::Trait("Adder".to_string(), false)), false);
    let i = k.get_instruction(true, 8);
    assert_eq!(i.schema, ArgSchema::Reference(Box::new(ArgSchema::Trait("Adder".to_string(), false))));
    assert_eq!(i.known_size_align, Some((24, 8)));
    assert_eq!(i.owned, Some(false));
    let b = ArgType::Boxed(Box::new(ArgType::Fn { is_mut: true, sync: false, send: false }));
    let j = b.get_instruction(true, 8);
    assert_eq!(j.schema, ArgSchema::Boxed(Box::new(ArgSchema::FnClosure(true))));
    assert_eq!(j.known_size_align, None);
    assert_eq!(j.owned, Some(true));
    let s = ArgType::Slice(Box::new(ArgType::PlainData(Some((1, 1)))));
    assert_eq!(s.get_instruction(true, 8).known_size_align, Some((16, 8)));
}

#[test]
fn test_check_method_refusals() {
    let ret_str = method("get", vec![], Some(reference(path("str"), false)));
    assert_eq!(check_method(&ret_str).err(), Some(AbiMacroError::ReturnsStr));
    let ret_ref = method("get", vec![], Some(reference(path("u32"), false)));
    assert_eq!(check_method(&ret_ref).err(), Some(AbiMacroError::ReturnsReference));
    let mut by_value = method("take", vec![], None);
    by_value.receiver = Some(ReceiverDecl::Value);
    assert_eq!(check_method(&by_value).err(), Some(AbiMacroError::SelfByValue));
    let mut none = method("none", vec![], None);
    none.receiver = None;
    assert_eq!(check_method(&none).err(), Some(AbiMacroError::NoSelfArgument));
    let mut generic = method("g", vec![], None);
    generic.generics = vec![GenericParamDecl::Lifetime("a".to_string())];
    assert_eq!(check_method(&generic).err(), Some(AbiMacroError::MethodLifetimes));
    let mut asy = method("a", vec![], None);
    asy.is_async = true;
    assert_eq!(check_method(&asy).err(), Some(AbiMacroError::AsyncMethod));
}

#[test]
fn test_check_method_async_trait_lifetimes() {
    let mut m = method("run", vec![], None);
    m.receiver = Some(ReceiverDecl::Reference { lifetime: Some("life0".to_string()), mutable: false });
    m.generics = vec![
        GenericParamDecl::Lifetime("life0".to_string()),
        GenericParamDecl::Lifetime("async_trait".to_string()),
        GenericParamDecl::Lifetime("life1".to_string()),
    ];
    m.where_clause = Some(vec![
        WherePredDecl::Lifetime { name: "life0".to_string(), bounds: vec!["async_trait".to_string()] },
        WherePredDecl::Type {
            self_type: true,
            for_lifetimes: false,
            bounds: vec![WhereBoundDecl::Trait { segments: 1, name: "Sync".to_string() }],
        },
    ]);
    let plan = check_method(&m).unwrap();
    assert!(plan.async_trait);
    let mut partial = method("run", vec![], None);
    partial.generics = vec![GenericParamDecl::Lifetime("life0".to_string())];
    assert_eq!(check_method(&partial).err(), Some(AbiMacroError::PartialAsyncTrait));
}

#[test]
fn test_check_exportable() {
    let def = TraitDecl {
        name: "Adder".to_string(),
        macro_args: "version = 2".to_string(),
        attr_paths: vec![],
        generic_params: 0,
        supertraits: vec![SuperTraitDecl::Trait { name: "Sync".to_string(), for_lifetimes: false }],
        has_where_clause: false,
        items: vec![TraitItemDecl::Method(method(
            "add",
            vec![arg("x", path("u32")), arg("y", path("u32"))],
            Some(path("u32")),
        ))],
    };
    let plan = check_exportable(&def).unwrap();
    assert_eq!(plan.version, 2);
    assert!(plan.sync);
    assert!(!plan.send);
    assert_eq!(plan.methods.len(), 1);
    assert_eq!(plan.methods[0].receiver, ReceiverType::Shared);
    let d = method_dispatch(&plan.methods[0], 8);
    assert_eq!(d.arg_buffer_size, Some(12));
    assert_eq!(d.args.len(), 2);
    let strings = method("s", vec![arg("x", path("String"))], None);
    let p = check_method(&strings).unwrap();
    assert_eq!(method_dispatch(&p, 8).arg_buffer_size, None);
}

#[test]
fn test_check_exportable_refusals() {
    let base = || TraitDecl {
        name: "T".to_string(),
        macro_args: "version=0".to_string(),
        attr_paths: vec![],
        generic_params: 0,
        supertraits: vec![],
        has_where_clause: false,
        items: vec![],
    };
    let mut a = base();
    a.attr_paths = vec![vec!["async_trait".to_string()]];
    assert_eq!(check_exportable(&a).err(), Some(AbiMacroError::AsyncTraitOrder));
    let mut b = base();
    b.supertraits = vec![SuperTraitDecl::Trait { name: "Clone".to_string(), for_lifetimes: false }];
    assert_eq!(check_exportable(&b).err(), Some(AbiMacroError::CloneBound));
    let mut c = base();
    c.macro_args = "version = x".to_string();
    assert_eq!(check_exportable(&c).err(), Some(AbiMacroError::VersionNotNumeric));
    let mut d = base();
    d.macro_args = " other = 1".to_string();
    assert_eq!(check_exportable(&d).err(), Some(AbiMacroError::UnknownMacroKey));
    let mut g = base();
    g.macro_args = "version = 1, version = 2".to_string();
    assert_eq!(check_exportable(&g).err(), Some(AbiMacroError::DuplicateVersion));
    let mut h = base();
    h.macro_args = "version".to_string();
    assert_eq!(check_exportable(&h).err(), Some(AbiMacroError::BadMacroArgument));
    let mut k = base();
    k.macro_args = "version = 1 = 2".to_string();
    assert_eq!(check_exportable(&k).err(), Some(AbiMacroError::BadMacroArgument));
    let mut e = base();
    e.items = vec![TraitItemDecl::Const];
    assert_eq!(check_exportable(&e).err(), Some(AbiMacroError::AssociatedConst));
    let mut f = base();
    f.items = vec![TraitItemDecl::Method(method(
        "example_func",
        vec![arg("x", reference(reference(path("u32"), false), false))],
        None,
    ))];
    assert_eq!(check_exportable(&f).err(), Some(AbiMacroError::ReferenceToReference));
}

#[test]
fn test_derived_enum_schema() {
    let variants = vec![
        VariantDecl { name: "A".to_string(), attrs: attrs(0, u32::MAX), fields: vec![] },
        VariantDecl { name: "B".to_string(), attrs: attrs(1, u32::MAX), fields: vec![field("0", attrs(0, u32::MAX))] },
    ];
    let own = vec![vec![], vec![u32_schema()]];
    let older: Vec<Vec<Vec<Schema>>> = vec![vec![], vec![vec![]]];
    let s0 = derived_enum_schema("E", 1, &variants, 0, &own, &older).unwrap();
    assert_eq!(
        s0.nodes,
        vec![
            SchemaNode::Enum { dbg_name: "E".to_string(), discriminant_size: 1, variant_count: 1 },
            SchemaNode::Variant { name: "A".to_string(), field_count: 0 },
        ]
    );
    let s1 = derived_enum_schema("E", 1, &variants, 1, &own, &older).unwrap();
    assert_eq!(
        s1.nodes,
        vec![
            SchemaNode::Enum { dbg_name: "E".to_string(), discriminant_size: 1, variant_count: 2 },
            SchemaNode::Variant { name: "A".to_string(), field_count: 0 },
            SchemaNode::Variant { name: "B".to_string(), field_count: 1 },
            SchemaNode::Field { name: "0".to_string(), removed: false },
            SchemaNode::Primitive(SchemaPrimitive::schema_u32),
        ]
    );
    let removed = vec![VariantDecl { name: "A".to_string(), attrs: attrs(0, 3), fields: vec![] }];
    let no: Vec<Vec<Schema>> = vec![vec![]];
    let none: Vec<Vec<Vec<Schema>>> = vec![vec![]];
    assert_eq!(derived_enum_schema("E", 1, &removed, 0, &no, &none).err(), Some(DeriveError::RemovedVariant));
}

#[test]
fn test_flexbuffer_writes_concatenate() {
    let mut b = FlexBuffer::new();
    let chunks: Vec<Vec<u8>> = vec![vec![1, 2, 3], vec![7; 60], vec![9, 8], vec![]];
    let mut expected = Vec::new();
    for c in chunks.iter() {
        assert_eq!(b.write(c), c.len());
        expected.extend_from_slice(c);
    }
    assert_eq!(b.len(), 65);
    assert_eq!(b.as_ptr(), expected);
}

#[test]
fn test_from_boxed_trait_owns_object() {
    let conn = AbiConnection::from_boxed_trait(Box::new(AdderImplementation { _name: String::new() })).unwrap();
    assert!(matches!(conn.owning, Owning::Owned));
}

#[test]
fn test_separate_stream_sends_after_earlier_bytes() {
    let mut stream = SeparateSerializerAndDeserializer::new(vec![5, 6], vec![1], 3, 4);
    let mut ser = stream.get_serializer();
    assert_eq!(ser.file_version, 3);
    ser.write_u8(9);
    stream.send(ser);
    let d = stream.get_deserializer();
    assert_eq!(d.file_version, 4);
}

#[test]
fn test_method_with_lifetime_on_argument_refused() {
    // fn global_func<'a>(&self, x: &'a u32) -> u32
    let mut m = method(
        "global_func",
        vec![arg(
            "x",
            TypeDecl::Reference { lifetime: Some("a".to_string()), mutable: false, inner: Box::new(path("u32")) },
        )],
        Some(path("u32")),
    );
    m.generics = vec![GenericParamDecl::Lifetime("a".to_string())];
    assert_eq!(check_method(&m).err(), Some(AbiMacroError::LifetimeNotSupported));
}

#[test]
fn test_impl_future_return_refused() {
    // fn set(&mut self, x: u32) -> impl Future<Output = ()>
    let mut m = method(
        "set",
        vec![arg("x", path("u32"))],
        Some(TypeDecl::ImplTrait(vec![BoundDecl::Trait {
            name: "Future".to_string(),
            parenthesized: false,
            for_lifetimes: false,
            maybe: false,
        }])),
    );
    m.receiver = Some(ReceiverDecl::Reference { lifetime: None, mutable: true });
    assert_eq!(check_method(&m).err(), Some(AbiMacroError::ImplFutureNotSupported));
    let other = TypeDecl::ImplTrait(vec![BoundDecl::Trait {
        name: "Iterator".to_string(),
        parenthesized: false,
        for_lifetimes: false,
        maybe: false,
    }]);
    assert_eq!(parse_type(&other, true, false, false, false), Err(AbiMacroError::UnsupportedType));
}

#[test]
fn test_record_packing() {
    let fast = vec![AttrMeta::Path("savefile_require_fast".to_string())];
    let none: Vec<AttrMeta> = vec![];
    let mut gone = field("g", attrs(0, 1));
    gone.removed = RemovedType::Removed;
    let fields = vec![field("a", attrs(0, u32::MAX)), gone, field("b", attrs(3, u32::MAX))];
    assert_eq!(
        record_packing_exec(&none, &fields).unwrap(),
        PackedDecision::FromVersion { min_safe_version: 3, checked_fields: vec![(0, 0), (0, 2)], require_no_padding: false }
    );
    assert_eq!(
        record_packing_exec(&fast, &fields).unwrap(),
        PackedDecision::FromVersion { min_safe_version: 3, checked_fields: vec![(0, 0), (0, 2)], require_no_padding: true }
    );
    let mut skipped = attrs(0, u32::MAX);
    skipped.ignore = true;
    let with_skip = vec![field("a", attrs(0, u32::MAX)), field("s", skipped)];
    assert_eq!(record_packing_exec(&none, &with_skip).unwrap(), PackedDecision::Never);
    assert_eq!(record_packing_exec(&fast, &with_skip).err(), Some(DeriveError::IgnoredFieldInFastType));
}

#[test]
fn test_enum_packing() {
    let fast = vec![AttrMeta::Path("savefile_unsafe_and_fast".to_string())];
    let variants = vec![VariantDecl { name: "A".to_string(), attrs: attrs(0, u32::MAX), fields: vec![field("0", attrs(0, u32::MAX))] }];
    // Without a declared discriminant size the enum is never copied, and a
    // request for copying is refused.
    assert_eq!(enum_packing_exec(&vec![], &variants).unwrap(), PackedDecision::Never);
    assert_eq!(enum_packing_exec(&fast, &variants).err(), Some(DeriveError::FastEnumWithoutRepr));
    let repr = AttrMeta::List { path: "repr".to_string(), nested: vec![NestedMeta::Path("u8".to_string())] };
    let with_repr = vec![AttrMeta::Path("savefile_unsafe_and_fast".to_string()), repr];
    assert_eq!(
        enum_packing_exec(&with_repr, &variants).unwrap(),
        PackedDecision::FromVersion { min_safe_version: 0, checked_fields: vec![(0, 0)], require_no_padding: true }
    );
}

#[test]
fn test_from_created_instance() {
    let ok = AbiConnection::<AdderImplementation, AdderImplementation>::from_created_instance(
        AdderImplementation { _name: String::new() },
        String::new(),
        Owning::NotOwned,
    )
    .unwrap();
    assert!(matches!(ok.owning, Owning::NotOwned));
    let failed = AbiConnection::<AdderImplementation, AdderImplementation>::from_created_instance(
        AdderImplementation { _name: String::new() },
        "no room".to_string(),
        Owning::Owned,
    );
    match failed {
        Err(savefile::error::SavefileError::CalleePanic { msg }) => assert_eq!(msg, "no room"),
        _ => panic!("expected the creation error"),
    }
}
