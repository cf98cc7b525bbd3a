use musty::derive::error::DeriveError;
use musty::derive::id::{find_id_field, get_id_type, validate_id_field};
use musty::derive::input::{
    ArgKind, Field, FieldType, GetAttr, ModelInput, MongoAttrs, PathShape, Segment, SerdeAttr,
    SerdeNested, TypePath,
};
use musty::derive::plan::{
    expand, expand_filter_struct, expand_filter_struct_function, expand_mongo_fields_impl,
    FilterMethod,
};
use musty::derive::rewrite::{
    create_model_struct, get_defaulted_id_type, get_model_id_type, IdAttr, IdType,
};
use musty::derive::serde_attrs::{get_serde_attrs, validate_serde_id_attrs, SerdeMeta};

fn plain(ident: &str) -> TypePath {
    TypePath { leading_colon: false, segments: vec![Segment { ident: ident.to_string(), args: None }] }
}

fn arg(ident: &str) -> ArgKind {
    ArgKind::Path(PathShape { idents: vec![ident.to_string()], plain: true })
}

/// The type `Id<args...>`.
fn id_of(args: Vec<ArgKind>) -> FieldType {
    FieldType::Path(TypePath {
        leading_colon: false,
        segments: vec![Segment { ident: "Id".to_string(), args: Some(args) }],
    })
}

fn field(ident: &str, ty: FieldType) -> Field {
    Field {
        ident: ident.to_string(),
        ty,
        id: false,
        skip: false,
        rename: None,
        child: false,
        get: None,
        serde: vec![],
    }
}

fn meta(name: &str, value: Option<&str>) -> SerdeNested {
    SerdeNested::Meta { name: name.to_string(), value: value.map(|v| v.to_string()) }
}

fn smeta(name: &str, value: Option<&str>) -> SerdeMeta {
    SerdeMeta { name: name.to_string(), value: value.map(|v| v.to_string()) }
}

/// The identifier field `id: Id<Self, u32>` with the attributes of a MongoDB
/// record.
fn mongo_id() -> Field {
    Field {
        serde: vec![SerdeAttr::List(vec![
            meta("rename", Some("_id")),
            meta("skip_serializing_if", Some("Id::is_none")),
        ])],
        ..field("id", id_of(vec![arg("Self"), arg("u32")]))
    }
}

fn user(fields: Vec<Field>, mongo: Option<MongoAttrs>) -> ModelInput {
    ModelInput { ident: "User".to_string(), fields, mongo }
}

#[test]
fn the_identifier_is_the_first_field_marked_or_named_id() {
    assert!(field("id", FieldType::Other).is_id());
    assert!(Field { id: true, ..field("key", FieldType::Other) }.is_id());
    assert!(!field("ID", FieldType::Other).is_id());
    assert!(!field("name", FieldType::Other).is_id());
    let fields = vec![
        field("name", FieldType::Other),
        Field { id: true, ..field("key", FieldType::Other) },
        field("id", FieldType::Other),
    ];
    assert_eq!(find_id_field(&fields), Some(1));
    assert_eq!(find_id_field(&fields[..1].to_vec()), None);
    assert_eq!(find_id_field(&vec![]), None);
}

#[test]
fn a_renamed_field_is_known_under_its_new_name() {
    assert_eq!(field("name", FieldType::Other).get_field_name(), "name");
    let renamed = Field { rename: Some("full_name".to_string()), ..field("name", FieldType::Other) };
    assert_eq!(renamed.get_field_name(), "full_name");
}

#[test]
fn a_path_is_an_identifier_when_it_is_nothing_else() {
    assert_eq!(plain("Address").get_ident(), Some(&"Address".to_string()));
    assert_eq!(TypePath { leading_colon: true, ..plain("Address") }.get_ident(), None);
    assert_eq!(TypePath { leading_colon: false, segments: vec![] }.get_ident(), None);
    let two = TypePath {
        leading_colon: false,
        segments: vec![
            Segment { ident: "a".to_string(), args: None },
            Segment { ident: "B".to_string(), args: None },
        ],
    };
    assert_eq!(two.get_ident(), None);
    let generic = TypePath {
        leading_colon: false,
        segments: vec![Segment { ident: "Vec".to_string(), args: Some(vec![arg("u8")]) }],
    };
    assert_eq!(generic.get_ident(), None);
    assert_eq!(PathShape { idents: vec!["u8".to_string()], plain: false }.get_ident(), None);
    assert_eq!(PathShape { idents: vec![], plain: true }.get_ident(), None);
}

#[test]
fn the_type_of_the_identifier_must_be_id_of_self() {
    let check = |ty: FieldType| {
        let f = Field { serde: mongo_id().serde, ..field("id", ty) };
        validate_id_field(&f, true)
    };
    assert_eq!(check(id_of(vec![arg("Self"), arg("u32")])), Ok(()));
    assert_eq!(check(FieldType::Other), Err(DeriveError::IdNotAPath));
    assert_eq!(check(FieldType::ReferenceToPath(plain("Id"))), Err(DeriveError::IdNotAPath));
    assert_eq!(
        check(FieldType::Path(TypePath { leading_colon: false, segments: vec![] })),
        Err(DeriveError::IdTypeEmpty)
    );
    assert_eq!(check(FieldType::Path(plain("u32"))), Err(DeriveError::IdNotAnId));
    assert_eq!(check(FieldType::Path(plain("Id"))), Err(DeriveError::IdWithoutArguments));
    assert_eq!(
        check(id_of(vec![arg("User"), arg("u32")])),
        Err(DeriveError::FirstArgumentNotSelf)
    );
    assert_eq!(
        check(id_of(vec![ArgKind::Other, arg("u32")])),
        Err(DeriveError::FirstArgumentNotSelf)
    );
    assert_eq!(
        check(id_of(vec![
            ArgKind::Path(PathShape { idents: vec!["Self".to_string()], plain: false }),
            arg("u32")
        ])),
        Err(DeriveError::FirstArgumentNotSelf)
    );
    let qualified = FieldType::Path(TypePath {
        leading_colon: false,
        segments: vec![
            Segment { ident: "musty".to_string(), args: None },
            Segment { ident: "Id".to_string(), args: Some(vec![arg("Self"), arg("u32")]) },
        ],
    });
    assert_eq!(check(qualified), Ok(()));
}

#[test]
fn the_value_type_is_the_last_argument_of_id() {
    let ty = |args| get_id_type(&field("id", id_of(args)));
    assert_eq!(ty(vec![arg("Self"), arg("ObjectId")]), Ok("ObjectId".to_string()));
    assert_eq!(ty(vec![arg("Self")]), Ok("Self".to_string()));
    assert_eq!(ty(vec![arg("Self"), ArgKind::Other]), Err(DeriveError::LastArgumentNotAType));
    assert_eq!(
        ty(vec![
            arg("Self"),
            ArgKind::Path(PathShape {
                idents: vec!["bson".to_string(), "ObjectId".to_string()],
                plain: true
            })
        ]),
        Err(DeriveError::LastArgumentNotAnIdent)
    );
    assert_eq!(get_id_type(&field("id", FieldType::Other)), Err(DeriveError::IdNotAPath));
    assert_eq!(
        get_id_type(&field("id", FieldType::Path(plain("Id")))),
        Err(DeriveError::IdWithoutArguments)
    );
}

#[test]
fn serde_attributes_are_read_in_order_until_one_cannot_be() {
    let metas = get_serde_attrs(&vec![
        SerdeAttr::List(vec![meta("rename", Some("_id")), meta("default", None)]),
        SerdeAttr::List(vec![]),
        SerdeAttr::List(vec![meta("skip", None)]),
    ])
    .unwrap();
    let names: Vec<(&str, Option<&str>)> =
        metas.iter().map(|m| (m.name.as_str(), m.value.as_deref())).collect();
    assert_eq!(names, vec![("rename", Some("_id")), ("default", None), ("skip", None)]);
    assert!(get_serde_attrs(&vec![]).unwrap().is_empty());
    assert_eq!(
        get_serde_attrs(&vec![SerdeAttr::List(vec![meta("a", None)]), SerdeAttr::Malformed])
            .unwrap_err(),
        DeriveError::MalformedAttribute
    );
    assert_eq!(
        get_serde_attrs(&vec![SerdeAttr::NotAList, SerdeAttr::Malformed]).unwrap_err(),
        DeriveError::AttributeNotAList
    );
    assert_eq!(
        get_serde_attrs(&vec![
            SerdeAttr::List(vec![meta("a", None), SerdeNested::Literal]),
            SerdeAttr::NotAList
        ])
        .unwrap_err(),
        DeriveError::UnexpectedLiteral
    );
}

#[test]
fn the_identifier_of_a_mongodb_record_is_renamed_and_skipped_when_none() {
    let ok = vec![smeta("rename", Some("_id")), smeta("skip_serializing_if", Some("Id::is_none"))];
    assert_eq!(validate_serde_id_attrs(&ok, true), Ok(()));
    let long = vec![
        smeta("skip_serializing_if", Some("musty::prelude::Id::is_none")),
        smeta("rename", Some("_id")),
    ];
    assert_eq!(validate_serde_id_attrs(&long, true), Ok(()));
    assert_eq!(
        validate_serde_id_attrs(&vec![smeta("rename", None)], true),
        Err(DeriveError::RenameUnreadable)
    );
    assert_eq!(
        validate_serde_id_attrs(&vec![smeta("rename", Some("id"))], true),
        Err(DeriveError::RenameNotUnderscoreId)
    );
    assert_eq!(
        validate_serde_id_attrs(&vec![smeta("skip_serializing_if", None)], true),
        Err(DeriveError::SkipUnreadable)
    );
    assert_eq!(
        validate_serde_id_attrs(&vec![smeta("skip_serializing_if", Some("is_none"))], true),
        Err(DeriveError::SkipNotIsNone)
    );
    assert_eq!(
        validate_serde_id_attrs(&vec![smeta("rename", Some("_id"))], true),
        Err(DeriveError::MissingMongoSerdeAttributes)
    );
    assert_eq!(
        validate_serde_id_attrs(&vec![smeta("skip_serializing_if", Some("Id::is_none"))], true),
        Err(DeriveError::MissingMongoSerdeAttributes)
    );
    assert_eq!(validate_serde_id_attrs(&vec![], true), Err(DeriveError::MissingMongoSerdeAttributes));
}

#[test]
fn once_both_attributes_were_seen_the_rest_is_not_looked_at() {
    let metas = vec![
        smeta("rename", Some("_id")),
        smeta("skip_serializing_if", Some("Id::is_none")),
        smeta("rename", Some("wrong")),
        smeta("skip_serializing_if", None),
    ];
    assert_eq!(validate_serde_id_attrs(&metas, true), Ok(()));
    let early = vec![smeta("rename", Some("wrong")), smeta("rename", Some("_id"))];
    assert_eq!(validate_serde_id_attrs(&early, true), Err(DeriveError::RenameNotUnderscoreId));
}

#[test]
fn another_record_needs_the_skip_alone_and_may_rename_as_it_likes() {
    let metas = vec![smeta("rename", Some("key")), smeta("skip_serializing_if", Some("Id::is_none"))];
    assert_eq!(validate_serde_id_attrs(&metas, false), Ok(()));
    assert_eq!(
        validate_serde_id_attrs(&vec![smeta("rename", None)], false),
        Err(DeriveError::MissingSerdeAttributes)
    );
    assert_eq!(validate_serde_id_attrs(&vec![], false), Err(DeriveError::MissingSerdeAttributes));
    let twice = vec![
        smeta("skip_serializing_if", Some("Id::is_none")),
        smeta("skip_serializing_if", Some("other")),
    ];
    assert_eq!(validate_serde_id_attrs(&twice, false), Err(DeriveError::SkipNotIsNone));
}

#[test]
fn each_field_gets_its_builder_method() {
    let name = field("name", FieldType::Path(plain("String")));
    assert!(matches!(
        expand_filter_struct_function(&name, true),
        Ok(FilterMethod::Field { name, id_type: None }) if name == "name"
    ));
    assert!(matches!(
        expand_filter_struct_function(&mongo_id(), true),
        Ok(FilterMethod::Field { name, id_type: Some(t) }) if name == "id" && t == "u32"
    ));
    assert!(matches!(
        expand_filter_struct_function(&mongo_id(), false),
        Ok(FilterMethod::Field { name, id_type: None }) if name == "id"
    ));
    let child = Field {
        child: true,
        rename: Some("home".to_string()),
        ..field("address", FieldType::Path(plain("Address")))
    };
    assert!(matches!(
        expand_filter_struct_function(&child, true),
        Ok(FilterMethod::Child { name, child_filter }) if name == "home" && child_filter == "AddressFilter"
    ));
    let by_ref = Field { child: true, ..field("address", FieldType::ReferenceToPath(plain("Address"))) };
    assert!(matches!(
        expand_filter_struct_function(&by_ref, false),
        Ok(FilterMethod::Child { child_filter, .. }) if child_filter == "AddressFilter"
    ));
    let tuple = Field { child: true, ..field("address", FieldType::Other) };
    assert_eq!(
        expand_filter_struct_function(&tuple, true).unwrap_err(),
        DeriveError::ChildNotAPath
    );
    let qualified = Field {
        child: true,
        ..field("address", FieldType::Path(TypePath { leading_colon: true, ..plain("Address") }))
    };
    assert_eq!(
        expand_filter_struct_function(&qualified, true).unwrap_err(),
        DeriveError::ChildNotAnIdent
    );
    let bad_id = field("id", id_of(vec![arg("Self"), ArgKind::Other]));
    assert_eq!(
        expand_filter_struct_function(&bad_id, true).unwrap_err(),
        DeriveError::LastArgumentNotAType
    );
}

#[test]
fn the_builder_has_a_method_for_each_field_that_is_not_skipped() {
    let fields = vec![
        mongo_id(),
        field("name", FieldType::Path(plain("String"))),
        Field { skip: true, child: true, ..field("secret", FieldType::Other) },
        Field { child: true, ..field("address", FieldType::Path(plain("Address"))) },
    ];
    let plan = expand_filter_struct("User", &fields, true).unwrap();
    assert_eq!(plan.struct_name, "UserFilter");
    assert_eq!(plan.methods.len(), 3);
    assert!(matches!(&plan.methods[0], FilterMethod::Field { name, id_type: Some(t) } if name == "id" && t == "u32"));
    assert!(matches!(&plan.methods[1], FilterMethod::Field { name, id_type: None } if name == "name"));
    assert!(matches!(&plan.methods[2], FilterMethod::Child { name, .. } if name == "address"));
    let broken = vec![
        Field { child: true, ..field("a", FieldType::Other) },
        Field { child: true, ..field("b", FieldType::Path(TypePath { leading_colon: true, ..plain("B") })) },
    ];
    assert_eq!(expand_filter_struct("User", &broken, false).unwrap_err(), DeriveError::ChildNotAPath);
    assert!(expand_filter_struct("Empty", &vec![], false).unwrap().methods.is_empty());
}

#[test]
fn getters_are_named_after_their_field() {
    let fields = vec![
        Field { get: Some(GetAttr { name: None }), ..field("name", FieldType::Other) },
        field("age", FieldType::Other),
        Field {
            get: Some(GetAttr { name: Some("by_mail".to_string()) }),
            rename: Some("mail".to_string()),
            skip: true,
            ..field("email", FieldType::Other)
        },
    ];
    let getters = expand_mongo_fields_impl(&fields);
    let names: Vec<(&str, &str)> =
        getters.iter().map(|g| (g.name.as_str(), g.field_name.as_str())).collect();
    assert_eq!(names, vec![("get_by_name", "name"), ("by_mail", "mail")]);
    assert!(expand_mongo_fields_impl(&vec![]).is_empty());
}

#[test]
fn a_mongodb_record_gets_its_whole_plan() {
    let input = user(
        vec![
            Field { get: Some(GetAttr { name: None }), ..field("name", FieldType::Path(plain("String"))) },
            mongo_id(),
            Field { child: true, ..field("address", FieldType::Path(plain("Address"))) },
        ],
        Some(MongoAttrs { collection: None }),
    );
    let plan = expand(&input).unwrap();
    assert_eq!(plan.id_type, "u32");
    assert_eq!(plan.filter.struct_name, "UserFilter");
    assert_eq!(plan.filter.methods.len(), 3);
    let mongo = plan.mongo.unwrap();
    assert_eq!(mongo.collection_name, "users");
    assert_eq!(mongo.getters.len(), 1);
    assert_eq!(mongo.getters[0].name, "get_by_name");

    let named = ModelInput {
        mongo: Some(MongoAttrs { collection: Some("people".to_string()) }),
        ..input.clone()
    };
    assert_eq!(expand(&named).unwrap().mongo.unwrap().collection_name, "people");
    assert_eq!(MongoAttrs::default().collection, None);
}

#[test]
fn another_record_gets_no_mongodb_part() {
    let id = Field {
        serde: vec![SerdeAttr::List(vec![meta("skip_serializing_if", Some("Id::is_none"))])],
        ..field("id", id_of(vec![arg("Self"), arg("String")]))
    };
    let plan = expand(&user(vec![id], None)).unwrap();
    assert_eq!(plan.id_type, "String");
    assert!(plan.mongo.is_none());
    assert_eq!(plan.filter.methods.len(), 1);
}

#[test]
fn what_is_wrong_with_a_record_is_found_in_order() {
    let e = |fields, mongo| expand(&user(fields, mongo)).unwrap_err();
    assert_eq!(e(vec![], None), DeriveError::MissingId);
    assert_eq!(e(vec![field("name", FieldType::Other)], None), DeriveError::MissingId);
    let broken_child = Field { child: true, ..field("address", FieldType::Other) };
    assert_eq!(
        e(vec![broken_child.clone(), field("id", FieldType::Other)], None),
        DeriveError::IdNotAPath
    );
    assert_eq!(
        e(vec![broken_child.clone(), field("id", id_of(vec![arg("Self"), arg("u32")]))], None),
        DeriveError::MissingSerdeAttributes
    );
    // The attributes of a MongoDB record's identifier do for another record too.
    assert_eq!(e(vec![broken_child.clone(), mongo_id()], None), DeriveError::ChildNotAPath);
    let unreadable = Field { serde: vec![SerdeAttr::Malformed], ..mongo_id() };
    assert_eq!(e(vec![unreadable], Some(MongoAttrs::default())), DeriveError::MalformedAttribute);
    let no_value_type = Field { ty: id_of(vec![arg("Self"), ArgKind::Other]), ..mongo_id() };
    assert_eq!(
        e(vec![broken_child, no_value_type], Some(MongoAttrs::default())),
        DeriveError::LastArgumentNotAType
    );
}

#[test]
fn every_error_has_its_text() {
    assert_eq!(DeriveError::MissingId.message(), " must have an `id` field");
    assert_eq!(DeriveError::IdNotAPath.message(), "`id` field must be a path");
    assert_eq!(DeriveError::IdTypeEmpty.message(), "Id type is empty");
    assert_eq!(
        DeriveError::IdNotAnId.message(),
        "`id` field must be of type `musty::prelude::Id`"
    );
    assert!(DeriveError::IdWithoutArguments.message().starts_with("Id type must have generic"));
    assert!(DeriveError::FirstArgumentNotSelf.message().starts_with("First generic argument"));
    assert!(DeriveError::LastArgumentNotAType.message().ends_with("`Id<Self, YourIdType>`"));
    assert!(DeriveError::LastArgumentNotAnIdent.message().contains("should be an ident"));
    assert_eq!(DeriveError::MalformedAttribute.message(), "malformed attribute");
    assert!(DeriveError::AttributeNotAList.message().ends_with("`#[serde(...)]`"));
    assert_eq!(DeriveError::UnexpectedLiteral.message(), "unexpected literal value");
    assert_eq!(DeriveError::RenameUnreadable.message(), "Failed to parse serde attr `rename`");
    assert_eq!(
        DeriveError::RenameNotUnderscoreId.message(),
        "The `rename` attribute for a MongoDB model must be `#[serde(rename = \"_id\")]`"
    );
    assert_eq!(
        DeriveError::SkipUnreadable.message(),
        "Failed to parse serde attr `skip_serializing_if`"
    );
    assert_eq!(
        DeriveError::SkipNotIsNone.message(),
        "The `skip_serializing_if` attribute must be `#[serde(skip_serializing_if = \"Id::is_none\")]`"
    );
    assert_eq!(
        DeriveError::MissingMongoSerdeAttributes.message(),
        "The `id` field must have the following serde attributes: `#[serde(rename = \"_id\", skip_serializing_if = \"Id::is_none\")]`"
    );
    assert_eq!(
        DeriveError::MissingSerdeAttributes.message(),
        "The `id` field must have the following serde attributes: `#[serde(skip_serializing_if = \"Id::is_none\")]`"
    );
    assert_eq!(DeriveError::RawIdNotAPath.message(), " `id` field must be path");
    assert_eq!(DeriveError::IdNotAnIdType.message(), " `id` field must be an Id");
    assert_eq!(DeriveError::IdArgumentUnreadable.message(), "");
    assert_eq!(DeriveError::ChildNotAPath.message(), "Child field must be a path or ref");
    assert_eq!(DeriveError::ChildNotAnIdent.message(), "Type must be an in-scope ident");
}

#[test]
fn a_struct_is_rewritten_around_its_identifier() {
    let fields = vec![
        field("name", FieldType::Path(plain("String"))),
        field("id", FieldType::Path(plain("MyId"))),
        Field { id: true, ..field("other", FieldType::Other) },
        field("age", FieldType::Other),
    ];
    assert_eq!(get_model_id_type(&fields), Ok(1));
    let plan = create_model_struct(&fields, 1, true);
    assert_eq!(plan.id_field, 1);
    assert_eq!(plan.id_attr, IdAttr::MongoId);
    assert_eq!(plan.kept, vec![0, 3]);
    assert_eq!(create_model_struct(&fields, 1, false).id_attr, IdAttr::Skip);
    assert_eq!(get_model_id_type(&vec![]), Err(DeriveError::MissingId));
    assert_eq!(
        get_model_id_type(&vec![field("id", FieldType::ReferenceToPath(plain("MyId")))]),
        Err(DeriveError::RawIdNotAPath)
    );

    let plan = musty::derive::rewrite::expand(&user(fields.clone(), Some(MongoAttrs::default())))
        .unwrap();
    assert_eq!(plan.rewritten.id_field, 1);
    assert_eq!(plan.rewritten.id_attr, IdAttr::MongoId);
    assert_eq!(plan.collection_name.as_deref(), Some("users"));
    let plan = musty::derive::rewrite::expand(&user(fields, None)).unwrap();
    assert_eq!(plan.rewritten.id_attr, IdAttr::Skip);
    assert_eq!(plan.collection_name, None);
    assert_eq!(
        musty::derive::rewrite::expand(&user(vec![], None)).unwrap_err(),
        DeriveError::MissingId
    );
}

#[test]
fn an_identifier_type_with_one_argument_has_the_default_value_type() {
    let ty = |t| get_defaulted_id_type(&vec![field("name", FieldType::Other), field("id", t)]);
    assert!(matches!(ty(id_of(vec![arg("Self")])), Ok(IdType::Default)));
    assert!(matches!(ty(id_of(vec![ArgKind::Other])), Ok(IdType::Default)));
    assert!(
        matches!(ty(id_of(vec![arg("Self"), arg("ObjectId")])), Ok(IdType::Named(n)) if n == "ObjectId")
    );
    let qualified = ArgKind::Path(PathShape {
        idents: vec!["bson".to_string(), "ObjectId".to_string()],
        plain: true,
    });
    assert!(matches!(ty(id_of(vec![arg("Self"), qualified])), Ok(IdType::Named(n)) if n == "bson"));
    assert!(matches!(
        ty(id_of(vec![arg("Self"), ArgKind::Other])),
        Err(DeriveError::IdArgumentUnreadable)
    ));
    assert!(matches!(ty(FieldType::Path(plain("Id"))), Err(DeriveError::IdNotAnIdType)));
    assert!(matches!(ty(FieldType::Other), Err(DeriveError::IdNotAnIdType)));
    assert!(matches!(
        get_defaulted_id_type(&vec![Field { id: true, ..field("key", FieldType::Other) }]),
        Err(DeriveError::MissingId)
    ));
}
