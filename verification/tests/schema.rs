use serde_env_field::classify::is_type;
use serde_env_field::directive::{take_env_field_wrap_attr, WrapAttr};
use serde_env_field::env_field_wrap;
use serde_env_field::rewrite::{
    enum_env_field_wrap, process_field, process_fields, process_variants, rewrite_type,
    wrap_fields, SchemaError,
};
use serde_env_field::schema::{QSelf, 
    Attribute, Data, Field, Fields, GenericArg, MetaKind, PathArguments, PathSegment, Schema,
    TypeExpr, TypePath, Variant,
};
use serde_env_field::transform::{wrap, wrap_generics_only, Fault};

fn plain(ident: &str) -> PathSegment {
    PathSegment { ident: ident.to_string(), arguments: PathArguments::Plain }
}

fn angle(ident: &str, args: Vec<TypeExpr>) -> PathSegment {
    PathSegment {
        ident: ident.to_string(),
        arguments: PathArguments::AngleBracketed(args.into_iter().map(GenericArg::Type).collect()),
    }
}

fn path(leading_colon: bool, segments: Vec<PathSegment>) -> TypeExpr {
    TypeExpr::Path(TypePath { qself: None, leading_colon, segments })
}

fn named(ident: &str) -> TypeExpr {
    path(false, vec![plain(ident)])
}

fn generic(ident: &str, args: Vec<TypeExpr>) -> TypeExpr {
    path(false, vec![angle(ident, args)])
}

fn env_field(inner: TypeExpr) -> TypeExpr {
    path(true, vec![plain("serde_env_field"), angle("EnvField", vec![inner])])
}

fn directive(tokens: &str) -> Attribute {
    Attribute {
        kind: MetaKind::List,
        ident: Some("env_field_wrap".to_string()),
        tokens: tokens.to_string(),
        text: format!("#[env_field_wrap({tokens})]"),
    }
}

fn serde_default() -> Attribute {
    Attribute {
        kind: MetaKind::List,
        ident: Some("serde".to_string()),
        tokens: "default".to_string(),
        text: "#[serde(default)]".to_string(),
    }
}

fn doc() -> Attribute {
    Attribute {
        kind: MetaKind::NameValue,
        ident: Some("doc".to_string()),
        tokens: String::new(),
        text: "#[doc = \"text\"]".to_string(),
    }
}

fn field(ident: &str, attrs: Vec<Attribute>, ty: TypeExpr) -> Field {
    Field { attrs, vis: "pub".to_string(), ident: Some(ident.to_string()), ty }
}

fn tuple_field(attrs: Vec<Attribute>, ty: TypeExpr) -> Field {
    Field { attrs, vis: String::new(), ident: None, ty }
}

fn fault(fault: Fault, variant: Option<usize>, field: Option<usize>) -> SchemaError {
    SchemaError { fault, variant, field, detail: String::new() }
}

#[test]
fn whole_type_is_wrapped() {
    assert_eq!(wrap(named("String")), env_field(named("String")));
    let reference = TypeExpr::Other("&'static str".to_string());
    assert_eq!(
        wrap(TypeExpr::Other("&'static str".to_string())),
        env_field(reference)
    );
    assert_eq!(rewrite_type(None, named("usize")), Ok(env_field(named("usize"))));
    assert_eq!(
        rewrite_type(None, generic("HashMap", vec![named("String"), named("i32")])),
        Ok(env_field(generic("HashMap", vec![named("String"), named("i32")])))
    );
}

#[test]
fn types_are_recognised_by_spelling_only() {
    let options = ["Option", "std::option::Option", "core::option::Option"];
    assert!(is_type(&generic("Option", vec![named("i32")]), &options));
    assert!(is_type(&named("Option"), &options));
    assert!(is_type(
        &path(false, vec![plain("std"), plain("option"), angle("Option", vec![named("i32")])]),
        &options
    ));
    assert!(is_type(
        &path(true, vec![plain("core"), plain("option"), angle("Option", vec![named("i32")])]),
        &options
    ));
    assert!(!is_type(&path(false, vec![plain("option"), plain("Option")]), &options));
    assert!(!is_type(&named("Optional"), &options));
    assert!(!is_type(&named("option"), &options));
    assert!(!is_type(&TypeExpr::Other("Option".to_string()), &options));
    assert!(!is_type(&path(false, vec![]), &options));
    assert!(!is_type(&named("Option"), &[]));
    let qualified = TypeExpr::Path(TypePath {
        qself: Some(QSelf { ty: "T".to_string(), position: 1 }),
        leading_colon: false,
        segments: vec![plain("Option")],
    });
    assert!(!is_type(&qualified, &options));
}

#[test]
fn optional_and_vector_fields_keep_their_shape() {
    assert_eq!(
        rewrite_type(None, generic("Option", vec![named("i32")])),
        Ok(generic("Option", vec![env_field(named("i32"))]))
    );
    assert_eq!(
        rewrite_type(None, generic("Vec", vec![named("bool")])),
        Ok(generic("Vec", vec![env_field(named("bool"))]))
    );
    assert_eq!(
        rewrite_type(
            None,
            path(false, vec![plain("std"), plain("vec"), angle("Vec", vec![named("bool")])])
        ),
        Ok(path(
            false,
            vec![plain("std"), plain("vec"), angle("Vec", vec![env_field(named("bool"))])]
        ))
    );
    assert_eq!(
        rewrite_type(
            None,
            path(true, vec![plain("alloc"), plain("vec"), angle("Vec", vec![named("u8")])])
        ),
        Ok(path(true, vec![plain("alloc"), plain("vec"), angle("Vec", vec![env_field(named("u8"))])]))
    );
    assert_eq!(rewrite_type(None, named("Option")), Err(Fault::NoGenerics));
}

#[test]
fn already_wrapped_field_is_left_alone() {
    let bare = generic("EnvField", vec![named("String")]);
    assert_eq!(rewrite_type(None, generic("EnvField", vec![named("String")])), Ok(bare));
    let full = path(false, vec![plain("serde_env_field"), angle("EnvField", vec![named("i32")])]);
    assert_eq!(
        rewrite_type(
            None,
            path(false, vec![plain("serde_env_field"), angle("EnvField", vec![named("i32")])])
        ),
        Ok(full)
    );
    let twice = rewrite_type(None, rewrite_type(None, named("i32")).unwrap());
    assert_eq!(twice, Ok(env_field(named("i32"))));
}

#[test]
fn skip_keeps_any_type() {
    assert_eq!(rewrite_type(Some(WrapAttr::Skip), named("String")), Ok(named("String")));
    assert_eq!(
        rewrite_type(Some(WrapAttr::Skip), generic("Option", vec![named("i32")])),
        Ok(generic("Option", vec![named("i32")]))
    );
    assert_eq!(
        rewrite_type(Some(WrapAttr::Skip), TypeExpr::Other("(A, B)".to_string())),
        Ok(TypeExpr::Other("(A, B)".to_string()))
    );
}

#[test]
fn generics_only_wraps_each_argument() {
    assert_eq!(
        wrap_generics_only(generic("TwoGenerics", vec![named("String"), named("i32")])),
        Ok(generic("TwoGenerics", vec![env_field(named("String")), env_field(named("i32"))]))
    );
    assert_eq!(
        rewrite_type(
            Some(WrapAttr::GenericsOnly),
            generic("Container", vec![named("A"), named("B")])
        ),
        Ok(generic("Container", vec![env_field(named("A")), env_field(named("B"))]))
    );
    assert_eq!(
        wrap_generics_only(generic(
            "Generics",
            vec![named("String"), generic("EnvField", vec![named("Variants")])]
        )),
        Ok(generic(
            "Generics",
            vec![
                env_field(named("String")),
                env_field(generic("EnvField", vec![named("Variants")]))
            ]
        ))
    );
    assert_eq!(
        wrap_generics_only(path(
            true,
            vec![plain("my"), plain("types"), angle("Pair", vec![named("A")])]
        )),
        Ok(path(true, vec![plain("my"), plain("types"), angle("Pair", vec![env_field(named("A"))])]))
    );
}

#[test]
fn generics_only_refuses_what_has_no_type_arguments() {
    assert_eq!(wrap_generics_only(named("String")), Err(Fault::NoGenerics));
    assert_eq!(wrap_generics_only(generic("Empty", vec![])), Err(Fault::NoGenerics));
    assert_eq!(wrap_generics_only(path(false, vec![])), Err(Fault::NoGenerics));
    assert_eq!(
        wrap_generics_only(TypeExpr::Other("[u8; 4]".to_string())),
        Err(Fault::NotAPath)
    );
    let qualified = TypeExpr::Path(TypePath {
        qself: Some(QSelf { ty: "T".to_string(), position: 1 }),
        leading_colon: false,
        segments: vec![plain("Trait"), angle("Assoc", vec![named("A")])],
    });
    assert_eq!(wrap_generics_only(qualified), Err(Fault::QualifiedSelf));
    let lifetime = path(
        false,
        vec![PathSegment {
            ident: "Cow".to_string(),
            arguments: PathArguments::AngleBracketed(vec![
                GenericArg::Type(named("A")),
                GenericArg::Other("'a".to_string()),
            ]),
        }],
    );
    assert_eq!(wrap_generics_only(lifetime), Err(Fault::NonTypeArgument));
    let function = path(
        false,
        vec![PathSegment {
            ident: "Fn".to_string(),
            arguments: PathArguments::Parenthesized("(A) -> B".to_string()),
        }],
    );
    assert_eq!(wrap_generics_only(function), Err(Fault::UnexpectedArguments));
    let both = path(
        false,
        vec![
            PathSegment {
                ident: "Fn".to_string(),
                arguments: PathArguments::Parenthesized("(A)".to_string()),
            },
            PathSegment {
                ident: "Cow".to_string(),
                arguments: PathArguments::AngleBracketed(vec![GenericArg::Other("'a".to_string())]),
            },
        ],
    );
    assert_eq!(wrap_generics_only(both), Err(Fault::UnexpectedArguments));
}

#[test]
fn directive_is_taken_off_and_nothing_else() {
    let mut attrs = vec![serde_default(), doc(), directive("skip"), directive("generics_only")];
    assert_eq!(take_env_field_wrap_attr(&mut attrs), Ok(Some(WrapAttr::Skip)));
    assert_eq!(attrs, vec![serde_default(), doc(), directive("generics_only")]);
    assert_eq!(take_env_field_wrap_attr(&mut attrs), Ok(Some(WrapAttr::GenericsOnly)));
    assert_eq!(attrs, vec![serde_default(), doc()]);
    assert_eq!(take_env_field_wrap_attr(&mut attrs), Ok(None));
    assert_eq!(attrs, vec![serde_default(), doc()]);
    let mut none: Vec<Attribute> = vec![];
    assert_eq!(take_env_field_wrap_attr(&mut none), Ok(None));
}

#[test]
fn only_a_list_under_the_right_name_is_a_directive() {
    let bare = Attribute {
        kind: MetaKind::Path,
        ident: Some("env_field_wrap".to_string()),
        tokens: String::new(),
        text: "#[env_field_wrap]".to_string(),
    };
    let pathed = Attribute {
        kind: MetaKind::List,
        ident: None,
        tokens: "skip".to_string(),
        text: "#[serde_env_field::env_field_wrap(skip)]".to_string(),
    };
    let mut attrs = vec![bare, pathed];
    assert_eq!(take_env_field_wrap_attr(&mut attrs), Ok(None));
    assert_eq!(attrs.len(), 2);
}

#[test]
fn unknown_directive_is_an_error_that_names_it() {
    let mut attrs = vec![doc(), directive("skipp")];
    assert_eq!(take_env_field_wrap_attr(&mut attrs), Err("skipp".to_string()));
    let err = process_field(field("a", vec![directive("wrap_all")], named("i32"))).unwrap_err();
    assert_eq!(
        err,
        SchemaError {
            fault: Fault::UnknownDirective,
            variant: None,
            field: None,
            detail: "wrap_all".to_string()
        }
    );
    assert_eq!(err.message(), "unsupported `env_field_wrap` directive: wrap_all");
}

#[test]
fn field_keeps_everything_but_its_type_and_directive() {
    let out = process_field(field("name", vec![doc(), directive("skip"), serde_default()], named("String")));
    assert_eq!(out, Ok(field("name", vec![doc(), serde_default()], named("String"))));
    let out = process_field(field("size", vec![serde_default()], named("usize")));
    assert_eq!(out, Ok(field("size", vec![serde_default()], env_field(named("usize")))));
    let out = process_field(tuple_field(vec![], generic("Option", vec![named("i32")])));
    assert_eq!(out, Ok(tuple_field(vec![], generic("Option", vec![env_field(named("i32"))]))));
}

#[test]
fn fields_are_rewritten_in_order_and_fail_at_the_first_fault() {
    let out = process_fields(vec![
        field("wrapped", vec![], named("String")),
        field("skipped", vec![directive("skip")], named("String")),
    ]);
    assert_eq!(
        out,
        Ok(vec![
            field("wrapped", vec![], env_field(named("String"))),
            field("skipped", vec![], named("String")),
        ])
    );
    let out = process_fields(vec![
        field("a", vec![], named("String")),
        field("b", vec![directive("generics_only")], named("String")),
        field("c", vec![directive("bogus")], named("String")),
    ]);
    assert_eq!(out, Err(fault(Fault::NoGenerics, None, Some(1))));
    assert_eq!(process_fields(vec![]), Ok(vec![]));
}

#[test]
fn fields_of_every_shape() {
    assert_eq!(wrap_fields(Fields::Unit), Ok(Fields::Unit));
    assert_eq!(
        wrap_fields(Fields::Named(vec![field("a", vec![], named("i32"))])),
        Ok(Fields::Named(vec![field("a", vec![], env_field(named("i32")))]))
    );
    assert_eq!(
        wrap_fields(Fields::Unnamed(vec![
            tuple_field(vec![directive("generics_only")], generic("TwoGenerics", vec![named("i32"), named("bool")])),
            tuple_field(vec![directive("skip")], named("String")),
            tuple_field(vec![], generic("Option", vec![named("i32")])),
            tuple_field(vec![], generic("Vec", vec![named("bool")])),
        ])),
        Ok(Fields::Unnamed(vec![
            tuple_field(vec![], generic("TwoGenerics", vec![env_field(named("i32")), env_field(named("bool"))])),
            tuple_field(vec![], named("String")),
            tuple_field(vec![], generic("Option", vec![env_field(named("i32"))])),
            tuple_field(vec![], generic("Vec", vec![env_field(named("bool"))])),
        ]))
    );
    assert_eq!(
        wrap_fields(Fields::Unnamed(vec![tuple_field(vec![], named("Vec"))])),
        Err(fault(Fault::NoGenerics, None, Some(0)))
    );
}

fn variants() -> Vec<Variant> {
    vec![
        Variant {
            attrs: vec![],
            ident: "Wrapped".to_string(),
            fields: Fields::Unnamed(vec![tuple_field(vec![], named("String"))]),
            discriminant: None,
        },
        Variant {
            attrs: vec![doc(), directive("skip")],
            ident: "Skipped".to_string(),
            fields: Fields::Named(vec![field(
                "inner_str",
                vec![directive("generics_only")],
                named("String"),
            )]),
            discriminant: Some("1 + 1".to_string()),
        },
        Variant {
            attrs: vec![],
            ident: "Inner".to_string(),
            fields: Fields::Unnamed(vec![
                tuple_field(vec![directive("skip")], named("String")),
                tuple_field(vec![], generic("Option", vec![named("i32")])),
            ]),
            discriminant: None,
        },
        Variant { attrs: vec![], ident: "Empty".to_string(), fields: Fields::Unit, discriminant: None },
    ]
}

fn variants_rewritten() -> Vec<Variant> {
    vec![
        Variant {
            attrs: vec![],
            ident: "Wrapped".to_string(),
            fields: Fields::Unnamed(vec![tuple_field(vec![], env_field(named("String")))]),
            discriminant: None,
        },
        Variant {
            attrs: vec![doc()],
            ident: "Skipped".to_string(),
            fields: Fields::Named(vec![field(
                "inner_str",
                vec![directive("generics_only")],
                named("String"),
            )]),
            discriminant: Some("1 + 1".to_string()),
        },
        Variant {
            attrs: vec![],
            ident: "Inner".to_string(),
            fields: Fields::Unnamed(vec![
                tuple_field(vec![], named("String")),
                tuple_field(vec![], generic("Option", vec![env_field(named("i32"))])),
            ]),
            discriminant: None,
        },
        Variant { attrs: vec![], ident: "Empty".to_string(), fields: Fields::Unit, discriminant: None },
    ]
}

#[test]
fn skipped_variant_is_kept_and_its_siblings_are_wrapped() {
    assert_eq!(process_variants(variants()), Ok(variants_rewritten()));
    assert_eq!(enum_env_field_wrap(variants()), Ok(Data::Enum(variants_rewritten())));
}

#[test]
fn generics_only_on_a_variant_is_refused() {
    let mut all = variants();
    all.push(Variant {
        attrs: vec![directive("generics_only")],
        ident: "Bad".to_string(),
        fields: Fields::Unit,
        discriminant: None,
    });
    let err = process_variants(all).unwrap_err();
    assert_eq!(err, fault(Fault::GenericsOnlyOnVariant, Some(4), None));
    assert_eq!(
        err.message(),
        "`generics_only` is supported only for fields, not for enum variants"
    );
}

#[test]
fn fault_in_a_variant_is_placed_on_variant_and_field() {
    let all = vec![
        Variant { attrs: vec![], ident: "Fine".to_string(), fields: Fields::Unit, discriminant: None },
        Variant {
            attrs: vec![],
            ident: "Broken".to_string(),
            fields: Fields::Unnamed(vec![
                tuple_field(vec![], named("i32")),
                tuple_field(vec![directive("generics_only")], TypeExpr::Other("(A, B)".to_string())),
            ]),
            discriminant: None,
        },
        Variant { attrs: vec![directive("other")], ident: "Later".to_string(), fields: Fields::Unit, discriminant: None },
    ];
    assert_eq!(process_variants(all), Err(fault(Fault::NotAPath, Some(1), Some(1))));
    let unknown = vec![Variant {
        attrs: vec![directive("other")],
        ident: "Later".to_string(),
        fields: Fields::Unit,
        discriminant: None,
    }];
    assert_eq!(
        process_variants(unknown),
        Err(SchemaError {
            fault: Fault::UnknownDirective,
            variant: Some(0),
            field: None,
            detail: "other".to_string()
        })
    );
}

fn schema(data: Data) -> Schema {
    Schema {
        attrs: vec![
            Attribute {
                kind: MetaKind::List,
                ident: Some("derive".to_string()),
                tokens: "Serialize, Deserialize".to_string(),
                text: "#[derive(Serialize, Deserialize)]".to_string(),
            },
            directive("skip"),
        ],
        vis: "pub(crate)".to_string(),
        ident: "Test".to_string(),
        generics: "<'a, T: Clone>".to_string(),
        where_clause: "where T: Default".to_string(),
        data,
    }
}

#[test]
fn struct_schema_is_rewritten_and_the_rest_is_kept() {
    let input = schema(Data::Struct(Fields::Named(vec![
        field("name", vec![], named("String")),
        field("size", vec![], named("usize")),
        field("optional", vec![], generic("Option", vec![named("i32")])),
        field("skipped", vec![directive("skip")], named("String")),
    ])));
    let expected = schema(Data::Struct(Fields::Named(vec![
        field("name", vec![], env_field(named("String"))),
        field("size", vec![], env_field(named("usize"))),
        field("optional", vec![], generic("Option", vec![env_field(named("i32"))])),
        field("skipped", vec![], named("String")),
    ])));
    assert_eq!(env_field_wrap("", input), Ok(expected));
    assert_eq!(
        env_field_wrap("", schema(Data::Struct(Fields::Unit))),
        Ok(schema(Data::Struct(Fields::Unit)))
    );
}

#[test]
fn enum_schema_is_rewritten() {
    assert_eq!(
        env_field_wrap("", schema(Data::Enum(variants()))),
        Ok(schema(Data::Enum(variants_rewritten())))
    );
}

#[test]
fn parameters_and_unions_are_refused() {
    let err = env_field_wrap("skip", schema(Data::Struct(Fields::Unit))).unwrap_err();
    assert_eq!(err, fault(Fault::UnexpectedParameters, None, None));
    assert_eq!(err.message(), "The `env_field_wrap` doesn't take any parameters");
    let err = env_field_wrap(" ", schema(Data::Union)).unwrap_err();
    assert_eq!(err, fault(Fault::UnexpectedParameters, None, None));
    let err = env_field_wrap("", schema(Data::Union)).unwrap_err();
    assert_eq!(err, fault(Fault::UnionNotSupported, None, None));
    assert_eq!(err.message(), "unions are not supported");
}

#[test]
fn fault_in_a_struct_stops_the_rewrite() {
    let input = schema(Data::Struct(Fields::Named(vec![
        field("fine", vec![], named("String")),
        field("broken", vec![directive("generics_only")], named("String")),
    ])));
    let err = env_field_wrap("", input).unwrap_err();
    assert_eq!(err, fault(Fault::NoGenerics, None, Some(1)));
    assert_eq!(err.message(), "generics_only: no generics found");
}

#[test]
fn every_fault_has_its_message() {
    let text = |f: Fault| fault(f, None, None).message();
    assert_eq!(text(Fault::QualifiedSelf), "generics_only: a plan type path with generics is expected");
    assert_eq!(text(Fault::NotAPath), "generics_only: a type with generic(s) is expected");
    assert_eq!(text(Fault::NonTypeArgument), "generics_only: a type is expected");
    assert_eq!(text(Fault::UnexpectedArguments), "generics_only: unexpected type arguments");
    assert_eq!(text(Fault::NoGenerics), "generics_only: no generics found");
}

#[test]
fn where_clause_and_discriminants_are_kept() {
    let input = Schema {
        attrs: vec![],
        vis: String::new(),
        ident: "S".to_string(),
        generics: "<T>".to_string(),
        where_clause: "where T: Clone".to_string(),
        data: Data::Struct(Fields::Named(vec![Field {
            attrs: vec![],
            vis: String::new(),
            ident: Some("x".to_string()),
            ty: named("T"),
        }])),
    };
    let out = env_field_wrap("", input).unwrap();
    assert_eq!(out.where_clause, "where T: Clone");
    assert_eq!(out.generics, "<T>");
    assert_eq!(
        out.data,
        Data::Struct(Fields::Named(vec![Field {
            attrs: vec![],
            vis: String::new(),
            ident: Some("x".to_string()),
            ty: env_field(named("T")),
        }]))
    );

    let numbered = |discriminant: &str, attrs: Vec<Attribute>| Variant {
        attrs,
        ident: "A".to_string(),
        fields: Fields::Unit,
        discriminant: Some(discriminant.to_string()),
    };
    let out = process_variants(vec![numbered("1", vec![]), numbered("2", vec![directive("skip")])]);
    assert_eq!(out, Ok(vec![numbered("1", vec![]), numbered("2", vec![])]));
}
