use buildstructor::analyze::{BuilderConfig, BuilderModel};
use buildstructor::codegen::codegen;
use buildstructor::error::DiagnosticKind;
use buildstructor::generics::{GenericParam, Generics, TypeParam};
use buildstructor::item::{FnArg, Pat, PatType, Receiver, ReturnType, Visibility};
use buildstructor::lower::{
    assemble_visibility, builder_visibility, field_type, lower, lower_with, replace_self,
    visibility_override, FieldType, VisibilityParts,
};
use buildstructor::syntax::{
    AngleBracketedGenericArguments, GenericArgument, Path, PathArguments, PathSegment, Span, Type,
    TypePath,
};

fn named(name: &str) -> Type {
    generic(name, vec![])
}

fn generic(name: &str, args: Vec<Type>) -> Type {
    let arguments = if args.is_empty() {
        PathArguments::Absent
    } else {
        PathArguments::AngleBracketed(AngleBracketedGenericArguments {
            colon2_token: false,
            args: args.into_iter().map(GenericArgument::Type).collect(),
        })
    };
    Type::Path(TypePath {
        qself: None,
        path: Path {
            leading_colon: false,
            segments: vec![PathSegment { ident: name.to_string(), arguments }],
        },
    })
}

fn typed(name: &str, ty: Type) -> FnArg {
    FnArg::Typed(PatType { attrs: vec![], pat: Pat::Ident(name.to_string()), ty })
}

fn no_generics() -> Generics {
    Generics { params: vec![], where_clause: None }
}

fn no_config() -> BuilderConfig {
    BuilderConfig { entry: None, exit: None, span: None, visibility: None, with_into: None }
}

fn model(delegate: &str, args: Vec<FnArg>, config: BuilderConfig) -> BuilderModel {
    BuilderModel {
        impl_name: "Foo".to_string(),
        impl_generics: no_generics(),
        delegate_name: delegate.to_string(),
        delegate_span: Span { id: 7 },
        delegate_generics: no_generics(),
        delegate_args: args,
        delegate_return_type: ReturnType::Type(named("Self")),
        is_async: false,
        vis: Visibility::Inherited,
        config,
        attributes: vec![],
        self_ty: named("Foo"),
    }
}

#[test]
fn field_kinds_follow_the_type_name() {
    assert_eq!(field_type(&named("usize")), FieldType::Regular);
    assert_eq!(field_type(&generic("Option", vec![named("usize")])), FieldType::Optional);
    assert_eq!(field_type(&generic("Vec", vec![named("usize")])), FieldType::Sequence);
    assert_eq!(field_type(&generic("VecDeque", vec![named("usize")])), FieldType::Sequence);
    assert_eq!(field_type(&generic("BinaryHeap", vec![named("usize")])), FieldType::Sequence);
    assert_eq!(field_type(&generic("MyStack", vec![named("usize")])), FieldType::Sequence);
    assert_eq!(field_type(&generic("RingBuffer", vec![named("usize")])), FieldType::Sequence);
    assert_eq!(field_type(&generic("HashSet", vec![named("usize")])), FieldType::Unique);
    assert_eq!(field_type(&generic("BTreeSet", vec![named("usize")])), FieldType::Unique);
    assert_eq!(
        field_type(&generic("HashMap", vec![named("usize"), named("usize")])),
        FieldType::Keyed
    );
    assert_eq!(field_type(&named("Roadmap")), FieldType::Regular);
    assert_eq!(field_type(&named("SiteMap")), FieldType::Keyed);
}

#[test]
fn a_constructor_called_new_gets_builder_and_build() {
    let ir = lower(model("new", vec![typed("simple", named("usize"))], no_config())).unwrap();
    assert_eq!(ir.builder_entry, "builder");
    assert_eq!(ir.builder_exit, "build");
    assert_eq!(ir.module_name, "__foo_new_builder");
    assert_eq!(ir.builder_name, "__FooBuilder");
    assert_eq!(ir.builder_return_type, ReturnType::Type(named("Foo")));
    assert_eq!(ir.vis, Visibility::Inherited);
    assert_eq!(
        ir.builder_vis,
        Visibility::Restricted { in_token: false, path: "super".to_string() }
    );
    assert_eq!(ir.builder_fields.len(), 1);
    assert_eq!(ir.builder_fields[0].name, "simple");
    assert!(!ir.builder_fields[0].ty_into);
}

#[test]
fn a_suffix_new_gives_a_prefixed_entry() {
    let ir = lower(model("try_new", vec![], no_config())).unwrap();
    assert_eq!(ir.builder_entry, "try_builder");
    assert_eq!(ir.builder_exit, "build");
}

#[test]
fn an_unconventional_name_needs_an_override() {
    let err = lower(model("create", vec![], no_config())).unwrap_err();
    assert_eq!(err.kind, DiagnosticKind::EntryNotDefaulted);
    assert_eq!(err.span, Span { id: 7 });
    assert_eq!(
        err.message,
        "#[builder(entry = \"<name>\")] cannot be defaulted for 'fn create' and must be specified via annotation"
    );
}

#[test]
fn a_receiver_needs_an_entry_and_defaults_to_call() {
    let receiver = FnArg::Receiver(Receiver { reference: Some(None), mutability: false, ty: None });
    let err = lower(model("new", vec![receiver], no_config())).unwrap_err();
    assert_eq!(err.kind, DiagnosticKind::EntryNotDefaulted);

    let receiver = FnArg::Receiver(Receiver { reference: Some(None), mutability: false, ty: None });
    let mut config = no_config();
    config.entry = Some("query".to_string());
    let ir = lower(model("run", vec![receiver], config)).unwrap();
    assert_eq!(ir.builder_entry, "query");
    assert_eq!(ir.builder_exit, "call");
    assert!(ir.implicit_lifetime);
    assert!(ir.receiver.is_some());
}

#[test]
fn a_visibility_override_is_parsed() {
    let mut config = no_config();
    config.visibility = Some("pub(crate)".to_string());
    let ir = lower(model("new", vec![], config)).unwrap();
    assert_eq!(ir.vis, Visibility::Restricted { in_token: false, path: "crate".to_string() });
    assert_eq!(
        ir.builder_vis,
        Visibility::Restricted { in_token: false, path: "crate".to_string() }
    );

    let mut config = no_config();
    config.visibility = Some("pub".to_string());
    let ir = lower(model("new", vec![], config)).unwrap();
    assert_eq!(ir.vis, Visibility::Public);

    let mut config = no_config();
    config.visibility = Some("not a visibility".to_string());
    let err = lower(model("new", vec![], config)).unwrap_err();
    assert_eq!(err.kind, DiagnosticKind::InvalidVisibility);
    assert_eq!(err.span, Span { id: 7 });
    assert!(!err.message.is_empty());
}

#[test]
fn the_path_of_a_restriction_is_written_from_its_names() {
    let restricted = |text: &str| {
        let mut config = no_config();
        config.visibility = Some(text.to_string());
        lower(model("new", vec![], config)).unwrap().vis
    };
    assert_eq!(
        restricted("pub(in crate::outer::inner)"),
        Visibility::Restricted { in_token: true, path: "crate::outer::inner".to_string() }
    );
    assert_eq!(
        restricted("pub ( in  crate :: outer ::inner )"),
        Visibility::Restricted { in_token: true, path: "crate::outer::inner".to_string() }
    );
    assert_eq!(
        restricted("pub(in ::outer::inner)"),
        Visibility::Restricted { in_token: true, path: "::outer::inner".to_string() }
    );
    assert_eq!(
        restricted("pub(in super::super)"),
        Visibility::Restricted { in_token: true, path: "super::super".to_string() }
    );
    assert_eq!(
        restricted("pub(super)"),
        Visibility::Restricted { in_token: false, path: "super".to_string() }
    );
    assert_eq!(
        restricted("pub(self)"),
        Visibility::Restricted { in_token: false, path: "self".to_string() }
    );
    assert_eq!(restricted(""), Visibility::Inherited);
    assert_eq!(restricted(" pub "), Visibility::Public);
}

#[test]
fn the_override_is_read_where_there_is_one() {
    assert_eq!(visibility_override(&model("new", vec![], no_config())), Ok(None));

    let mut config = no_config();
    config.visibility = Some("pub(crate)".to_string());
    assert_eq!(
        visibility_override(&model("new", vec![], config)),
        Ok(Some(Visibility::Restricted { in_token: false, path: "crate".to_string() }))
    );

    let mut config = no_config();
    config.visibility = Some(String::new());
    assert_eq!(visibility_override(&model("new", vec![], config)), Ok(Some(Visibility::Inherited)));

    let mut config = no_config();
    config.visibility = Some("pub(nowhere)".to_string());
    let err = visibility_override(&model("new", vec![], config)).unwrap_err();
    assert_eq!(err.kind, DiagnosticKind::InvalidVisibility);
    assert_eq!(err.span, Span { id: 7 });
}

#[test]
fn a_part_of_the_builder_takes_the_override_or_its_default() {
    let above = Visibility::Restricted { in_token: false, path: "super".to_string() };
    let hidden = model("new", vec![], no_config());
    assert_eq!(builder_visibility(&hidden, &hidden.vis, &hidden.vis), Ok(Visibility::Inherited));
    assert_eq!(builder_visibility(&hidden, &hidden.vis, &above), Ok(above.clone()));
    assert_eq!(builder_visibility(&hidden, &Visibility::Public, &above), Ok(above.clone()));

    let mut shown = model("new", vec![], no_config());
    shown.vis = Visibility::Public;
    assert_eq!(builder_visibility(&shown, &shown.vis, &above), Ok(Visibility::Public));
    assert_eq!(builder_visibility(&shown, &Visibility::Inherited, &above), Ok(Visibility::Inherited));

    shown.config.visibility = Some("pub(in crate::a)".to_string());
    let given = Visibility::Restricted { in_token: true, path: "crate::a".to_string() };
    assert_eq!(builder_visibility(&shown, &shown.vis, &above), Ok(given.clone()));
    assert_eq!(builder_visibility(&shown, &shown.vis, &shown.vis), Ok(given));

    shown.config.visibility = Some("pub pub".to_string());
    let err = builder_visibility(&shown, &shown.vis, &above).unwrap_err();
    assert_eq!(err.kind, DiagnosticKind::InvalidVisibility);
    assert_eq!(err.span, Span { id: 7 });
}

#[test]
fn both_visibilities_follow_the_override_that_was_read() {
    let above = Visibility::Restricted { in_token: false, path: "super".to_string() };
    let ir = lower_with(model("new", vec![], no_config()), None).unwrap();
    assert_eq!(ir.vis, Visibility::Inherited);
    assert_eq!(ir.builder_vis, above);
    assert_eq!(Ok(ir), lower(model("new", vec![], no_config())));

    let mut shown = model("new", vec![], no_config());
    shown.vis = Visibility::Public;
    let ir = lower_with(shown, None).unwrap();
    assert_eq!(ir.vis, Visibility::Public);
    assert_eq!(ir.builder_vis, Visibility::Public);

    let within = Visibility::Restricted { in_token: true, path: "crate::a".to_string() };
    let ir = lower_with(model("new", vec![], no_config()), Some(within.clone())).unwrap();
    assert_eq!(ir.vis, within);
    assert_eq!(ir.builder_vis, within);

    let ir = lower_with(model("new", vec![], no_config()), Some(Visibility::Inherited)).unwrap();
    assert_eq!(ir.vis, Visibility::Inherited);
    assert_eq!(ir.builder_vis, Visibility::Inherited);

    let mut config = no_config();
    config.visibility = Some("pub(in crate::a)".to_string());
    let read = lower(model("new", vec![], config)).unwrap();
    let mut config = no_config();
    config.visibility = Some("pub(in crate::a)".to_string());
    assert_eq!(Ok(read), lower_with(model("new", vec![], config), Some(within)));

    let err = lower_with(model("create", vec![], no_config()), Some(Visibility::Public)).unwrap_err();
    assert_eq!(err.kind, DiagnosticKind::EntryNotDefaulted);
    let mut config = no_config();
    config.visibility = Some("pub".to_string());
    let err = lower(model("create", vec![], config)).unwrap_err();
    assert_eq!(err.kind, DiagnosticKind::EntryNotDefaulted);
    let mut config = no_config();
    config.visibility = Some("pub pub".to_string());
    let err = lower(model("create", vec![], config)).unwrap_err();
    assert_eq!(err.kind, DiagnosticKind::InvalidVisibility);
}

#[test]
fn a_visibility_is_made_of_its_parts() {
    assert_eq!(assemble_visibility(VisibilityParts::Public), Visibility::Public);
    assert_eq!(assemble_visibility(VisibilityParts::Inherited), Visibility::Inherited);
    assert_eq!(
        assemble_visibility(VisibilityParts::Restricted {
            in_token: false,
            leading_colon: false,
            segments: vec!["crate".to_string()],
        }),
        Visibility::Restricted { in_token: false, path: "crate".to_string() }
    );
    assert_eq!(
        assemble_visibility(VisibilityParts::Restricted {
            in_token: true,
            leading_colon: true,
            segments: vec!["a".to_string(), "b".to_string(), "c".to_string()],
        }),
        Visibility::Restricted { in_token: true, path: "::a::b::c".to_string() }
    );
    assert_eq!(
        assemble_visibility(VisibilityParts::Restricted {
            in_token: true,
            leading_colon: false,
            segments: vec![],
        }),
        Visibility::Restricted { in_token: true, path: String::new() }
    );
}

#[test]
fn a_text_that_is_more_than_a_visibility_is_refused() {
    for text in ["pub fn", "pub(in )", "pub(in a::)", "private", "pub(crate) pub"] {
        let mut config = no_config();
        config.visibility = Some(text.to_string());
        let err = lower(model("new", vec![], config)).unwrap_err();
        assert_eq!(err.kind, DiagnosticKind::InvalidVisibility, "{text}");
    }
}

#[test]
fn floating_point_numbers_and_characters_take_no_implicit_conversion() {
    let scoped = Type::Path(TypePath {
        qself: None,
        path: Path {
            leading_colon: false,
            segments: vec![
                PathSegment { ident: "vec".to_string(), arguments: PathArguments::Absent },
                PathSegment {
                    ident: "Vec".to_string(),
                    arguments: PathArguments::AngleBracketed(AngleBracketedGenericArguments {
                        colon2_token: false,
                        args: vec![GenericArgument::Type(named("String"))],
                    }),
                },
            ],
        },
    });
    let ir = lower(model(
        "new",
        vec![
            typed("ratio", named("f64")),
            typed("half", named("f32")),
            typed("letter", named("char")),
            typed("name", named("String")),
            typed("ratios", generic("Vec", vec![named("f64")])),
            typed("letters", generic("Option", vec![named("char")])),
            typed("items", scoped),
        ],
        no_config(),
    ))
    .unwrap();
    assert!(!ir.builder_fields[0].ty_into);
    assert!(!ir.builder_fields[1].ty_into);
    assert!(!ir.builder_fields[2].ty_into);
    assert!(ir.builder_fields[3].ty_into);
    assert!(!ir.builder_fields[4].ty_into);
    assert!(!ir.builder_fields[4].generic_types.generic_into);
    assert!(!ir.builder_fields[5].generic_types.generic_into);
    assert_eq!(ir.builder_fields[6].field_type, FieldType::Regular);
    assert!(!ir.builder_fields[6].ty_into);
}

#[test]
fn a_leading_underscore_is_dropped_from_the_slot_name() {
    let ir = lower(model("new", vec![typed("_hidden", named("String"))], no_config())).unwrap();
    assert_eq!(ir.builder_fields[0].name, "hidden");
    assert!(ir.builder_fields[0].ty_into);
}

#[test]
fn implicit_conversion_can_be_switched_off() {
    let mut config = no_config();
    config.with_into = Some(false);
    let ir = lower(model("new", vec![typed("foo", named("String"))], config)).unwrap();
    assert!(!ir.builder_fields[0].ty_into);
}

#[test]
fn type_parameters_and_scalars_take_no_implicit_conversion() {
    let mut m = model(
        "new",
        vec![
            typed("a", named("T")),
            typed("b", named("u64")),
            typed("c", generic("Vec", vec![named("String")])),
            typed("d", generic("HashMap", vec![named("K"), named("String")])),
        ],
        no_config(),
    );
    m.impl_generics.params.push(GenericParam::Type(TypeParam {
        ident: "T".to_string(),
        bounds: vec![],
        default: None,
    }));
    m.delegate_generics.params.push(GenericParam::Type(TypeParam {
        ident: "K".to_string(),
        bounds: vec![],
        default: None,
    }));
    let ir = lower(m).unwrap();
    assert!(!ir.builder_fields[0].ty_into);
    assert!(!ir.builder_fields[1].ty_into);
    assert!(!ir.builder_fields[2].ty_into);
    assert_eq!(ir.builder_fields[2].generic_types.generic_type, Some(named("String")));
    assert!(ir.builder_fields[2].generic_types.generic_into);
    assert_eq!(ir.builder_fields[3].generic_types.key_type, Some(named("K")));
    assert!(!ir.builder_fields[3].generic_types.key_into);
    assert!(ir.builder_fields[3].generic_types.value_into);
}

#[test]
fn the_exit_returns_what_the_factory_returns() {
    let shapes = vec![
        (named("Self"), named("Foo")),
        (generic("Option", vec![named("Self")]), generic("Option", vec![named("Foo")])),
        (
            generic("Result", vec![named("Self"), named("String")]),
            generic("Result", vec![named("Foo"), named("String")]),
        ),
        (named("bool"), named("bool")),
    ];
    for is_async in [false, true] {
        for (declared, expected) in &shapes {
            let mut m = model("new", vec![], no_config());
            m.delegate_return_type = ReturnType::Type(declared.clone());
            m.is_async = is_async;
            let protocol = codegen(lower(m).unwrap()).unwrap();
            assert_eq!(protocol.exit.return_type, ReturnType::Type(expected.clone()));
            assert_eq!(protocol.exit.is_async, is_async);
            assert_eq!(protocol.exit.delegate_name, "new");
        }
    }
    let mut m = model("new", vec![], no_config());
    m.delegate_return_type = ReturnType::Default;
    assert_eq!(codegen(lower(m).unwrap()).unwrap().exit.return_type, ReturnType::Default);
}

#[test]
fn self_is_replaced_at_any_depth() {
    let ty = generic("Result", vec![generic("Box", vec![named("Self")]), named("String")]);
    let replaced = replace_self(&ty, &named("Foo"));
    assert_eq!(
        replaced,
        generic("Result", vec![generic("Box", vec![named("Foo")]), named("String")])
    );
    let tuple_target = Type::Verbatim("[u8; 4]".to_string());
    assert_eq!(replace_self(&named("Self"), &tuple_target), named("Self"));
}
