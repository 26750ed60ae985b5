use buildstructor::codegen::{call, operations, params};
use buildstructor::expr::{Expr, ExprPath, ExprTuple, Member};
use buildstructor::generics::{
    GenericParam, Generics, LifetimeParam, TypeParam, TypeParamBound, WhereClause,
};
use buildstructor::generics_ext::GenericsExt;
use buildstructor::item::{ReturnType, Visibility};
use buildstructor::lower::{
    effective_visibility, BuilderField, FieldType, GenericTypes, Ir,
};
use buildstructor::protocol::Action;
use buildstructor::syntax::{
    AngleBracketedGenericArguments, GenericArgument, Path, PathArguments, PathSegment, Punctuated,
    Type, TypePath, TypeTuple,
};
use buildstructor::utils::{
    get_ident, has_no_arguments, has_type_param, integer_type, path_to_string, scalar_type,
    AngleBracketedGenericArgumentsExt,
    ExprTupleExt, IdentExt, PunctuatedExt, TypeExt, TypeTupleExt,
};

fn segment(name: &str, args: Vec<GenericArgument>) -> PathSegment {
    let arguments = if args.is_empty() {
        PathArguments::Absent
    } else {
        PathArguments::AngleBracketed(AngleBracketedGenericArguments { colon2_token: false, args })
    };
    PathSegment { ident: name.to_string(), arguments }
}

fn path(segments: Vec<PathSegment>) -> Path {
    Path { leading_colon: false, segments }
}

fn named(name: &str) -> Type {
    generic(name, vec![])
}

fn generic(name: &str, args: Vec<Type>) -> Type {
    Type::Path(TypePath {
        qself: None,
        path: path(vec![segment(name, args.into_iter().map(GenericArgument::Type).collect())]),
    })
}

fn tuple(items: Vec<Type>, trailing: bool) -> TypeTuple {
    TypeTuple { elems: Punctuated { items, trailing } }
}

fn type_param(name: &str) -> GenericParam {
    GenericParam::Type(TypeParam { ident: name.to_string(), bounds: vec![], default: None })
}

fn lifetime_param(name: &str) -> GenericParam {
    GenericParam::Lifetime(LifetimeParam { lifetime: name.to_string(), bounds: vec![] })
}

fn generics(params: Vec<GenericParam>, predicates: Option<Vec<&str>>) -> Generics {
    Generics {
        params,
        where_clause: predicates
            .map(|p| WhereClause { predicates: p.into_iter().map(|s| s.to_string()).collect() }),
    }
}

fn variable(name: &str) -> Expr {
    Expr::Path(ExprPath { path: path(vec![segment(name, vec![])]) })
}

fn field(name: &str, field_type: FieldType, ty: Type) -> BuilderField {
    BuilderField {
        name: name.to_string(),
        field_type,
        ty,
        ty_into: false,
        generic_types: GenericTypes {
            key_type: None,
            key_into: false,
            value_type: None,
            value_into: false,
            generic_type: None,
            generic_into: false,
        },
        doc: vec![],
    }
}

fn plan(fields: Vec<BuilderField>) -> Ir {
    Ir {
        module_name: "__foo_new_builder".to_string(),
        impl_name: "Foo".to_string(),
        impl_generics: generics(vec![], None),
        delegate_name: "new".to_string(),
        delegate_generics: generics(vec![], None),
        builder_name: "__FooBuilder".to_string(),
        builder_fields: fields,
        builder_return_type: ReturnType::Type(named("Foo")),
        builder_vis: Visibility::Public,
        builder_generics: generics(vec![type_param("__P")], None),
        builder_entry: "builder".to_string(),
        builder_exit: "build".to_string(),
        vis: Visibility::Public,
        is_async: false,
        receiver: None,
        doc: vec![],
        implicit_lifetime: false,
        self_ty: named("Foo"),
    }
}

#[test]
fn a_name_makes_a_path_a_type_and_a_parameter() {
    assert_eq!("Foo".to_path(), path(vec![segment("Foo", vec![])]));
    assert_eq!("Foo".to_type_path(), TypePath { qself: None, path: "Foo".to_path() });
    assert_eq!("self".to_expr_path(), ExprPath { path: "self".to_path() });
    assert_eq!("__P".to_generic_param(None), type_param("__P"));
    let bound = generic("Into", vec![named("String")]);
    assert_eq!(
        "T".to_generic_param(Some(&bound)),
        GenericParam::Type(TypeParam {
            ident: "T".to_string(),
            bounds: vec![TypeParamBound::Trait(path(vec![segment(
                "Into",
                vec![GenericArgument::Type(named("String"))]
            )]))],
            default: None
        })
    );
}

#[test]
fn the_raw_name_of_a_type_is_its_single_segment() {
    assert_eq!(named("usize").raw_ident(), Some("usize".to_string()));
    assert_eq!(generic("Vec", vec![named("u8")]).raw_ident(), Some("Vec".to_string()));
    let scoped = Type::Path(TypePath {
        qself: None,
        path: path(vec![segment("std", vec![]), segment("String", vec![])]),
    });
    assert_eq!(scoped.raw_ident(), None);
    let rooted = Type::Path(TypePath {
        qself: None,
        path: Path { leading_colon: true, segments: vec![segment("String", vec![])] },
    });
    assert_eq!(rooted.raw_ident(), None);
    assert_eq!(Type::Tuple(tuple(vec![], false)).raw_ident(), None);
    assert_eq!(Type::Verbatim("[u8]".to_string()).raw_ident(), None);
}

#[test]
fn generic_arguments_are_those_of_the_single_segment() {
    let map = generic("HashMap", vec![named("K"), named("V")]);
    assert_eq!(
        map.generic_args(),
        Some(&vec![GenericArgument::Type(named("K")), GenericArgument::Type(named("V"))])
    );
    assert_eq!(named("usize").generic_args(), None);
    assert_eq!(map.to_path(), Some(path(vec![segment(
        "HashMap",
        vec![GenericArgument::Type(named("K")), GenericArgument::Type(named("V"))]
    )])));
    assert_eq!(Type::Verbatim("!".to_string()).to_path(), None);
}

#[test]
fn a_type_is_wrapped_in_a_generic_type() {
    assert_eq!(named("usize").wrap_in_generic("__Set"), generic("__Set", vec![named("usize")]));
    assert_eq!(
        named("usize").wrap_in_generic_with_module("m", "__Required"),
        Type::Path(TypePath {
            qself: None,
            path: path(vec![
                segment("m", vec![]),
                segment("__Required", vec![GenericArgument::Type(named("usize"))])
            ])
        })
    );
}

#[test]
fn a_type_is_read_from_its_path() {
    assert_eq!(Type::parse("__T"), named("__T"));
    assert_eq!(
        Type::parse("std::string::String"),
        Type::Path(TypePath {
            qself: None,
            path: path(vec![
                segment("std", vec![]),
                segment("string", vec![]),
                segment("String", vec![])
            ])
        })
    );
}

#[test]
fn implicit_conversion_is_for_plain_named_types() {
    let on_impl = generics(vec![type_param("T")], None);
    let on_method = generics(vec![lifetime_param("'a"), type_param("K")], None);
    assert!(named("String").is_into_capable(&on_impl, &on_method));
    assert!(!named("T").is_into_capable(&on_impl, &on_method));
    assert!(!named("K").is_into_capable(&on_impl, &on_method));
    assert!(!named("usize").is_into_capable(&on_impl, &on_method));
    assert!(!named("bool").is_into_capable(&on_impl, &on_method));
    assert!(named("str").is_into_capable(&on_impl, &on_method));
    assert!(!generic("Vec", vec![named("u8")]).is_into_capable(&on_impl, &on_method));
    assert!(!Type::Tuple(tuple(vec![], false)).is_into_capable(&on_impl, &on_method));
    let scoped = Type::Path(TypePath {
        qself: None,
        path: path(vec![segment("http", vec![]), segment("Uri", vec![])]),
    });
    assert!(scoped.is_into_capable(&on_impl, &on_method));
    for scalar in [
        "i8", "u8", "i16", "u16", "i32", "u32", "i64", "u64", "i128", "u128", "isize", "usize",
        "bool", "f32", "f64", "char",
    ] {
        assert!(scalar_type(scalar));
    }
    assert!(!scalar_type("str"));
    assert!(!scalar_type("String"));
    assert!(!scalar_type("F64"));
    assert!(!scalar_type(""));
    assert!(has_type_param(&on_method, "K"));
    assert!(!has_type_param(&on_method, "'a"));
    assert!(!has_type_param(&on_method, "T"));
}

#[test]
fn no_scalar_is_converted_implicitly() {
    let none = generics(vec![], None);
    for scalar in ["f32", "f64", "char", "bool", "u8", "i128", "usize"] {
        assert!(!named(scalar).is_into_capable(&none, &none), "{scalar}");
        assert!(integer_type(scalar) || ["f32", "f64", "char", "bool"].contains(&scalar));
    }
    for other in ["float", "chars", "Char", "string", "u7"] {
        assert!(named(other).is_into_capable(&none, &none), "{other}");
        assert!(!integer_type(other));
    }
}

#[test]
fn arguments_on_any_segment_rule_out_conversion() {
    let none = generics(vec![], None);
    let text = GenericArgument::Type(named("String"));
    let last = path(vec![segment("vec", vec![]), segment("Vec", vec![text.clone()])]);
    assert!(!has_no_arguments(&last));
    assert!(!Type::Path(TypePath { qself: None, path: last }).is_into_capable(&none, &none));
    let first = path(vec![segment("Holder", vec![text.clone()]), segment("Item", vec![])]);
    assert!(!has_no_arguments(&first));
    assert!(!Type::Path(TypePath { qself: None, path: first }).is_into_capable(&none, &none));
    let rooted = Path {
        leading_colon: true,
        segments: vec![segment("std", vec![]), segment("option", vec![]), segment("Option", vec![text])],
    };
    assert!(!Type::Path(TypePath { qself: None, path: rooted }).is_into_capable(&none, &none));
    let called = path(vec![PathSegment {
        ident: "Fn".to_string(),
        arguments: PathArguments::Parenthesized("(u8) -> u8".to_string()),
    }]);
    assert!(!has_no_arguments(&called));
    assert!(!Type::Path(TypePath { qself: None, path: called }).is_into_capable(&none, &none));
    let empty = path(vec![PathSegment {
        ident: "Vec".to_string(),
        arguments: PathArguments::AngleBracketed(AngleBracketedGenericArguments {
            colon2_token: false,
            args: vec![],
        }),
    }]);
    assert!(!Type::Path(TypePath { qself: None, path: empty }).is_into_capable(&none, &none));
    let plain = path(vec![segment("std", vec![]), segment("string", vec![]), segment("String", vec![])]);
    assert!(has_no_arguments(&plain));
    assert!(Type::Path(TypePath { qself: None, path: plain }).is_into_capable(&none, &none));
    assert!(has_no_arguments(&path(vec![])));
}

#[test]
fn a_path_of_one_name_without_arguments_is_an_identifier() {
    assert_eq!(get_ident(&"builder".to_path()), Some("builder"));
    assert_eq!(get_ident(&path(vec![segment("a", vec![]), segment("b", vec![])])), None);
    assert_eq!(
        get_ident(&path(vec![segment("a", vec![GenericArgument::Type(named("T"))])])),
        None
    );
    assert_eq!(
        get_ident(&Path { leading_colon: true, segments: vec![segment("a", vec![])] }),
        None
    );
    assert_eq!(
        path_to_string(&Path {
            leading_colon: true,
            segments: vec![segment("a", vec![]), segment("b", vec![])]
        }),
        "::a::b"
    );
    assert_eq!(path_to_string(&path(vec![])), "");
}

#[test]
fn a_separator_follows_the_last_item() {
    let empty: Punctuated<Type> = Punctuated { items: vec![], trailing: false };
    assert!(!empty.with_trailing().trailing);
    let one = Punctuated { items: vec![named("A")], trailing: false }.with_trailing();
    assert!(one.trailing);
    assert_eq!(one.items, vec![named("A")]);
    assert!(Punctuated { items: vec![named("A")], trailing: true }.with_trailing().trailing);
    let marked: Punctuated<Type> = Punctuated { items: vec![], trailing: true };
    assert_eq!(marked.with_trailing(), Punctuated { items: vec![], trailing: false });
}

#[test]
fn the_parameters_are_named_in_tuples_and_arguments() {
    let g = generics(
        vec![
            lifetime_param("'a"),
            type_param("T"),
            GenericParam::Const("const N : usize".to_string()),
            type_param("U"),
        ],
        None,
    );
    assert_eq!(g.to_tuple_type(), tuple(vec![named("T"), named("U")], true));
    assert_eq!(generics(vec![lifetime_param("'a")], None).to_tuple_type(), tuple(vec![], false));
    assert_eq!(
        g.to_generic_args(),
        AngleBracketedGenericArguments {
            colon2_token: false,
            args: vec![
                GenericArgument::Lifetime("'a".to_string()),
                GenericArgument::Type(named("T")),
                GenericArgument::Type(named("U")),
            ]
        }
    );
    let exprs = g.to_expr_tuple(|at, p| {
        Expr::Field { base: Box::new(variable(&p.ident)), member: Member::Unnamed(at) }
    });
    assert_eq!(
        exprs,
        ExprTuple {
            elems: Punctuated {
                items: vec![
                    Expr::Field { base: Box::new(variable("T")), member: Member::Unnamed(0) },
                    Expr::Field { base: Box::new(variable("U")), member: Member::Unnamed(1) },
                ],
                trailing: true
            }
        }
    );
}

#[test]
fn a_parameter_is_left_out_by_its_position() {
    let g = || generics(vec![type_param("A"), type_param("B"), type_param("C")], Some(vec!["A : X"]));
    assert_eq!(
        g().without(1),
        generics(vec![type_param("A"), type_param("C")], Some(vec!["A : X"]))
    );
    assert_eq!(g().without(0).params, vec![type_param("B"), type_param("C")]);
    assert_eq!(g().without(3), g());
}

#[test]
fn parameter_lists_are_combined_in_order() {
    let a = generics(vec![lifetime_param("'a")], None);
    let b = generics(vec![type_param("T")], Some(vec!["T : X"]));
    let c = generics(vec![], None);
    let d = generics(vec![type_param("U"), type_param("V")], Some(vec!["U : Y", "V : Z"]));
    assert_eq!(
        Generics::combine(vec![&a, &b, &c, &d]),
        generics(
            vec![lifetime_param("'a"), type_param("T"), type_param("U"), type_param("V")],
            Some(vec!["T : X", "U : Y", "V : Z"])
        )
    );
    assert_eq!(Generics::combine(vec![&a, &c]), generics(vec![lifetime_param("'a")], None));
    assert_eq!(Generics::combine(vec![]), generics(vec![], None));
    assert_eq!(Generics::default(), generics(vec![], None));
}

#[test]
fn a_bound_is_added_to_the_parameter_of_that_name() {
    let g = generics(vec![type_param("A"), lifetime_param("'a"), type_param("B")], None);
    let bounded = g.add_bound("B", &generic("Into", vec![named("String")]));
    assert_eq!(bounded.params[0], type_param("A"));
    assert_eq!(bounded.params[1], lifetime_param("'a"));
    assert_eq!(bounded.params[2], "B".to_generic_param(Some(&generic("Into", vec![named("String")]))));
    let g = generics(vec![type_param("A")], None);
    assert_eq!(g.add_bound("A", &Type::Verbatim("!".to_string())).params, vec![type_param("A")]);
}

#[test]
fn arguments_take_a_type_and_the_implicit_lifetime() {
    let args = || AngleBracketedGenericArguments {
        colon2_token: false,
        args: vec![GenericArgument::Type(named("T"))],
    };
    assert_eq!(
        args().insert(0, named("S")).args,
        vec![GenericArgument::Type(named("S")), GenericArgument::Type(named("T"))]
    );
    assert_eq!(
        args().insert(1, named("S")).args,
        vec![GenericArgument::Type(named("T")), GenericArgument::Type(named("S"))]
    );
    assert_eq!(
        args().with_implicit_lifetime(true).args,
        vec![GenericArgument::Lifetime("'__a".to_string()), GenericArgument::Type(named("T"))]
    );
    assert_eq!(args().with_implicit_lifetime(false), args());
    assert_eq!(args().maybe(), Some(args()));
    assert_eq!(AngleBracketedGenericArguments { colon2_token: false, args: vec![] }.maybe(), None);
}

#[test]
fn an_element_of_a_tuple_is_replaced() {
    assert_eq!(
        tuple(vec![named("A"), named("B")], true).with_type(1, named("C")),
        tuple(vec![named("A"), named("C")], true)
    );
    let exprs = ExprTuple {
        elems: Punctuated { items: vec![variable("a"), variable("b")], trailing: true },
    };
    assert_eq!(
        exprs.with_expr(0, variable("c")).elems.items,
        vec![variable("c"), variable("b")]
    );
}

#[test]
fn the_plan_names_states_and_parameters_by_position() {
    let ir = plan(vec![
        field("a", FieldType::Regular, named("usize")),
        field("b", FieldType::Sequence, generic("Vec", vec![named("u8")])),
    ]);
    let fields = Expr::Field { base: Box::new(variable("self")), member: Member::Named("fields".to_string()) };
    assert_eq!(Ir::fields(), fields);
    assert_eq!(
        ir.tuple_field(1),
        Expr::Field { base: Box::new(Ir::fields()), member: Member::Unnamed(1) }
    );
    let value = |at: usize| Expr::Field {
        base: Box::new(Expr::MethodCall {
            receiver: Box::new(ir.tuple_field(at)),
            method: "into".to_string(),
            args: vec![],
        }),
        member: Member::Named("value".to_string()),
    };
    assert_eq!(ir.delegate_args(), vec![value(0), value(1)]);
    assert_eq!(
        ir.builder_state_initial(),
        vec![
            Expr::Call { func: Box::new(variable("__required")), args: vec![] },
            Expr::Call { func: Box::new(variable("__optional")), args: vec![] },
        ]
    );
    assert_eq!(
        ir.builder_state_type_initial(),
        Type::Tuple(tuple(
            vec![
                named("usize").wrap_in_generic_with_module("__foo_new_builder", "__Required"),
                generic("Vec", vec![named("u8")])
                    .wrap_in_generic_with_module("__foo_new_builder", "__Optional"),
            ],
            true
        ))
    );
    assert_eq!(ir.builder_type_generics(), generics(vec![type_param("__0"), type_param("__1")], None));
    assert_eq!(Ir::builder_generics(), generics(vec![type_param("__P")], None));
    let bound = |ty: Type| ty.wrap_in_generic("__Set").wrap_in_generic("Into");
    assert_eq!(
        ir.param_generics(),
        generics(
            vec![
                "__P0".to_generic_param(Some(&bound(named("usize")))),
                "__P1".to_generic_param(Some(&bound(generic("Vec", vec![named("u8")])))),
            ],
            None
        )
    );
}

#[test]
fn the_new_state_sets_one_slot_and_keeps_the_others() {
    let ir = plan(vec![
        field("a", FieldType::Regular, named("usize")),
        field("b", FieldType::Regular, named("usize")),
        field("c", FieldType::Regular, named("usize")),
    ]);
    let set = call("__set", vec![variable("b")]);
    assert_eq!(set, Expr::Call { func: Box::new(variable("__set")), args: vec![variable("b")] });
    let state = params(&ir, 1, "b", &ir.builder_type_generics(), set);
    assert_eq!(
        state,
        Expr::Tuple(ExprTuple {
            elems: Punctuated {
                items: vec![
                    ir.tuple_field(0),
                    call("__set", vec![variable("b")]),
                    ir.tuple_field(2)
                ],
                trailing: true
            }
        })
    );
}

#[test]
fn each_kind_has_its_operations() {
    let actions = |kind: FieldType| -> Vec<(String, Action, bool)> {
        operations(&field("items", kind, named("X")))
            .into_iter()
            .map(|o| (o.name, o.action, o.transitions))
            .collect()
    };
    assert_eq!(actions(FieldType::Regular), vec![("items".to_string(), Action::Assign, true)]);
    assert_eq!(
        actions(FieldType::Optional),
        vec![
            ("items".to_string(), Action::AssignPresent, true),
            ("and_items".to_string(), Action::AssignOptional, true)
        ]
    );
    assert_eq!(
        actions(FieldType::Sequence),
        vec![
            ("items".to_string(), Action::Extend, false),
            ("item".to_string(), Action::Push, false)
        ]
    );
    assert_eq!(
        actions(FieldType::Unique),
        vec![
            ("items".to_string(), Action::Extend, false),
            ("item".to_string(), Action::Insert, false)
        ]
    );
    assert_eq!(
        actions(FieldType::Keyed),
        vec![
            ("items".to_string(), Action::Extend, false),
            ("item".to_string(), Action::InsertEntry, false)
        ]
    );
}

#[test]
fn the_override_wins_over_the_declared_visibility() {
    let restricted = Visibility::Restricted { in_token: false, path: "super".to_string() };
    let inherited = Visibility::Inherited;
    let public = Visibility::Public;
    assert_eq!(
        effective_visibility(Some(Visibility::Public), &inherited, &inherited, &restricted),
        Visibility::Public
    );
    assert_eq!(
        effective_visibility(Some(Visibility::Inherited), &public, &public, &restricted),
        Visibility::Inherited
    );
    assert_eq!(effective_visibility(None, &inherited, &inherited, &restricted), restricted);
    assert_eq!(effective_visibility(None, &public, &public, &restricted), Visibility::Public);
    assert_eq!(effective_visibility(None, &public, &restricted, &inherited), restricted);
}
