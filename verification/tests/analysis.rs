use buildstructor::analyze::{analyze, get_eligible_methods, BuilderConfig, BuildstructorConfig};
use buildstructor::derive::do_derive;
use buildstructor::error::{Diagnostic, DiagnosticKind};
use buildstructor::generics::Generics;
use buildstructor::item::{
    Attribute, Data, DeriveInput, Field, FnArg, ImplItem, ImplItemFn, ItemImpl, Lit, Meta,
    MetaNameValue, Pat, PatType, Receiver, ReturnType, Signature, Visibility,
};
use buildstructor::parse::Ast;
use buildstructor::syntax::{
    AngleBracketedGenericArguments, GenericArgument, Path, PathArguments, PathSegment, Punctuated,
    Span, Type, TypePath, TypeTuple,
};
use buildstructor::{builder, buildstructor, derive_builder, do_buildstructor};

fn segment(name: &str) -> PathSegment {
    PathSegment { ident: name.to_string(), arguments: PathArguments::Absent }
}

fn ident(name: &str) -> Path {
    Path { leading_colon: false, segments: vec![segment(name)] }
}

fn named(name: &str) -> Type {
    Type::Path(TypePath { qself: None, path: ident(name) })
}

fn optional(inner: Type) -> Type {
    Type::Path(TypePath {
        qself: None,
        path: Path {
            leading_colon: false,
            segments: vec![PathSegment {
                ident: "Option".to_string(),
                arguments: PathArguments::AngleBracketed(AngleBracketedGenericArguments {
                    colon2_token: false,
                    args: vec![GenericArgument::Type(inner)],
                }),
            }],
        },
    })
}

fn pair(key: &str, value: Lit, at: usize) -> MetaNameValue {
    MetaNameValue { path: ident(key), value, span: Span { id: at } }
}

fn text(value: &str) -> Lit {
    Lit::Str(value.to_string())
}

fn attribute(name: &str, meta: Meta) -> Attribute {
    Attribute { path: ident(name), meta, text: format!("#[{}]", name) }
}

fn marked() -> Attribute {
    attribute("builder", Meta::Path)
}

fn function(name: &str, attrs: Vec<Attribute>, inputs: Vec<FnArg>) -> ImplItem {
    ImplItem::Fn(ImplItemFn {
        attrs,
        vis: Visibility::Inherited,
        sig: Signature {
            asyncness: false,
            ident: name.to_string(),
            ident_span: Span { id: 30 },
            generics: Generics { params: vec![], where_clause: None },
            inputs,
            output: ReturnType::Type(named("Self")),
        },
        block: "{ todo() }".to_string(),
    })
}

fn block(target: Type, items: Vec<ImplItem>) -> Ast {
    Ast {
        item: ItemImpl {
            attrs: vec![],
            generics: Generics { params: vec![], where_clause: None },
            self_ty: target,
            items,
            span: Span { id: 40 },
        },
    }
}

fn receiver() -> FnArg {
    FnArg::Receiver(Receiver { reference: Some(None), mutability: false, ty: None })
}

fn typed(name: &str, ty: Type) -> FnArg {
    FnArg::Typed(PatType { attrs: vec![], pat: Pat::Ident(name.to_string()), ty })
}

fn names(found: &[(&ImplItemFn, Result<BuilderConfig, Diagnostic>)]) -> Vec<String> {
    found.iter().map(|(f, _)| f.sig.ident.clone()).collect()
}

const INVALID: &str = "', only 'entry' (string), 'exit' (string), 'visibility' (string) and 'with_into' (bool) are allowed";

#[test]
fn the_four_options_are_read() {
    let config = BuilderConfig::parse(
        Span { id: 9 },
        &vec![
            pair("entry", text("begin"), 1),
            pair("exit", text("end"), 2),
            pair("visibility", text("pub(crate)"), 3),
            pair("with_into", Lit::Bool(false), 4),
        ],
    )
    .unwrap();
    assert_eq!(config.entry, Some("begin".to_string()));
    assert_eq!(config.exit, Some("end".to_string()));
    assert_eq!(config.visibility, Some("pub(crate)".to_string()));
    assert_eq!(config.with_into, Some(false));
    assert_eq!(config.span, Some(Span { id: 9 }));
    assert!(!config.with_into());
}

#[test]
fn nothing_configured_leaves_the_defaults() {
    let config = BuilderConfig::parse(Span { id: 9 }, &vec![]).unwrap();
    assert_eq!(
        config,
        BuilderConfig {
            entry: None,
            exit: None,
            span: Some(Span { id: 9 }),
            visibility: None,
            with_into: None
        }
    );
    assert!(config.with_into());
    assert!(BuilderConfig::default().with_into());
    assert_eq!(BuilderConfig::default().span, None);
}

#[test]
fn a_later_pair_overrides_an_earlier_one() {
    let config = BuilderConfig::parse(
        Span { id: 9 },
        &vec![pair("entry", text("first"), 1), pair("entry", text("second"), 2)],
    )
    .unwrap();
    assert_eq!(config.entry, Some("second".to_string()));
}

#[test]
fn an_unknown_key_is_rejected_at_its_value() {
    let err = BuilderConfig::parse(
        Span { id: 9 },
        &vec![pair("entry", text("begin"), 1), pair("foo", text("bar"), 2)],
    )
    .unwrap_err();
    assert_eq!(err.kind, DiagnosticKind::InvalidAttribute);
    assert_eq!(err.span, Span { id: 2 });
    assert_eq!(err.message, format!("invalid builder attribute 'foo{}", INVALID));
    assert_eq!(err.to_string(), err.message);
}

#[test]
fn a_value_of_the_wrong_shape_is_rejected() {
    let err = BuilderConfig::parse(Span { id: 9 }, &vec![pair("entry", Lit::Bool(true), 5)])
        .unwrap_err();
    assert_eq!(err.kind, DiagnosticKind::InvalidAttribute);
    assert_eq!(err.span, Span { id: 5 });
    assert_eq!(err.message, format!("invalid builder attribute 'entry{}", INVALID));

    let err = BuilderConfig::parse(Span { id: 9 }, &vec![pair("with_into", text("no"), 6)])
        .unwrap_err();
    assert_eq!(err.message, format!("invalid builder attribute 'with_into{}", INVALID));

    let err =
        BuilderConfig::parse(Span { id: 9 }, &vec![pair("exit", Lit::Other, 7)]).unwrap_err();
    assert_eq!(err.message, format!("invalid builder attribute 'exit{}", INVALID));
}

#[test]
fn the_first_rejected_pair_decides() {
    let err = BuilderConfig::parse(
        Span { id: 9 },
        &vec![pair("a", text("x"), 1), pair("b", text("y"), 2)],
    )
    .unwrap_err();
    assert_eq!(err.span, Span { id: 1 });
    assert_eq!(err.message, format!("invalid builder attribute 'a{}", INVALID));
}

#[test]
fn a_key_that_is_no_name_is_rejected() {
    let key = Path { leading_colon: false, segments: vec![segment("a"), segment("entry")] };
    let err = BuilderConfig::parse(
        Span { id: 9 },
        &vec![MetaNameValue { path: key, value: text("x"), span: Span { id: 3 } }],
    )
    .unwrap_err();
    assert_eq!(err.kind, DiagnosticKind::InvalidAttribute);
    assert_eq!(err.message, format!("invalid builder attribute 'a::entry{}", INVALID));
}

#[test]
fn the_general_configuration_has_no_options() {
    assert_eq!(BuildstructorConfig::parse(&Meta::Path), Ok(BuildstructorConfig {}));
    assert_eq!(BuildstructorConfig::default(), BuildstructorConfig {});
}

#[test]
fn only_marked_functions_are_factories() {
    let ast = block(
        named("Foo"),
        vec![
            function("new", vec![], vec![]),
            function("other", vec![marked()], vec![]),
            ImplItem::Verbatim("const A: usize = 1;".to_string()),
            function("third", vec![attribute("inline", Meta::Path), marked()], vec![]),
        ],
    );
    assert_eq!(names(&get_eligible_methods(&ast.item, false)), vec!["other", "third"]);
}

#[test]
fn constructors_by_convention_are_factories_on_request() {
    let ast = block(
        named("Foo"),
        vec![
            function("new", vec![], vec![]),
            function("try_new", vec![], vec![typed("a", named("usize"))]),
            function("renew", vec![], vec![]),
            function("with_new", vec![], vec![receiver()]),
            function("new", vec![], vec![receiver()]),
            function("other", vec![marked()], vec![]),
        ],
    );
    assert_eq!(names(&get_eligible_methods(&ast.item, true)), vec!["new", "try_new", "other"]);
}

#[test]
fn the_first_marker_holds_the_configuration() {
    let first = attribute(
        "builder",
        Meta::List { span: Span { id: 1 }, args: vec![pair("entry", text("one"), 2)] },
    );
    let second = attribute(
        "builder",
        Meta::List { span: Span { id: 3 }, args: vec![pair("entry", text("two"), 4)] },
    );
    let ast = block(named("Foo"), vec![function("make", vec![first, second], vec![])]);
    let found = get_eligible_methods(&ast.item, false);
    assert_eq!(found.len(), 1);
    assert_eq!(found[0].1.as_ref().unwrap().entry, Some("one".to_string()));
}

#[test]
fn a_malformed_configuration_gives_the_diagnostic_in_place_of_the_model() {
    let broken = attribute(
        "builder",
        Meta::Malformed { span: Span { id: 11 }, message: "expected `=`".to_string() },
    );
    let ast = block(
        named("Foo"),
        vec![function("new", vec![broken], vec![]), function("other_new", vec![marked()], vec![])],
    );
    let models = analyze(false, &ast).unwrap();
    assert_eq!(models.len(), 2);
    let err = models[0].as_ref().unwrap_err();
    assert_eq!(err.kind, DiagnosticKind::MalformedAttribute);
    assert_eq!(err.span, Span { id: 11 });
    assert_eq!(err.message, "expected `=`");
    let model = models[1].as_ref().unwrap();
    assert_eq!(model.impl_name, "Foo");
    assert_eq!(model.delegate_name, "other_new");
    assert_eq!(model.delegate_span, Span { id: 30 });
    assert_eq!(model.self_ty, named("Foo"));
    assert_eq!(model.config, BuilderConfig::default());
}

#[test]
fn a_target_without_a_simple_name_fails_the_analysis() {
    let target =
        Type::Tuple(TypeTuple { elems: Punctuated { items: vec![named("A")], trailing: true } });
    let err = analyze(false, &block(target, vec![function("new", vec![marked()], vec![])]))
        .unwrap_err();
    assert_eq!(err.kind, DiagnosticKind::MissingTargetName);
    assert_eq!(err.span, Span { id: 40 });
    assert_eq!(err.message, "cannot find name of struct");
}

#[test]
fn the_block_is_handed_back_without_markers() {
    let ast = block(
        named("Foo"),
        vec![
            function("new", vec![attribute("inline", Meta::Path), marked()], vec![]),
            function("plain", vec![attribute("inline", Meta::Path)], vec![]),
            function("create", vec![marked()], vec![]),
        ],
    );
    let expansion = buildstructor(BuildstructorConfig {}, ast);
    let attrs: Vec<Vec<String>> = expansion
        .item
        .items
        .iter()
        .map(|item| match item {
            ImplItem::Fn(f) => f.attrs.iter().map(|a| a.text.clone()).collect(),
            ImplItem::Verbatim(_) => vec![],
        })
        .collect();
    assert_eq!(
        attrs,
        vec![vec!["#[inline]".to_string()], vec!["#[inline]".to_string()], vec![]]
    );
    assert_eq!(expansion.results.len(), 2);
    assert_eq!(expansion.results[0].as_ref().unwrap().entry.name, "builder");
    let err = expansion.results[1].as_ref().unwrap_err();
    assert_eq!(err.kind, DiagnosticKind::EntryNotDefaulted);
    assert_eq!(err.span, Span { id: 30 });
}

fn documentation(words: &str) -> Attribute {
    Attribute { path: ident("doc"), meta: Meta::NameValue, text: format!("#[doc = \"{}\"]", words) }
}

fn attrs_of(item: &ImplItem) -> (Vec<String>, Vec<Vec<String>>) {
    match item {
        ImplItem::Fn(f) => (
            f.attrs.iter().map(|a| a.text.clone()).collect(),
            f.sig
                .inputs
                .iter()
                .map(|input| match input {
                    FnArg::Typed(t) => t.attrs.iter().map(|a| a.text.clone()).collect(),
                    FnArg::Receiver(_) => vec![],
                })
                .collect(),
        ),
        ImplItem::Verbatim(_) => (vec![], vec![]),
    }
}

#[test]
fn a_factory_without_diagnostic_gets_the_allowance() {
    let ast = block(
        named("Foo"),
        vec![
            function("new", vec![attribute("inline", Meta::Path), marked()], vec![]),
            function("plain", vec![attribute("inline", Meta::Path)], vec![]),
        ],
    );
    let expansion = buildstructor(BuildstructorConfig {}, ast);
    assert!(expansion.results.iter().all(|r| r.is_ok()));
    assert_eq!(
        attrs_of(&expansion.item.items[0]).0,
        vec!["#[inline]".to_string(), "#[allow(clippy::too_many_arguments)]".to_string()]
    );
    assert_eq!(attrs_of(&expansion.item.items[1]).0, vec!["#[inline]".to_string()]);
}

#[test]
fn the_documentation_of_a_parameter_moves_to_the_operations_of_its_slot() {
    let documented = |name: &str| {
        FnArg::Typed(PatType {
            attrs: vec![documentation(" The name"), attribute("allow", Meta::Other)],
            pat: Pat::Ident(name.to_string()),
            ty: named("String"),
        })
    };
    let ast = block(
        named("Foo"),
        vec![
            function("new", vec![marked()], vec![documented("name")]),
            function("plain", vec![], vec![documented("name")]),
        ],
    );
    let expansion = buildstructor(BuildstructorConfig {}, ast);
    assert_eq!(attrs_of(&expansion.item.items[0]).1, vec![vec!["#[allow]".to_string()]]);
    assert_eq!(
        attrs_of(&expansion.item.items[1]).1,
        vec![vec!["#[doc = \" The name\"]".to_string(), "#[allow]".to_string()]]
    );
    let protocol = expansion.results[0].as_ref().unwrap();
    assert_eq!(protocol.methods[0].doc, vec![documentation(" The name")]);
    assert!(protocol.entry.doc.is_empty());
}

#[test]
fn a_failed_analysis_gives_one_diagnostic_and_the_block() {
    let target = Type::Verbatim("[u8; 4]".to_string());
    let expansion = do_buildstructor(
        false,
        BuildstructorConfig {},
        block(target, vec![function("new", vec![marked()], vec![])]),
    );
    assert_eq!(expansion.results.len(), 1);
    assert_eq!(expansion.results[0].as_ref().unwrap_err().kind, DiagnosticKind::MissingTargetName);
    assert_eq!(expansion.item.items.len(), 1);
}

#[test]
fn the_former_macro_takes_conventional_constructors() {
    let expansion = builder(block(
        named("Foo"),
        vec![function("new", vec![], vec![]), function("try_new", vec![], vec![])],
    ));
    let entries: Vec<String> =
        expansion.results.iter().map(|r| r.as_ref().unwrap().entry.name.clone()).collect();
    assert_eq!(entries, vec!["builder", "try_builder"]);
    for item in &expansion.item.items {
        match item {
            ImplItem::Fn(f) => assert!(f.attrs.is_empty()),
            ImplItem::Verbatim(_) => {}
        }
    }
}

#[test]
fn a_second_factory_cannot_take_the_entry_of_the_first() {
    let entry = |name: &str, at: usize| {
        attribute(
            "builder",
            Meta::List { span: Span { id: at }, args: vec![pair("entry", text(name), at + 1)] },
        )
    };
    let expansion = buildstructor(
        BuildstructorConfig {},
        block(
            named("Foo"),
            vec![
                function("new", vec![marked()], vec![]),
                function("create", vec![entry("builder", 60)], vec![]),
                function("try_new", vec![marked()], vec![]),
                function("make", vec![entry("try_builder", 70)], vec![]),
                function("other", vec![entry("maker", 80)], vec![]),
            ],
        ),
    );
    let outcome: Vec<Result<String, (DiagnosticKind, Span)>> = expansion
        .results
        .iter()
        .map(|r| match r {
            Ok(p) => Ok(p.entry.name.clone()),
            Err(e) => Err((e.kind, e.span)),
        })
        .collect();
    assert_eq!(
        outcome,
        vec![
            Ok("builder".to_string()),
            Err((DiagnosticKind::EntryTaken, Span { id: 60 })),
            Ok("try_builder".to_string()),
            Err((DiagnosticKind::EntryTaken, Span { id: 70 })),
            Ok("maker".to_string()),
        ]
    );
    assert_eq!(
        expansion.results[1].as_ref().unwrap_err().message,
        "the entry 'builder' of the builder for 'fn create' is the entry of another builder of this type and must be changed via annotation"
    );
}

#[test]
fn the_same_exit_on_several_factories_is_no_collision() {
    let expansion = buildstructor(
        BuildstructorConfig {},
        block(
            named("Foo"),
            vec![function("new", vec![marked()], vec![]), function("try_new", vec![marked()], vec![])],
        ),
    );
    let exits: Vec<String> =
        expansion.results.iter().map(|r| r.as_ref().unwrap().exit.name.clone()).collect();
    assert_eq!(exits, vec!["build", "build"]);
}

#[test]
fn an_invalid_visibility_fails_one_factory_only() {
    let configured = attribute(
        "builder",
        Meta::List { span: Span { id: 1 }, args: vec![pair("visibility", text("%"), 2)] },
    );
    let expansion = buildstructor(
        BuildstructorConfig {},
        block(
            named("Foo"),
            vec![function("new", vec![configured], vec![]), function("try_new", vec![marked()], vec![])],
        ),
    );
    assert_eq!(expansion.results.len(), 2);
    let err = expansion.results[0].as_ref().unwrap_err();
    assert_eq!(err.kind, DiagnosticKind::InvalidVisibility);
    assert_eq!(err.span, Span { id: 1 });
    assert!(expansion.results[1].is_ok());
}

fn documented(name: &str, ty: Type, docs: &[&str]) -> Field {
    Field {
        attrs: docs
            .iter()
            .map(|d| Attribute {
                path: ident("doc"),
                meta: Meta::NameValue,
                text: format!("#[doc = \"{}\"]", d),
            })
            .collect(),
        ident: Some(name.to_string()),
        ty,
    }
}

fn declaration(data: Data) -> DeriveInput {
    DeriveInput {
        vis: "pub (crate)".to_string(),
        ident: "Person".to_string(),
        generics: Generics { params: vec![], where_clause: None },
        data,
        span: Span { id: 50 },
    }
}

#[test]
fn a_constructor_is_derived_from_the_fields() {
    let mut serde = documented("id", named("u64"), &[]);
    serde.attrs.push(attribute("serde", Meta::Other));
    let input = declaration(Data::Struct(vec![
        documented("name", named("String"), &["  The name  "]),
        documented("nick", optional(named("String")), &[" First line", " second line "]),
        serde,
    ]));
    let constructor = derive_builder(&input).unwrap();
    assert_eq!(constructor.target, "Person");
    assert_eq!(constructor.visibility, "pub (crate)");
    assert_eq!(
        constructor.doc,
        "Create a new Person\n\n # Arguments\n\n* `name`: The name\n* `nick`: First line\nsecond line (optional)\n* `id`: "
    );
    let docs: Vec<Vec<String>> = constructor
        .parameters
        .iter()
        .map(|p| p.doc.iter().map(|d| d.text.clone()).collect())
        .collect();
    assert_eq!(
        docs,
        vec![
            vec!["#[doc = \"  The name  \"]".to_string()],
            vec!["#[doc = \" First line\"]".to_string(), "#[doc = \" second line \"]".to_string()],
            vec![],
        ]
    );
    let parameters: Vec<(Option<String>, Type)> =
        constructor.parameters.into_iter().map(|p| (p.name, p.ty)).collect();
    assert_eq!(
        parameters,
        vec![
            (Some("name".to_string()), named("String")),
            (Some("nick".to_string()), optional(named("String"))),
            (Some("id".to_string()), named("u64")),
        ]
    );
}

#[test]
fn a_struct_without_fields_has_a_constructor_without_parameters() {
    let constructor = do_derive(&declaration(Data::Struct(vec![]))).unwrap();
    assert_eq!(constructor.doc, "Create a new Person\n\n # Arguments\n\n");
    assert!(constructor.parameters.is_empty());
}

#[test]
fn a_field_without_name_is_documented_without_one() {
    let mut field = documented("x", named("u8"), &[]);
    field.ident = None;
    let constructor = do_derive(&declaration(Data::Struct(vec![field]))).unwrap();
    assert_eq!(constructor.doc, "Create a new Person\n\n # Arguments\n\n* ``: ");
    assert_eq!(constructor.parameters[0].name, None);
}

#[test]
fn only_structs_have_a_derived_constructor() {
    let err = derive_builder(&declaration(Data::Other)).unwrap_err();
    assert_eq!(err.kind, DiagnosticKind::NotAStruct);
    assert_eq!(err.span, Span { id: 50 });
    assert_eq!(err.message, "derive(Builder) can only be used on structs");
}
