//! Descriptor extraction: finds the factories of an impl block, reads the
//! configuration of each, and describes each as a `BuilderModel`.

use crate::error::{
    invalid_attribute, malformed_attribute, missing_target_name, Diagnostic, DiagnosticView,
};
use crate::generics::{Generics, GenericsView};
use crate::item::{
    attributes_view, clone_attributes, clone_fn_args, fn_args_view, impl_items_view,
    name_values_view, Attribute, AttributeView, FnArg, FnArgView, ImplItem, ImplItemFn,
    ImplItemFnView, ImplItemView, ItemImpl, ItemImplView, Lit, LitView, Meta, MetaNameValue,
    MetaNameValueView, MetaView, ReturnType, ReturnTypeView, SignatureView, Visibility,
    VisibilityView,
};
use crate::parse::Ast;
use crate::syntax::{clone_opt_string, opt_str_view, Span, Type, TypeView};
use crate::text::{ends_with, has_suffix, str_eq};
use crate::utils::{get_ident, path_ident, path_text, path_to_string, raw_ident_of, TypeExt};
use vstd::prelude::*;

verus! {

/// The description of one factory: the target type, the function that
/// assembles it, and the configuration of its builder.
#[derive(Debug, PartialEq, Eq)]
pub struct BuilderModel {
    pub impl_name: String,
    pub impl_generics: Generics,
    pub delegate_name: String,
    pub delegate_span: Span,
    pub delegate_generics: Generics,
    pub delegate_args: Vec<FnArg>,
    pub delegate_return_type: ReturnType,
    pub is_async: bool,
    pub vis: Visibility,
    pub config: BuilderConfig,
    pub attributes: Vec<Attribute>,
    pub self_ty: Type,
}

pub struct BuilderModelView {
    pub impl_name: Seq<char>,
    pub impl_generics: GenericsView,
    pub delegate_name: Seq<char>,
    pub delegate_span: Span,
    pub delegate_generics: GenericsView,
    pub delegate_args: Seq<FnArgView>,
    pub delegate_return_type: ReturnTypeView,
    pub is_async: bool,
    pub vis: VisibilityView,
    pub config: BuilderConfigView,
    pub attributes: Seq<AttributeView>,
    pub self_ty: TypeView,
}

impl View for BuilderModel {
    type V = BuilderModelView;

    open spec fn view(&self) -> BuilderModelView {
        BuilderModelView {
            impl_name: self.impl_name@,
            impl_generics: self.impl_generics@,
            delegate_name: self.delegate_name@,
            delegate_span: self.delegate_span,
            delegate_generics: self.delegate_generics@,
            delegate_args: fn_args_view(self.delegate_args@),
            delegate_return_type: self.delegate_return_type@,
            is_async: self.is_async,
            vis: self.vis@,
            config: self.config@,
            attributes: attributes_view(self.attributes@),
            self_ty: self.self_ty@,
        }
    }
}

/// The configuration of the generator as a whole. It has no options.
#[derive(Debug, Clone, Copy, PartialEq, Eq, Structural)]
pub struct BuildstructorConfig {}

impl Default for BuildstructorConfig {
    fn default() -> (r: Self)
        ensures
            r == (BuildstructorConfig {  }),
    {
        BuildstructorConfig {  }
    }
}

impl BuildstructorConfig {
    /// Reads the configuration. Whatever is written, the result is the
    /// default.
    pub fn parse(_input: &Meta) -> (r: Result<Self, Diagnostic>)
        ensures
            r == Ok::<Self, Diagnostic>(BuildstructorConfig {  }),
    {
        Ok(BuildstructorConfig {  })
    }
}

/// The configuration of one builder.
#[derive(Debug, PartialEq, Eq)]
pub struct BuilderConfig {
    pub entry: Option<String>,
    pub exit: Option<String>,
    pub span: Option<Span>,
    pub visibility: Option<String>,
    pub with_into: Option<bool>,
}

pub struct BuilderConfigView {
    pub entry: Option<Seq<char>>,
    pub exit: Option<Seq<char>>,
    pub span: Option<Span>,
    pub visibility: Option<Seq<char>>,
    pub with_into: Option<bool>,
}

impl BuilderConfigView {
    /// Nothing configured.
    pub open spec fn empty() -> BuilderConfigView {
        BuilderConfigView { entry: None, exit: None, span: None, visibility: None, with_into: None }
    }
}

impl View for BuilderConfig {
    type V = BuilderConfigView;

    open spec fn view(&self) -> BuilderConfigView {
        BuilderConfigView {
            entry: opt_str_view(self.entry),
            exit: opt_str_view(self.exit),
            span: self.span,
            visibility: opt_str_view(self.visibility),
            with_into: self.with_into,
        }
    }
}

impl Default for BuilderConfig {
    fn default() -> (r: Self)
        ensures
            r@ == BuilderConfigView::empty(),
    {
        BuilderConfig { entry: None, exit: None, span: None, visibility: None, with_into: None }
    }
}

impl Clone for BuilderConfig {
    fn clone(&self) -> (r: Self)
        ensures
            r@ == self@,
    {
        BuilderConfig {
            entry: clone_opt_string(&self.entry),
            exit: clone_opt_string(&self.exit),
            span: self.span,
            visibility: clone_opt_string(&self.visibility),
            with_into: self.with_into,
        }
    }
}

/// The configuration `c` after the pair `pair` was read: one of the four
/// keys with a value of its shape sets that option; anything else is
/// rejected at the value's location.
pub open spec fn apply_pair(c: BuilderConfigView, pair: MetaNameValueView) -> Result<
    BuilderConfigView,
    DiagnosticView,
> {
    match path_ident(pair.path) {
        None => Err(invalid_attribute(path_text(pair.path), pair.span)),
        Some(name) => match pair.value {
            LitView::Str(v) => if name == "entry"@ {
                Ok(BuilderConfigView { entry: Some(v), ..c })
            } else if name == "exit"@ {
                Ok(BuilderConfigView { exit: Some(v), ..c })
            } else if name == "visibility"@ {
                Ok(BuilderConfigView { visibility: Some(v), ..c })
            } else {
                Err(invalid_attribute(name, pair.span))
            },
            LitView::Bool(b) => if name == "with_into"@ {
                Ok(BuilderConfigView { with_into: Some(b), ..c })
            } else {
                Err(invalid_attribute(name, pair.span))
            },
            LitView::Other => Err(invalid_attribute(name, pair.span)),
        },
    }
}

/// The configuration that the pairs `args` give, read from the left. The
/// first pair that is rejected decides the diagnostic.
pub open spec fn parsed_config(span: Span, args: Seq<MetaNameValueView>) -> Result<
    BuilderConfigView,
    DiagnosticView,
>
    decreases args.len(),
{
    if args.len() == 0 {
        Ok(BuilderConfigView { span: Some(span), ..BuilderConfigView::empty() })
    } else {
        match parsed_config(span, args.drop_last()) {
            Ok(c) => apply_pair(c, args.last()),
            Err(e) => Err(e),
        }
    }
}

/// The view of a configuration or of the diagnostic in its place.
pub open spec fn config_result_view(r: Result<BuilderConfig, Diagnostic>) -> Result<
    BuilderConfigView,
    DiagnosticView,
> {
    match r {
        Ok(c) => Ok(c@),
        Err(e) => Err(e@),
    }
}

/// The view of a model or of the diagnostic in its place.
pub open spec fn model_result_view(r: Result<BuilderModel, Diagnostic>) -> Result<
    BuilderModelView,
    DiagnosticView,
> {
    match r {
        Ok(m) => Ok(m@),
        Err(e) => Err(e@),
    }
}

impl BuilderConfig {
    /// Whether implicit conversion is offered. It is, unless switched off.
    pub fn with_into(&self) -> (r: bool)
        ensures
            r == (self.with_into != Some(false)),
    {
        match self.with_into {
            Some(b) => b,
            None => true,
        }
    }

    fn apply(self, pair: &MetaNameValue) -> (r: Result<BuilderConfig, Diagnostic>)
        ensures
            config_result_view(r) == apply_pair(self@, pair@),
    {
        let mut config = self;
        match get_ident(&pair.path) {
            None => Err(Diagnostic::invalid_attribute(path_to_string(&pair.path).as_str(), pair.span)),
            Some(name) => {
                match &pair.value {
                    Lit::Str(v) => {
                        if str_eq(name, "entry") {
                            config.entry = Some(v.clone());
                            Ok(config)
                        } else if str_eq(name, "exit") {
                            config.exit = Some(v.clone());
                            Ok(config)
                        } else if str_eq(name, "visibility") {
                            config.visibility = Some(v.clone());
                            Ok(config)
                        } else {
                            Err(Diagnostic::invalid_attribute(name, pair.span))
                        }
                    },
                    Lit::Bool(b) => {
                        if str_eq(name, "with_into") {
                            config.with_into = Some(*b);
                            Ok(config)
                        } else {
                            Err(Diagnostic::invalid_attribute(name, pair.span))
                        }
                    },
                    Lit::Other => Err(Diagnostic::invalid_attribute(name, pair.span)),
                }
            },
        }
    }

    /// Reads the configuration from the `key = value` pairs of a `builder`
    /// attribute, whose first token is at `span`.
    pub fn parse(span: Span, args: &Vec<MetaNameValue>) -> (r: Result<BuilderConfig, Diagnostic>)
        ensures
            config_result_view(r) == parsed_config(span, name_values_view(args@)),
    {
        let mut result: Result<BuilderConfig, Diagnostic> = Ok(
            BuilderConfig {
                entry: None,
                exit: None,
                span: Some(span),
                visibility: None,
                with_into: None,
            },
        );
        let ghost av = name_values_view(args@);
        let mut i: usize = 0;
        while i < args.len()
            invariant
                i <= args.len(),
                av == name_values_view(args@),
                config_result_view(result) == parsed_config(span, av.take(i as int)),
            decreases args.len() - i,
        {
            assert(av.take(i + 1).drop_last() =~= av.take(i as int));
            assert(av.take(i + 1).last() == args@[i as int]@);
            result =
            match result {
                Ok(config) => config.apply(&args[i]),
                Err(e) => Err(e),
            };
            i += 1;
        }
        assert(av.take(i as int) =~= av);
        result
    }
}

/// Whether the attribute is `builder`.
pub open spec fn is_builder_attr(a: AttributeView) -> bool {
    path_ident(a.path) == Some("builder"@)
}

/// The first `builder` attribute among `attrs`.
pub open spec fn first_builder_attr(attrs: Seq<AttributeView>) -> Option<AttributeView>
    decreases attrs.len(),
{
    if attrs.len() == 0 {
        None
    } else {
        match first_builder_attr(attrs.drop_last()) {
            Some(a) => Some(a),
            None => if is_builder_attr(attrs.last()) {
                Some(attrs.last())
            } else {
                None
            },
        }
    }
}

/// The configuration that a `builder` attribute holds.
pub open spec fn attr_config(a: AttributeView) -> Result<BuilderConfigView, DiagnosticView> {
    match a.meta {
        MetaView::List { span, args } => parsed_config(span, args),
        MetaView::Malformed { span, message } => Err(malformed_attribute(message, span)),
        _ => Ok(BuilderConfigView::empty()),
    }
}

/// Whether a function is a constructor by convention: it takes no
/// receiver, and it is called `new` or its name ends in `_new`.
pub open spec fn conventional_constructor(sig: SignatureView) -> bool {
    &&& !(sig.inputs.len() > 0 && sig.inputs[0] is Receiver)
    &&& has_suffix(sig.ident, "_new"@) || sig.ident == "new"@
}

/// The configuration of a function's builder, if the function is a
/// factory: it is marked with `builder`, or `default_builders` holds and it
/// is a constructor by convention.
pub open spec fn eligibility(f: ImplItemFnView, default_builders: bool) -> Option<
    Result<BuilderConfigView, DiagnosticView>,
> {
    match first_builder_attr(f.attrs) {
        Some(a) => Some(attr_config(a)),
        None => if default_builders && conventional_constructor(f.sig) {
            Some(Ok(BuilderConfigView::empty()))
        } else {
            None
        },
    }
}

/// The factories among `items`, in order, each with its configuration.
pub open spec fn eligible_methods(items: Seq<ImplItemView>, default_builders: bool) -> Seq<
    (ImplItemFnView, Result<BuilderConfigView, DiagnosticView>),
>
    decreases items.len(),
{
    if items.len() == 0 {
        Seq::empty()
    } else {
        let rest = eligible_methods(items.drop_last(), default_builders);
        match items.last() {
            ImplItemView::Fn(f) => match eligibility(f, default_builders) {
                Some(config) => rest.push((f, config)),
                None => rest,
            },
            _ => rest,
        }
    }
}

/// The model of the factory `f` of the impl block `item`, whose target is
/// called `impl_name`.
pub open spec fn model_of(
    item: ItemImplView,
    impl_name: Seq<char>,
    f: ImplItemFnView,
    config: BuilderConfigView,
) -> BuilderModelView {
    BuilderModelView {
        impl_name,
        impl_generics: item.generics,
        delegate_name: f.sig.ident,
        delegate_span: f.sig.ident_span,
        delegate_generics: f.sig.generics,
        delegate_args: f.sig.inputs,
        delegate_return_type: f.sig.output,
        is_async: f.sig.asyncness,
        vis: f.vis,
        config,
        attributes: f.attrs,
        self_ty: item.self_ty,
    }
}

/// The model of a factory, or the diagnostic of its configuration.
pub open spec fn model_or_error(
    item: ItemImplView,
    impl_name: Seq<char>,
    e: (ImplItemFnView, Result<BuilderConfigView, DiagnosticView>),
) -> Result<BuilderModelView, DiagnosticView> {
    match e.1 {
        Ok(config) => Ok(model_of(item, impl_name, e.0, config)),
        Err(err) => Err(err),
    }
}

/// What the analysis of an impl block gives: a diagnostic where its target
/// has no simple name, else one model or diagnostic for each factory.
pub open spec fn analysis_of(item: ItemImplView, legacy_default_builders: bool) -> Result<
    Seq<Result<BuilderModelView, DiagnosticView>>,
    DiagnosticView,
> {
    match raw_ident_of(item.self_ty) {
        None => Err(missing_target_name(item.span)),
        Some(name) => Ok(
            eligible_methods(item.items, legacy_default_builders).map_values(
                |e: (ImplItemFnView, Result<BuilderConfigView, DiagnosticView>)|
                    model_or_error(item, name, e),
            ),
        ),
    }
}

/// The first `builder` attribute among `attrs`.
pub fn find_builder_attr(attrs: &Vec<Attribute>) -> (r: Option<&Attribute>)
    ensures
        match r {
            Some(a) => first_builder_attr(attributes_view(attrs@)) == Some(a@),
            None => first_builder_attr(attributes_view(attrs@)) is None,
        },
{
    let mut found: Option<&Attribute> = None;
    let ghost av = attributes_view(attrs@);
    let mut i: usize = 0;
    while i < attrs.len()
        invariant
            i <= attrs.len(),
            av == attributes_view(attrs@),
            match found {
                Some(a) => first_builder_attr(av.take(i as int)) == Some(a@),
                None => first_builder_attr(av.take(i as int)) is None,
            },
        decreases attrs.len() - i,
    {
        assert(av.take(i + 1).drop_last() =~= av.take(i as int));
        assert(av.take(i + 1).last() == attrs@[i as int]@);
        if found.is_none() {
            match get_ident(&attrs[i].path) {
                Some(name) => {
                    if str_eq(name, "builder") {
                        found = Some(&attrs[i]);
                    }
                },
                None => {},
            }
        }
        i += 1;
    }
    assert(av.take(i as int) =~= av);
    found
}

fn config_of_attr(attr: &Attribute) -> (r: Result<BuilderConfig, Diagnostic>)
    ensures
        config_result_view(r) == attr_config(attr@),
{
    match &attr.meta {
        Meta::List { span, args } => BuilderConfig::parse(*span, args),
        Meta::Malformed { span, message } => Err(
            Diagnostic::malformed_attribute(message.as_str(), *span),
        ),
        _ => Ok(BuilderConfig::default()),
    }
}

fn is_conventional_constructor(method: &ImplItemFn) -> (r: bool)
    ensures
        r == conventional_constructor(method@.sig),
{
    let takes_receiver = method.sig.inputs.len() > 0 && match &method.sig.inputs[0] {
        FnArg::Receiver(_) => true,
        FnArg::Typed(_) => false,
    };
    assert(method@.sig.inputs.len() > 0 ==> method@.sig.inputs[0] == method.sig.inputs@[0]@);
    !takes_receiver && (ends_with(method.sig.ident.as_str(), "_new") || str_eq(
        method.sig.ident.as_str(),
        "new",
    ))
}

fn method_eligibility(method: &ImplItemFn, default_builders: bool) -> (r: Option<
    Result<BuilderConfig, Diagnostic>,
>)
    ensures
        match r {
            Some(c) => eligibility(method@, default_builders) == Some(config_result_view(c)),
            None => eligibility(method@, default_builders) is None,
        },
{
    match find_builder_attr(&method.attrs) {
        Some(attr) => Some(config_of_attr(attr)),
        None => {
            if default_builders && is_conventional_constructor(method) {
                Some(Ok(BuilderConfig::default()))
            } else {
                None
            }
        },
    }
}

/// Whether a function is a factory.
pub fn is_factory(method: &ImplItemFn, default_builders: bool) -> (r: bool)
    ensures
        r == (eligibility(method@, default_builders) is Some),
{
    find_builder_attr(&method.attrs).is_some() || (default_builders && is_conventional_constructor(
        method,
    ))
}

/// The views of the factories that were found.
pub open spec fn eligible_view(found: Seq<(&ImplItemFn, Result<BuilderConfig, Diagnostic>)>) -> Seq<
    (ImplItemFnView, Result<BuilderConfigView, DiagnosticView>),
> {
    found.map_values(
        |e: (&ImplItemFn, Result<BuilderConfig, Diagnostic>)| (e.0@, config_result_view(e.1)),
    )
}

/// The factories of an impl block, each with its configuration or with the
/// diagnostic that reading it gave.
pub fn get_eligible_methods(item: &ItemImpl, default_builders: bool) -> (r: Vec<
    (&ImplItemFn, Result<BuilderConfig, Diagnostic>),
>)
    ensures
        eligible_view(r@) == eligible_methods(item@.items, default_builders),
{
    let mut out: Vec<(&ImplItemFn, Result<BuilderConfig, Diagnostic>)> = Vec::new();
    let ghost iv = impl_items_view(item.items@);
    let mut i: usize = 0;
    assert(eligible_view(out@) =~= Seq::empty());
    while i < item.items.len()
        invariant
            i <= item.items.len(),
            iv == impl_items_view(item.items@),
            eligible_view(out@) == eligible_methods(iv.take(i as int), default_builders),
        decreases item.items.len() - i,
    {
        assert(iv.take(i + 1).drop_last() =~= iv.take(i as int));
        assert(iv.take(i + 1).last() == item.items@[i as int]@);
        match &item.items[i] {
            ImplItem::Fn(method) => {
                match method_eligibility(method, default_builders) {
                    Some(config) => {
                        let ghost before = out@;
                        out.push((method, config));
                        assert(eligible_view(out@) =~= eligible_view(before).push(
                            (method@, config_result_view(config)),
                        ));
                    },
                    None => {},
                }
            },
            _ => {},
        }
        i += 1;
    }
    assert(iv.take(i as int) =~= iv);
    out
}

/// The views of the models that an analysis gave.
pub open spec fn models_view(models: Seq<Result<BuilderModel, Diagnostic>>) -> Seq<
    Result<BuilderModelView, DiagnosticView>,
> {
    models.map_values(|m: Result<BuilderModel, Diagnostic>| model_result_view(m))
}

/// The view of an analysis.
pub open spec fn analysis_view(r: Result<Vec<Result<BuilderModel, Diagnostic>>, Diagnostic>) -> Result<
    Seq<Result<BuilderModelView, DiagnosticView>>,
    DiagnosticView,
> {
    match r {
        Ok(models) => Ok(models_view(models@)),
        Err(e) => Err(e@),
    }
}

/// Describes each factory of an impl block. The analysis fails as a whole
/// where the target of the block has no simple name; a factory whose
/// configuration is rejected gives a diagnostic in its own place.
pub fn analyze(legacy_default_builders: bool, ast: &Ast) -> (r: Result<
    Vec<Result<BuilderModel, Diagnostic>>,
    Diagnostic,
>)
    ensures
        analysis_view(r) == analysis_of(ast@, legacy_default_builders),
{
    let methods = get_eligible_methods(&ast.item, legacy_default_builders);
    let ident = match ast.item.self_ty.raw_ident() {
        Some(ident) => ident,
        None => {
            return Err(Diagnostic::missing_target_name(ast.item.span));
        },
    };
    let ghost ev = eligible_view(methods@);
    let ghost f = |e: (ImplItemFnView, Result<BuilderConfigView, DiagnosticView>)|
        model_or_error(ast@, ident@, e);
    let mut models: Vec<Result<BuilderModel, Diagnostic>> = Vec::new();
    let mut i: usize = 0;
    while i < methods.len()
        invariant
            i <= methods.len(),
            ev == eligible_view(methods@),
            models@.len() == i,
            forall|k: int|
                0 <= k < i ==> model_result_view(#[trigger] models@[k]) == model_or_error(
                    ast@,
                    ident@,
                    ev[k],
                ),
        decreases methods.len() - i,
    {
        let builder = methods[i].0;
        let model = match &methods[i].1 {
            Ok(config) => Ok(
                BuilderModel {
                    impl_name: ident.clone(),
                    impl_generics: ast.item.generics.clone(),
                    self_ty: ast.item.self_ty.clone(),
                    delegate_name: builder.sig.ident.clone(),
                    delegate_span: builder.sig.ident_span,
                    delegate_generics: builder.sig.generics.clone(),
                    delegate_args: clone_fn_args(&builder.sig.inputs),
                    delegate_return_type: builder.sig.output.clone(),
                    is_async: builder.sig.asyncness,
                    vis: builder.vis.clone(),
                    config: config.clone(),
                    attributes: clone_attributes(&builder.attrs),
                },
            ),
            Err(e) => Err(e.clone()),
        };
        models.push(model);
        i += 1;
    }
    assert(models_view(models@) =~= ev.map_values(f));
    Ok(models)
}

} // verus!
