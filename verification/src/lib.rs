//! A generator of type-state builders. From the description of a factory
//! function it synthesises a builder protocol in which every required
//! parameter must be supplied exactly once before the factory can be invoked.

pub mod analyze;
pub mod codegen;
pub mod derive;
pub mod error;
pub mod expr;
pub mod generics;
pub mod generics_ext;
pub mod item;
pub mod laws;
pub mod lower;
pub mod parse;
pub mod protocol;
pub mod semantics;
pub mod simulate;
pub mod syntax;
pub mod text;
pub mod utils;

use crate::analyze::{
    analysis_of, analyze, eligibility, find_builder_attr, first_builder_attr, is_builder_attr,
    is_factory, model_result_view, models_view, BuilderModel, BuilderModelView,
    BuildstructorConfig,
};
use crate::codegen::{codegen, protocol_of, protocol_result_view};
use crate::derive::{derived_constructor_of, derived_result_view, do_derive, DerivedConstructor};
use crate::error::{Diagnostic, DiagnosticKind, DiagnosticView};
use crate::item::{
    attributes_view, fn_args_view, impl_items_view, Attribute, AttributeView, DeriveInput, FnArg,
    FnArgView, ImplItem, ImplItemFn, ImplItemFnView, ImplItemView, ItemImpl, ItemImplView, Meta,
    MetaView, PatType, PatTypeView, Signature, SignatureView,
};
use crate::item::VisibilityView;
use crate::lower::{
    is_doc_attr, is_invalid_visibility, location, location_of, lower, lowered, visibility_from,
    IrView, VisibilityPartsView,
};
use crate::parse::Ast;
use crate::protocol::{Protocol, ProtocolView};
use crate::syntax::Span;
use crate::text::str_eq;
use crate::utils::{get_ident, ident_path, IdentExt};
use vstd::prelude::*;
use vstd::string::StringExecFns;

verus! {

/// What the generator gives for an impl block: the block itself, without
/// the markers of the generator, and for each factory its protocol or the
/// diagnostic in its place.
#[derive(Debug, PartialEq, Eq)]
pub struct Expansion {
    pub item: ItemImpl,
    pub results: Vec<Result<Protocol, Diagnostic>>,
}

/// The attribute that lets a factory have any number of parameters.
pub open spec fn allowance() -> AttributeView {
    AttributeView {
        path: ident_path("allow"@),
        meta: MetaView::Other,
        text: "#[allow(clippy::too_many_arguments)]"@,
    }
}

/// The item, with the allowance added to it where it is a factory marked
/// with `builder`.
pub open spec fn allow_item(i: ImplItemView) -> ImplItemView {
    match i {
        ImplItemView::Fn(f) => if first_builder_attr(f.attrs) is Some {
            ImplItemView::Fn(ImplItemFnView { attrs: f.attrs.push(allowance()), ..f })
        } else {
            i
        },
        _ => i,
    }
}

/// The attributes among `attrs` that are no `builder` attributes.
pub open spec fn without_builder_attrs(attrs: Seq<AttributeView>) -> Seq<AttributeView>
    decreases attrs.len(),
{
    if attrs.len() == 0 {
        Seq::empty()
    } else {
        let rest = without_builder_attrs(attrs.drop_last());
        if is_builder_attr(attrs.last()) {
            rest
        } else {
            rest.push(attrs.last())
        }
    }
}

/// The attributes among `attrs` that are no documentation.
pub open spec fn without_docs(attrs: Seq<AttributeView>) -> Seq<AttributeView>
    decreases attrs.len(),
{
    if attrs.len() == 0 {
        Seq::empty()
    } else {
        let rest = without_docs(attrs.drop_last());
        if is_doc_attr(attrs.last()) {
            rest
        } else {
            rest.push(attrs.last())
        }
    }
}

/// The parameter, without the documentation that is written on it.
pub open spec fn undocumented(arg: FnArgView) -> FnArgView {
    match arg {
        FnArgView::Typed(t) => FnArgView::Typed(PatTypeView { attrs: without_docs(t.attrs), ..t }),
        _ => arg,
    }
}

/// The item, without the markers of the generator: a function loses its
/// `builder` attributes, and the parameters of a factory lose their
/// documentation, which the operations of the builder bear.
pub open spec fn sanitize_item(i: ImplItemView, default_builders: bool) -> ImplItemView {
    match i {
        ImplItemView::Fn(f) => ImplItemView::Fn(
            ImplItemFnView {
                attrs: without_builder_attrs(f.attrs),
                sig: if eligibility(f, default_builders) is Some {
                    SignatureView {
                        inputs: f.sig.inputs.map_values(|a: FnArgView| undocumented(a)),
                        ..f.sig
                    }
                } else {
                    f.sig
                },
                ..f
            },
        ),
        _ => i,
    }
}

/// The impl block that is handed back. Where a diagnostic was given, it
/// is the block without the markers of the generator, and unchanged else;
/// where none was given, each marked factory has got the allowance.
pub open spec fn emitted_item(
    item: ItemImplView,
    default_builders: bool,
    failed: bool,
) -> ItemImplView {
    ItemImplView {
        items: item.items.map_values(
            |i: ImplItemView|
                sanitize_item(
                    if failed {
                        i
                    } else {
                        allow_item(i)
                    },
                    default_builders,
                ),
        ),
        ..item
    }
}

/// Whether a diagnostic is among the results.
pub open spec fn any_failed(results: Seq<Result<ProtocolView, DiagnosticView>>) -> bool {
    exists|k: int| 0 <= k < results.len() && (#[trigger] results[k]) is Err
}

/// What is generated for the factory that `model` describes, given its
/// visibility override as it was read: the protocol of its plan, or the
/// diagnostic for an entry operation that cannot be named.
pub open spec fn generated(model: BuilderModelView, overridden: Option<VisibilityView>) -> Result<
    ProtocolView,
    DiagnosticView,
> {
    match lowered(model, overridden) {
        Ok(ir) => Ok(protocol_of(ir)),
        Err(e) => Err(e),
    }
}

/// Whether `r` is what is generated for a factory with the outcome `m` of
/// its analysis, taken by itself. A factory whose analysis failed gives
/// its diagnostic, and one without visibility override what is generated
/// without. With an override the result follows what the parser makes of
/// its text: the diagnostic for an override that is no visibility, or what
/// is generated with a visibility that was read.
pub open spec fn is_generated(
    r: Result<ProtocolView, DiagnosticView>,
    m: Result<BuilderModelView, DiagnosticView>,
) -> bool {
    match m {
        Err(e) => r == Err::<ProtocolView, DiagnosticView>(e),
        Ok(model) => match model.config.visibility {
            None => r == generated(model, None),
            Some(_) => {
                ||| r matches Err(e) && is_invalid_visibility(e, model)
                ||| exists|parts: VisibilityPartsView|
                    r == generated(model, Some(#[trigger] visibility_from(parts)))
            },
        },
    }
}

/// The location of the diagnostics of a factory that was described. For a
/// factory with a diagnostic of its own no location is called for.
pub open spec fn model_span(m: Result<BuilderModelView, DiagnosticView>) -> Span {
    match m {
        Ok(model) => location_of(model),
        Err(_) => Span { id: 0 },
    }
}

/// The diagnostic for the factory `method` whose entry operation has the
/// name of the entry operation of a factory before it.
pub open spec fn entry_taken(entry: Seq<char>, method: Seq<char>, span: Span) -> DiagnosticView {
    DiagnosticView {
        kind: DiagnosticKind::EntryTaken,
        span,
        message: "the entry '"@ + entry + "' of the builder for 'fn "@ + method
            + "' is the entry of another builder of this type and must be changed via annotation"@,
    }
}

/// Whether the entry operation of the builder at `k` has the name of the
/// entry operation of a builder before it.
pub open spec fn shares_entry(raw: Seq<Result<ProtocolView, DiagnosticView>>, k: int) -> bool {
    &&& raw[k] is Ok
    &&& exists|j: int|
        0 <= j < k && (#[trigger] raw[j]) is Ok && raw[j]->Ok_0.entry.name
            == raw[k]->Ok_0.entry.name
}

/// What is handed out for the factory at `k`, given what was generated
/// for each factory by itself: the diagnostic for an entry operation whose
/// name is taken, else what was generated.
pub open spec fn settled(
    raw: Seq<Result<ProtocolView, DiagnosticView>>,
    spans: Seq<Span>,
    k: int,
) -> Result<ProtocolView, DiagnosticView> {
    if shares_entry(raw, k) {
        Err(entry_taken(raw[k]->Ok_0.entry.name, raw[k]->Ok_0.exit.delegate_name, spans[k]))
    } else {
        raw[k]
    }
}

/// Whether `raw` holds what is generated for each of the factories with
/// the outcomes `models` by itself.
pub open spec fn each_generated(
    raw: Seq<Result<ProtocolView, DiagnosticView>>,
    models: Seq<Result<BuilderModelView, DiagnosticView>>,
) -> bool {
    &&& raw.len() == models.len()
    &&& forall|k: int| 0 <= k < models.len() ==> is_generated(#[trigger] raw[k], models[k])
}

/// Whether `results` is what is generated for an impl block with the
/// analysis `a`: the one diagnostic of an analysis that failed; else one
/// result for each factory, in order, which is what is generated for the
/// factory by itself unless the name of its entry operation is taken.
pub open spec fn are_generated(
    results: Seq<Result<ProtocolView, DiagnosticView>>,
    a: Result<Seq<Result<BuilderModelView, DiagnosticView>>, DiagnosticView>,
) -> bool {
    match a {
        Err(e) => results == seq![Err::<ProtocolView, DiagnosticView>(e)],
        Ok(models) => results.len() == models.len() && exists|
            raw: Seq<Result<ProtocolView, DiagnosticView>>,
        |
            #![trigger each_generated(raw, models)]
            each_generated(raw, models) && forall|k: int|
                0 <= k < models.len() ==> #[trigger] results[k] == settled(
                    raw,
                    models.map_values(
                        |m: Result<BuilderModelView, DiagnosticView>| model_span(m),
                    ),
                    k,
                ),
    }
}

/// The views of what was generated.
pub open spec fn results_view(results: Seq<Result<Protocol, Diagnostic>>) -> Seq<
    Result<ProtocolView, DiagnosticView>,
> {
    results.map_values(|r: Result<Protocol, Diagnostic>| protocol_result_view(r))
}

/// The views of what was generated, each with the location of its
/// factory.
pub open spec fn located_view(results: Seq<(Span, Result<Protocol, Diagnostic>)>) -> Seq<
    Result<ProtocolView, DiagnosticView>,
> {
    results.map_values(|r: (Span, Result<Protocol, Diagnostic>)| protocol_result_view(r.1))
}

/// The locations of what was generated.
pub open spec fn locations(results: Seq<(Span, Result<Protocol, Diagnostic>)>) -> Seq<Span> {
    results.map_values(|r: (Span, Result<Protocol, Diagnostic>)| r.0)
}

fn entry_of(r: &Result<Protocol, Diagnostic>) -> (name: Option<String>)
    ensures
        match name {
            Some(n) => r matches Ok(p) && n@ == p@.entry.name,
            None => r is Err,
        },
{
    match r {
        Ok(p) => Some(p.entry.name.clone()),
        Err(_) => None,
    }
}

/// The names of two builders' entry operations, where both have one.
pub open spec fn same_entry(a: Option<String>, b: Option<String>) -> bool {
    a matches Some(x) && b matches Some(y) && x@ == y@
}

fn taken_before(names: &Vec<Option<String>>, k: usize) -> (r: bool)
    requires
        k < names@.len(),
    ensures
        r == exists|j: int| 0 <= j < k && same_entry(#[trigger] names@[j], names@[k as int]),
{
    match &names[k] {
        None => false,
        Some(name) => {
            let mut found = false;
            let mut j: usize = 0;
            while j < k
                invariant
                    j <= k,
                    k < names@.len(),
                    names@[k as int] == Some(*name),
                    found == exists|i: int|
                        0 <= i < j && same_entry(#[trigger] names@[i], names@[k as int]),
                decreases k - j,
            {
                match &names[j] {
                    Some(other) => {
                        if str_eq(other.as_str(), name.as_str()) {
                            assert(same_entry(names@[j as int], names@[k as int]));
                            found = true;
                        }
                    },
                    None => {},
                }
                j += 1;
            }
            found
        },
    }
}

/// Gives each factory what was generated for it, unless the name of its
/// entry operation is that of a factory before it: the builders of one
/// type share the type's names, and the later factory gets a diagnostic at
/// its location.
pub fn reject_shared_entries(results: Vec<(Span, Result<Protocol, Diagnostic>)>) -> (r: Vec<
    Result<Protocol, Diagnostic>,
>)
    ensures
        r@.len() == results@.len(),
        forall|k: int|
            0 <= k < results@.len() ==> protocol_result_view(#[trigger] r@[k]) == settled(
                located_view(results@),
                locations(results@),
                k,
            ),
{
    let ghost raw = located_view(results@);
    let ghost spans = locations(results@);
    let mut names: Vec<Option<String>> = Vec::new();
    let mut i: usize = 0;
    while i < results.len()
        invariant
            i <= results.len(),
            names@.len() == i,
            raw == located_view(results@),
            forall|j: int|
                0 <= j < i ==> match #[trigger] names@[j] {
                    Some(n) => raw[j] matches Ok(p) && n@ == p.entry.name,
                    None => raw[j] is Err,
                },
        decreases results.len() - i,
    {
        names.push(entry_of(&results[i].1));
        i += 1;
    }
    let mut rest = results;
    let mut out: Vec<Result<Protocol, Diagnostic>> = Vec::new();
    while rest.len() > 0
        invariant
            out@.len() + rest@.len() == raw.len(),
            names@.len() == raw.len(),
            raw.len() == spans.len(),
            forall|j: int|
                0 <= j < raw.len() ==> match #[trigger] names@[j] {
                    Some(n) => raw[j] matches Ok(p) && n@ == p.entry.name,
                    None => raw[j] is Err,
                },
            forall|k: int|
                0 <= k < out@.len() ==> protocol_result_view(#[trigger] out@[k]) == settled(
                    raw,
                    spans,
                    k,
                ),
            forall|k: int|
                0 <= k < rest@.len() ==> protocol_result_view((#[trigger] rest@[k]).1)
                    == raw[out@.len() + k] && rest@[k].0 == spans[out@.len() + k],
        decreases rest.len(),
    {
        let ghost before = rest@;
        let k = out.len();
        let (span, generated) = rest.remove(0);
        proof {
            assert((span, generated) == before[0]);
            assert forall|j: int| 0 <= j < rest@.len() implies protocol_result_view(
                (#[trigger] rest@[j]).1,
            ) == raw[k + 1 + j] && rest@[j].0 == spans[k + 1 + j] by {
                assert(rest@[j] == before[j + 1]);
            }
        }
        let taken = taken_before(&names, k);
        proof {
            if shares_entry(raw, k as int) {
                let j = choose|j: int|
                    0 <= j < k && (#[trigger] raw[j]) is Ok && raw[j]->Ok_0.entry.name
                        == raw[k as int]->Ok_0.entry.name;
                assert(same_entry(names@[j], names@[k as int]));
            }
            if taken {
                let j = choose|j: int|
                    0 <= j < k && same_entry(#[trigger] names@[j], names@[k as int]);
                assert(raw[j] is Ok);
            }
            assert(taken == shares_entry(raw, k as int));
        }
        let settled = match generated {
            Ok(p) => {
                if taken {
                    let mut message = String::from_str("the entry '");
                    message.append(p.entry.name.as_str());
                    message.append("' of the builder for 'fn ");
                    message.append(p.exit.delegate_name.as_str());
                    message.append(
                        "' is the entry of another builder of this type and must be changed via annotation",
                    );
                    Err(Diagnostic { kind: DiagnosticKind::EntryTaken, span, message })
                } else {
                    Ok(p)
                }
            },
            Err(e) => Err(e),
        };
        out.push(settled);
    }
    out
}

fn generate(model: Result<BuilderModel, Diagnostic>) -> (r: Result<Protocol, Diagnostic>)
    ensures
        is_generated(protocol_result_view(r), model_result_view(model)),
{
    match model {
        Ok(builder) => {
            let ghost given = builder@;
            let ir = match lower(builder) {
                Ok(ir) => ir,
                Err(e) => {
                    return Err(e);
                },
            };
            let ghost plan = ir@;
            let r = codegen(ir);
            proof {
                if given.config.visibility is Some {
                    let parts = choose|parts: VisibilityPartsView|
                        Ok::<IrView, DiagnosticView>(plan) == lowered(
                            given,
                            Some(#[trigger] visibility_from(parts)),
                        );
                    assert(protocol_result_view(r) == generated(
                        given,
                        Some(visibility_from(parts)),
                    ));
                }
            }
            r
        },
        Err(e) => Err(e),
    }
}

/// Adds the allowance to each factory that is marked with `builder`.
fn allow_many_params(ast: Ast) -> (r: Ast)
    ensures
        r@ == (ItemImplView { items: ast@.items.map_values(|i: ImplItemView| allow_item(i)), ..ast@ }),
{
    let item = ast.item;
    let mut rest = item.items;
    let ghost given = impl_items_view(rest@);
    let mut out: Vec<ImplItem> = Vec::new();
    while rest.len() > 0
        invariant
            out@.len() + rest@.len() == given.len(),
            forall|k: int|
                0 <= k < out@.len() ==> (#[trigger] out@[k])@ == allow_item(given[k]),
            forall|k: int|
                0 <= k < rest@.len() ==> (#[trigger] rest@[k])@ == given[out@.len() + k],
        decreases rest.len(),
    {
        let ghost before = rest@;
        let next = rest.remove(0);
        assert(next == before[0]);
        assert forall|k: int| 0 <= k < rest@.len() implies (#[trigger] rest@[k])@ == given[out@.len()
            + 1 + k] by {
            assert(rest@[k] == before[k + 1]);
        }
        let changed = match next {
            ImplItem::Fn(m) => {
                let mut m = m;
                if find_builder_attr(&m.attrs).is_some() {
                    let ghost attrs = m.attrs@;
                    m.attrs.push(
                        Attribute {
                            path: "allow".to_path(),
                            meta: Meta::Other,
                            text: String::from_str("#[allow(clippy::too_many_arguments)]"),
                        },
                    );
                    assert(attributes_view(m.attrs@) =~= attributes_view(attrs).push(allowance()));
                }
                ImplItem::Fn(m)
            },
            other => other,
        };
        out.push(changed);
    }
    let r = Ast {
        item: ItemImpl {
            attrs: item.attrs,
            generics: item.generics,
            self_ty: item.self_ty,
            items: out,
            span: item.span,
        },
    };
    assert(r@.items =~= ast@.items.map_values(|i: ImplItemView| allow_item(i)));
    r
}

fn retain_other_attrs(attrs: Vec<Attribute>) -> (r: Vec<Attribute>)
    ensures
        attributes_view(r@) == without_builder_attrs(attributes_view(attrs@)),
{
    let mut out: Vec<Attribute> = Vec::new();
    let ghost av = attributes_view(attrs@);
    let mut i: usize = 0;
    assert(attributes_view(out@) =~= Seq::empty());
    while i < attrs.len()
        invariant
            i <= attrs.len(),
            av == attributes_view(attrs@),
            attributes_view(out@) == without_builder_attrs(av.take(i as int)),
        decreases attrs.len() - i,
    {
        assert(av.take(i + 1).drop_last() =~= av.take(i as int));
        assert(av.take(i + 1).last() == attrs@[i as int]@);
        let is_builder = match get_ident(&attrs[i].path) {
            Some(name) => str_eq(name, "builder"),
            None => false,
        };
        if !is_builder {
            let ghost before = out@;
            out.push(attrs[i].clone());
            assert(attributes_view(out@) =~= attributes_view(before).push(attrs@[i as int]@));
        }
        i += 1;
    }
    assert(av.take(i as int) =~= av);
    out
}

fn retain_undocumented(attrs: &Vec<Attribute>) -> (r: Vec<Attribute>)
    ensures
        attributes_view(r@) == without_docs(attributes_view(attrs@)),
{
    let mut out: Vec<Attribute> = Vec::new();
    let ghost av = attributes_view(attrs@);
    let mut i: usize = 0;
    assert(attributes_view(out@) =~= Seq::empty());
    while i < attrs.len()
        invariant
            i <= attrs.len(),
            av == attributes_view(attrs@),
            attributes_view(out@) == without_docs(av.take(i as int)),
        decreases attrs.len() - i,
    {
        assert(av.take(i + 1).drop_last() =~= av.take(i as int));
        assert(av.take(i + 1).last() == attrs@[i as int]@);
        let is_doc = match get_ident(&attrs[i].path) {
            Some(name) => str_eq(name, "doc"),
            None => false,
        };
        if !is_doc {
            let ghost before = out@;
            out.push(attrs[i].clone());
            assert(attributes_view(out@) =~= attributes_view(before).push(attrs@[i as int]@));
        }
        i += 1;
    }
    assert(av.take(i as int) =~= av);
    out
}

fn undocument(inputs: &Vec<FnArg>) -> (r: Vec<FnArg>)
    ensures
        fn_args_view(r@) == fn_args_view(inputs@).map_values(|a: FnArgView| undocumented(a)),
{
    let mut out: Vec<FnArg> = Vec::new();
    let mut i: usize = 0;
    while i < inputs.len()
        invariant
            i <= inputs.len(),
            out@.len() == i,
            forall|k: int| 0 <= k < i ==> (#[trigger] out@[k])@ == undocumented(inputs@[k]@),
        decreases inputs.len() - i,
    {
        let arg = match &inputs[i] {
            FnArg::Typed(t) => FnArg::Typed(
                PatType { attrs: retain_undocumented(&t.attrs), pat: t.pat.clone(), ty: t.ty.clone() },
            ),
            other => other.clone(),
        };
        out.push(arg);
        i += 1;
    }
    assert(fn_args_view(out@) =~= fn_args_view(inputs@).map_values(
        |a: FnArgView| undocumented(a),
    ));
    out
}

/// Takes the markers of the generator off the impl block: the `builder`
/// attributes off every function, and the documentation off the
/// parameters of every factory.
fn sanitize(ast: Ast, default_builders: bool) -> (r: Ast)
    ensures
        r@ == (ItemImplView {
            items: ast@.items.map_values(|i: ImplItemView| sanitize_item(i, default_builders)),
            ..ast@
        }),
{
    let item = ast.item;
    let mut rest = item.items;
    let ghost given = impl_items_view(rest@);
    let mut out: Vec<ImplItem> = Vec::new();
    while rest.len() > 0
        invariant
            out@.len() + rest@.len() == given.len(),
            forall|k: int|
                0 <= k < out@.len() ==> (#[trigger] out@[k])@ == sanitize_item(
                    given[k],
                    default_builders,
                ),
            forall|k: int|
                0 <= k < rest@.len() ==> (#[trigger] rest@[k])@ == given[out@.len() + k],
        decreases rest.len(),
    {
        let ghost before = rest@;
        let next = rest.remove(0);
        assert(next == before[0]);
        assert forall|k: int| 0 <= k < rest@.len() implies (#[trigger] rest@[k])@ == given[out@.len()
            + 1 + k] by {
            assert(rest@[k] == before[k + 1]);
        }
        let changed = match next {
            ImplItem::Fn(m) => {
                let factory = is_factory(&m, default_builders);
                let sig = m.sig;
                let inputs = if factory {
                    undocument(&sig.inputs)
                } else {
                    sig.inputs
                };
                ImplItem::Fn(
                    ImplItemFn {
                        attrs: retain_other_attrs(m.attrs),
                        vis: m.vis,
                        sig: Signature {
                            asyncness: sig.asyncness,
                            ident: sig.ident,
                            ident_span: sig.ident_span,
                            generics: sig.generics,
                            inputs,
                            output: sig.output,
                        },
                        block: m.block,
                    },
                )
            },
            other => other,
        };
        out.push(changed);
    }
    let r = Ast {
        item: ItemImpl {
            attrs: item.attrs,
            generics: item.generics,
            self_ty: item.self_ty,
            items: out,
            span: item.span,
        },
    };
    assert(r@.items =~= ast@.items.map_values(
        |i: ImplItemView| sanitize_item(i, default_builders),
    ));
    r
}

fn failed(results: &Vec<Result<Protocol, Diagnostic>>) -> (r: bool)
    ensures
        r == any_failed(results_view(results@)),
{
    let mut found = false;
    let mut i: usize = 0;
    while i < results.len()
        invariant
            i <= results.len(),
            found == exists|k: int|
                0 <= k < i && (#[trigger] results_view(results@)[k]) is Err,
        decreases results.len() - i,
    {
        if results[i].is_err() {
            assert(results_view(results@)[i as int] is Err);
            found = true;
        }
        i += 1;
    }
    found
}

/// Generates the builders of an impl block. Every factory gets its
/// protocol or a diagnostic; whatever comes of the factories, the block
/// itself is handed back without the markers of the generator.
pub fn do_buildstructor(legacy_default_builders: bool, _config: BuildstructorConfig, ast: Ast) -> (r:
    Expansion)
    ensures
        r.item@ == emitted_item(
            ast@,
            legacy_default_builders,
            any_failed(results_view(r.results@)),
        ),
        are_generated(results_view(r.results@), analysis_of(ast@, legacy_default_builders)),
{
    let results = match analyze(legacy_default_builders, &ast) {
        Ok(builders) => {
            let mut raw: Vec<(Span, Result<Protocol, Diagnostic>)> = Vec::new();
            let mut rest = builders;
            let ghost models = models_view(rest@);
            while rest.len() > 0
                invariant
                    raw@.len() + rest@.len() == models.len(),
                    forall|k: int|
                        0 <= k < raw@.len() ==> is_generated(
                            protocol_result_view((#[trigger] raw@[k]).1),
                            models[k],
                        ) && raw@[k].0 == model_span(models[k]),
                    forall|k: int|
                        0 <= k < rest@.len() ==> model_result_view(#[trigger] rest@[k])
                            == models[raw@.len() + k],
                decreases rest.len(),
            {
                let ghost before = rest@;
                let next = rest.remove(0);
                assert(next == before[0]);
                assert forall|k: int| 0 <= k < rest@.len() implies model_result_view(
                    #[trigger] rest@[k],
                ) == models[raw@.len() + 1 + k] by {
                    assert(rest@[k] == before[k + 1]);
                }
                let span = match &next {
                    Ok(model) => location(model),
                    Err(_) => Span { id: 0 },
                };
                raw.push((span, generate(next)));
            }
            let results = reject_shared_entries(raw);
            proof {
                let spans = models.map_values(
                    |m: Result<BuilderModelView, DiagnosticView>| model_span(m),
                );
                assert(locations(raw@) =~= spans);
                assert(each_generated(located_view(raw@), models));
                assert forall|k: int| 0 <= k < models.len() implies #[trigger] results_view(
                    results@,
                )[k] == settled(located_view(raw@), spans, k) by {
                    assert(results_view(results@)[k] == protocol_result_view(results@[k]));
                }
            }
            results
        },
        Err(e) => {
            let mut results: Vec<Result<Protocol, Diagnostic>> = Vec::new();
            results.push(Err(e));
            assert(results_view(results@) =~= seq![Err::<ProtocolView, DiagnosticView>(e@)]);
            results
        },
    };
    let ghost given = ast@;
    let failed = failed(&results);
    let marked = if failed {
        ast
    } else {
        allow_many_params(ast)
    };
    let clean = sanitize(marked, legacy_default_builders);
    assert(clean@.items =~= emitted_item(given, legacy_default_builders, failed).items);
    Expansion { item: clean.item, results }
}

/// Generates the builders of the factories that are marked with `builder`
/// in an impl block.
pub fn buildstructor(config: BuildstructorConfig, ast: Ast) -> (r: Expansion)
    ensures
        r.item@ == emitted_item(ast@, false, any_failed(results_view(r.results@))),
        are_generated(results_view(r.results@), analysis_of(ast@, false)),
{
    do_buildstructor(false, config, ast)
}

/// Generates the builders of the factories of an impl block, taking every
/// constructor by convention for a factory.
pub fn builder(ast: Ast) -> (r: Expansion)
    ensures
        r.item@ == emitted_item(ast@, true, any_failed(results_view(r.results@))),
        are_generated(results_view(r.results@), analysis_of(ast@, true)),
{
    do_buildstructor(true, BuildstructorConfig {  }, ast)
}

/// Derives, for a struct, the constructor that takes one parameter for
/// each field. The constructor is a factory: its builder is generated from
/// it in turn.
pub fn derive_builder(input: &DeriveInput) -> (r: Result<DerivedConstructor, Diagnostic>)
    ensures
        derived_result_view(r) == derived_constructor_of(input@),
{
    do_derive(input)
}

} // verus!
