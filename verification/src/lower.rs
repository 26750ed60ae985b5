//! Classification and lowering: turns the description of a factory into
//! the plan of its builder. Every parameter is classified by the name of
//! its type, the operations get their names, and the visibility, the
//! receiver and the return type are resolved.

use crate::analyze::{BuilderModel, BuilderModelView};
use crate::error::{entry_not_defaulted, Diagnostic, DiagnosticKind, DiagnosticView};
use crate::expr::{exprs_view, lemma_expr_view_items, Expr, ExprView, Member, MemberView};
use crate::generics::{GenericParam, Generics, GenericsView};
use crate::item::{
    attributes_view, fn_args_view, Attribute, AttributeView, FnArg, FnArgView, Pat, PatView,
    Receiver, ReceiverView, ReturnType, ReturnTypeView, Visibility, VisibilityView,
};
use crate::syntax::{
    arguments_view, group_view_items, strs_view, AngleBracketedGenericArguments,
    AngleBracketedView, GenericArgument, GenericArgumentView, Path, PathArguments, PathArgumentsView, PathSegment,
    PathSegmentView, PathView, Punctuated, PunctuatedView, Span, Type, TypePath, TypePathView,
    TypeTuple, TypeView,
};
use crate::text::{
    concat2, concat3, decimal, decimal_string, ends_with, has_suffix, join, join_strings,
    lowercase_of, str_eq, strip_prefix_char, strip_suffix, to_lowercase,
};
use crate::utils::{
    generic_args_of, generic_param_of, get_ident, ident_path, ident_type_path, into_capable,
    path_ident, raw_ident_of, with_trailing_of, wrap_in_generic_of, wrap_in_generic_with_module_of,
    IdentExt, PunctuatedExt, TypeExt,
};
use vstd::prelude::*;
use vstd::string::StringExecFns;

verus! {

broadcast use group_view_items;

/// The kind of a parameter, which decides the operations that its slot
/// gets.
#[derive(Clone, Copy, Debug, PartialEq, Eq, Structural)]
pub enum FieldType {
    /// A value that must be supplied exactly once.
    Regular,
    /// A value that may be left out.
    Optional,
    /// An ordered collection, filled item by item.
    Sequence,
    /// A collection without duplicates.
    Unique,
    /// A collection of values under keys.
    Keyed,
}

/// The element types of a parameter's type, each with its eligibility for
/// implicit conversion.
#[derive(Debug, PartialEq, Eq)]
pub struct GenericTypes {
    pub key_type: Option<Type>,
    pub key_into: bool,
    pub value_type: Option<Type>,
    pub value_into: bool,
    pub generic_type: Option<Type>,
    pub generic_into: bool,
}

pub struct GenericTypesView {
    pub key_type: Option<TypeView>,
    pub key_into: bool,
    pub value_type: Option<TypeView>,
    pub value_into: bool,
    pub generic_type: Option<TypeView>,
    pub generic_into: bool,
}

/// The view of an optional type.
pub open spec fn opt_type_view(t: Option<Type>) -> Option<TypeView> {
    match t {
        Some(t) => Some(t@),
        None => None,
    }
}

impl View for GenericTypes {
    type V = GenericTypesView;

    open spec fn view(&self) -> GenericTypesView {
        GenericTypesView {
            key_type: opt_type_view(self.key_type),
            key_into: self.key_into,
            value_type: opt_type_view(self.value_type),
            value_into: self.value_into,
            generic_type: opt_type_view(self.generic_type),
            generic_into: self.generic_into,
        }
    }
}

impl GenericTypesView {
    /// No element types.
    pub open spec fn empty() -> GenericTypesView {
        GenericTypesView {
            key_type: None,
            key_into: false,
            value_type: None,
            value_into: false,
            generic_type: None,
            generic_into: false,
        }
    }
}

impl Default for GenericTypes {
    fn default() -> (r: Self)
        ensures
            r@ == GenericTypesView::empty(),
    {
        GenericTypes {
            key_type: None,
            key_into: false,
            value_type: None,
            value_into: false,
            generic_type: None,
            generic_into: false,
        }
    }
}

/// One slot of the builder: a parameter of the factory with its kind.
#[derive(Debug, PartialEq, Eq)]
pub struct BuilderField {
    pub name: String,
    pub field_type: FieldType,
    pub ty: Type,
    pub ty_into: bool,
    pub generic_types: GenericTypes,
    pub doc: Vec<Attribute>,
}

pub struct BuilderFieldView {
    pub name: Seq<char>,
    pub field_type: FieldType,
    pub ty: TypeView,
    pub ty_into: bool,
    pub generic_types: GenericTypesView,
    pub doc: Seq<AttributeView>,
}

impl View for BuilderField {
    type V = BuilderFieldView;

    open spec fn view(&self) -> BuilderFieldView {
        BuilderFieldView {
            name: self.name@,
            field_type: self.field_type,
            ty: self.ty@,
            ty_into: self.ty_into,
            generic_types: self.generic_types@,
            doc: attributes_view(self.doc@),
        }
    }
}

/// The views of a sequence of slots.
pub open spec fn builder_fields_view(s: Seq<BuilderField>) -> Seq<BuilderFieldView> {
    s.map_values(|f: BuilderField| f@)
}

/// The plan of a builder.
#[derive(Debug, PartialEq, Eq)]
pub struct Ir {
    pub module_name: String,
    pub impl_name: String,
    pub impl_generics: Generics,
    pub delegate_name: String,
    pub delegate_generics: Generics,
    pub builder_name: String,
    pub builder_fields: Vec<BuilderField>,
    pub builder_return_type: ReturnType,
    pub builder_vis: Visibility,
    pub builder_generics: Generics,
    pub builder_entry: String,
    pub builder_exit: String,
    pub vis: Visibility,
    pub is_async: bool,
    pub receiver: Option<Receiver>,
    pub doc: Vec<Attribute>,
    pub implicit_lifetime: bool,
    pub self_ty: Type,
}

pub struct IrView {
    pub module_name: Seq<char>,
    pub impl_name: Seq<char>,
    pub impl_generics: GenericsView,
    pub delegate_name: Seq<char>,
    pub delegate_generics: GenericsView,
    pub builder_name: Seq<char>,
    pub builder_fields: Seq<BuilderFieldView>,
    pub builder_return_type: ReturnTypeView,
    pub builder_vis: VisibilityView,
    pub builder_generics: GenericsView,
    pub builder_entry: Seq<char>,
    pub builder_exit: Seq<char>,
    pub vis: VisibilityView,
    pub is_async: bool,
    pub receiver: Option<ReceiverView>,
    pub doc: Seq<AttributeView>,
    pub implicit_lifetime: bool,
    pub self_ty: TypeView,
}

/// The view of an optional receiver.
pub open spec fn opt_receiver_view(r: Option<Receiver>) -> Option<ReceiverView> {
    match r {
        Some(r) => Some(r@),
        None => None,
    }
}

impl View for Ir {
    type V = IrView;

    open spec fn view(&self) -> IrView {
        IrView {
            module_name: self.module_name@,
            impl_name: self.impl_name@,
            impl_generics: self.impl_generics@,
            delegate_name: self.delegate_name@,
            delegate_generics: self.delegate_generics@,
            builder_name: self.builder_name@,
            builder_fields: builder_fields_view(self.builder_fields@),
            builder_return_type: self.builder_return_type@,
            builder_vis: self.builder_vis@,
            builder_generics: self.builder_generics@,
            builder_entry: self.builder_entry@,
            builder_exit: self.builder_exit@,
            vis: self.vis@,
            is_async: self.is_async,
            receiver: opt_receiver_view(self.receiver),
            doc: attributes_view(self.doc@),
            implicit_lifetime: self.implicit_lifetime,
            self_ty: self.self_ty@,
        }
    }
}

/// The kind of a parameter of type `t`. Only the name of the type decides:
/// `Option` is optional; `Vec` and names that end in `Stack`, `Heap`,
/// `Deque` or `Buffer` are sequences; names that end in `Set` are sets and
/// names that end in `Map` maps; all others are required.
pub open spec fn field_type_of(t: TypeView) -> FieldType {
    match raw_ident_of(t) {
        Some(f) => if f == "Option"@ {
            FieldType::Optional
        } else if f == "Vec"@ || has_suffix(f, "Stack"@) || has_suffix(f, "Heap"@) || has_suffix(
            f,
            "Deque"@,
        ) || has_suffix(f, "Buffer"@) {
            FieldType::Sequence
        } else if has_suffix(f, "Set"@) {
            FieldType::Unique
        } else if has_suffix(f, "Map"@) {
            FieldType::Keyed
        } else {
            FieldType::Regular
        },
        None => FieldType::Regular,
    }
}

/// Whether the factory described by `model` offers implicit conversion
/// for a position of type `t`.
pub open spec fn into_eligible(model: BuilderModelView, t: TypeView) -> bool {
    model.config.with_into != Some(false) && into_capable(
        t,
        model.impl_generics.params,
        model.delegate_generics.params,
    )
}

/// The element types of a parameter of kind `field_type` and type `t`:
/// the single type argument of an optional, a sequence or a set; the first
/// two type arguments of a map.
pub open spec fn generic_types_of(
    model: BuilderModelView,
    field_type: FieldType,
    t: TypeView,
) -> GenericTypesView {
    match generic_args_of(t) {
        Some(args) => match field_type {
            FieldType::Optional | FieldType::Sequence | FieldType::Unique => if args.len() == 1 {
                match args[0] {
                    GenericArgumentView::Type(c) => GenericTypesView {
                        generic_type: Some(c),
                        generic_into: into_eligible(model, c),
                        ..GenericTypesView::empty()
                    },
                    _ => GenericTypesView::empty(),
                }
            } else {
                GenericTypesView::empty()
            },
            FieldType::Keyed => if args.len() >= 2 {
                match (args[0], args[1]) {
                    (GenericArgumentView::Type(k), GenericArgumentView::Type(v)) => GenericTypesView {
                        key_type: Some(k),
                        key_into: into_eligible(model, k),
                        value_type: Some(v),
                        value_into: into_eligible(model, v),
                        ..GenericTypesView::empty()
                    },
                    _ => GenericTypesView::empty(),
                }
            } else {
                GenericTypesView::empty()
            },
            FieldType::Regular => GenericTypesView::empty(),
        },
        None => GenericTypesView::empty(),
    }
}

/// The name of the slot of the parameter `name`: the name without one
/// leading underscore.
pub open spec fn field_name_of(name: Seq<char>) -> Seq<char> {
    if name.len() > 0 && name[0] == '_' {
        name.subrange(1, name.len() as int)
    } else {
        name
    }
}

/// The slot of the parameter `name` of type `t`, on which `attrs` are
/// written: the documentation of the parameter is that of the slot.
pub open spec fn builder_field_of(
    model: BuilderModelView,
    name: Seq<char>,
    t: TypeView,
    attrs: Seq<AttributeView>,
) -> BuilderFieldView {
    BuilderFieldView {
        name: field_name_of(name),
        field_type: field_type_of(t),
        ty: t,
        ty_into: into_eligible(model, t),
        generic_types: generic_types_of(model, field_type_of(t), t),
        doc: docs_of(attrs),
    }
}

/// The slots of the parameters `args`, in order. The receiver has no slot,
/// nor has a parameter that is no plain name.
pub open spec fn fields_of_args(model: BuilderModelView, args: Seq<FnArgView>) -> Seq<
    BuilderFieldView,
>
    decreases args.len(),
{
    if args.len() == 0 {
        Seq::empty()
    } else {
        let rest = fields_of_args(model, args.drop_last());
        match args.last() {
            FnArgView::Typed(t) => match t.pat {
                PatView::Ident(name) => rest.push(builder_field_of(model, name, t.ty, t.attrs)),
                _ => rest,
            },
            _ => rest,
        }
    }
}

/// The first receiver among `args`.
pub open spec fn receiver_of(args: Seq<FnArgView>) -> Option<ReceiverView>
    decreases args.len(),
{
    if args.len() == 0 {
        None
    } else {
        match receiver_of(args.drop_last()) {
            Some(r) => Some(r),
            None => match args.last() {
                FnArgView::Receiver(r) => Some(r),
                _ => None,
            },
        }
    }
}

/// Whether the builder needs a lifetime of its own: the factory's first
/// parameter is a borrow without a lifetime.
pub open spec fn implicit_lifetime_of(args: Seq<FnArgView>) -> bool {
    args.len() > 0 && match args[0] {
        FnArgView::Receiver(r) => r.reference == Some(None::<Seq<char>>),
        FnArgView::Typed(t) => t.ty matches TypeView::Reference { lifetime, .. } && lifetime
            is None,
    }
}

/// Whether the attribute is a piece of documentation.
pub open spec fn is_doc_attr(a: AttributeView) -> bool {
    path_ident(a.path) == Some("doc"@)
}

/// The documentation among `attrs`.
pub open spec fn docs_of(attrs: Seq<AttributeView>) -> Seq<AttributeView>
    decreases attrs.len(),
{
    if attrs.len() == 0 {
        Seq::empty()
    } else {
        let rest = docs_of(attrs.drop_last());
        if is_doc_attr(attrs.last()) {
            rest.push(attrs.last())
        } else {
            rest
        }
    }
}

/// The location of the diagnostics of a factory: that of its
/// configuration, or that of its name where it has no configuration.
pub open spec fn location_of(model: BuilderModelView) -> Span {
    match model.config.span {
        Some(s) => s,
        None => model.delegate_span,
    }
}

/// The location of the diagnostics of a factory.
pub fn location(model: &BuilderModel) -> (r: Span)
    ensures
        r == location_of(model@),
{
    match model.config.span {
        Some(s) => s,
        None => model.delegate_span,
    }
}

/// The name of the entry operation: the override if there is one; for a
/// factory without receiver, `builder` if it is called `new` and
/// `<prefix>_builder` if it is called `<prefix>_new`. Any other factory
/// needs the override.
pub open spec fn entry_name_of(model: BuilderModelView, receiver: Option<ReceiverView>) -> Result<
    Seq<char>,
    DiagnosticView,
> {
    let method = model.delegate_name;
    let span = location_of(model);
    match model.config.entry {
        Some(name) => Ok(name),
        None => if receiver is None && method == "new"@ {
            Ok("builder"@)
        } else if receiver is None && has_suffix(method, "_new"@) {
            Ok(method.subrange(0, method.len() - 4) + "_builder"@)
        } else {
            Err(entry_not_defaulted(method, span))
        },
    }
}

/// The name of the exit operation: the override if there is one, else
/// `build` for a factory without receiver and `call` for one with.
pub open spec fn exit_name_of(model: BuilderModelView, receiver: Option<ReceiverView>) -> Seq<
    char,
> {
    match model.config.exit {
        Some(name) => name,
        None => if receiver is None {
            "build"@
        } else {
            "call"@
        },
    }
}

/// The type `t` with the target type in place of each `Self` that stands
/// as a type of its own or as a type argument, at any depth. Only where
/// both are paths anything is replaced.
pub open spec fn replace_self_of(t: TypeView, target: TypeView) -> TypeView
    decreases t,
{
    match t {
        TypeView::Path(path) => match target {
            TypeView::Path(self_ty) => if path == ident_type_path("Self"@) {
                target
            } else {
                TypeView::Path(
                    TypePathView {
                        qself: path.qself,
                        path: PathView {
                            leading_colon: path.path.leading_colon,
                            segments: Seq::new(
                                path.path.segments.len(),
                                |i: int|
                                    if 0 <= i < path.path.segments.len() {
                                        replace_self_in_segment(path.path.segments[i], target)
                                    } else {
                                        arbitrary()
                                    },
                            ),
                        },
                    },
                )
            },
            _ => t,
        },
        _ => t,
    }
}

pub open spec fn replace_self_in_segment(s: PathSegmentView, target: TypeView) -> PathSegmentView
    decreases s,
{
    match s.arguments {
        PathArgumentsView::AngleBracketed(a) => PathSegmentView {
            ident: s.ident,
            arguments: PathArgumentsView::AngleBracketed(
                AngleBracketedView {
                    colon2_token: a.colon2_token,
                    args: Seq::new(
                        a.args.len(),
                        |i: int|
                            if 0 <= i < a.args.len() {
                                replace_self_in_argument(a.args[i], target)
                            } else {
                                arbitrary()
                            },
                    ),
                },
            ),
        },
        _ => s,
    }
}

pub open spec fn replace_self_in_argument(
    a: GenericArgumentView,
    target: TypeView,
) -> GenericArgumentView
    decreases a,
{
    match a {
        GenericArgumentView::Type(t) => GenericArgumentView::Type(replace_self_of(t, target)),
        _ => a,
    }
}

/// The return type of the exit operation: that of the factory, with the
/// target type in place of `Self`.
pub open spec fn return_type_of(r: ReturnTypeView, target: TypeView) -> ReturnTypeView {
    match r {
        ReturnTypeView::Type(t) => ReturnTypeView::Type(replace_self_of(t, target)),
        ReturnTypeView::Default => r,
    }
}

/// A visibility as its parser reads it: the path of a restriction as the
/// names of its segments, and whether `::` leads it.
#[derive(Debug, PartialEq, Eq)]
pub enum VisibilityParts {
    Public,
    Restricted { in_token: bool, leading_colon: bool, segments: Vec<String> },
    Inherited,
}

pub enum VisibilityPartsView {
    Public,
    Restricted { in_token: bool, leading_colon: bool, segments: Seq<Seq<char>> },
    Inherited,
}

impl View for VisibilityParts {
    type V = VisibilityPartsView;

    open spec fn view(&self) -> VisibilityPartsView {
        match self {
            VisibilityParts::Public => VisibilityPartsView::Public,
            VisibilityParts::Restricted { in_token, leading_colon, segments } => {
                VisibilityPartsView::Restricted {
                    in_token: *in_token,
                    leading_colon: *leading_colon,
                    segments: strs_view(segments@),
                }
            },
            VisibilityParts::Inherited => VisibilityPartsView::Inherited,
        }
    }
}

/// Declares `syn::Error`, the error of a parser of `syn`. Nothing is
/// known of what it holds; it is only handed on.
#[verifier::external_type_specification]
#[verifier::external_body]
pub struct ExSynError(syn::Error);

/// Calls `syn::parse_str::<syn::Visibility>` and hands back what it read,
/// variant by variant; of the path of a restriction, whether `::` leads it
/// and the name of each segment, each read from its identifier. The text
/// is split into tokens by the process that runs the parser, so nothing is
/// claimed of the result: neither which texts are visibilities, nor that
/// one text is read alike everywhere.
#[verifier::external_body]
fn parse_visibility(text: &str) -> (r: Result<VisibilityParts, syn::Error>) {
    match syn::parse_str::<syn::Visibility>(text)? {
        syn::Visibility::Public(_) => Ok(VisibilityParts::Public),
        syn::Visibility::Restricted(r) => Ok(
            VisibilityParts::Restricted {
                in_token: r.in_token.is_some(),
                leading_colon: r.path.leading_colon.is_some(),
                segments: r.path.segments.iter().map(|s| s.ident.to_string()).collect(),
            },
        ),
        syn::Visibility::Inherited => Ok(VisibilityParts::Inherited),
    }
}

/// The text of the path of a restriction: the names of its segments with
/// `::` between them, and before them where `::` leads the path.
pub open spec fn restriction_text(leading_colon: bool, segments: Seq<Seq<char>>) -> Seq<char> {
    if leading_colon {
        "::"@ + join(segments, "::"@)
    } else {
        join(segments, "::"@)
    }
}

/// The visibility that is made of `parts`.
pub open spec fn visibility_from(parts: VisibilityPartsView) -> VisibilityView {
    match parts {
        VisibilityPartsView::Public => VisibilityView::Public,
        VisibilityPartsView::Restricted { in_token, leading_colon, segments } => {
            VisibilityView::Restricted { in_token, path: restriction_text(leading_colon, segments) }
        },
        VisibilityPartsView::Inherited => VisibilityView::Inherited,
    }
}

/// Whether `v` is a visibility as a parser gives it: one that is made of
/// parts.
pub open spec fn is_read_visibility(v: VisibilityView) -> bool {
    exists|parts: VisibilityPartsView| v == #[trigger] visibility_from(parts)
}

/// Calls `syn::Error::to_string`, which gives the message of a parse
/// error. Nothing is claimed of the text.
#[verifier::external_body]
fn syn_error_message(e: &syn::Error) -> (r: String) {
    e.to_string()
}

/// The visibility `pub(super)`.
pub open spec fn pub_super() -> VisibilityView {
    VisibilityView::Restricted { in_token: false, path: "super"@ }
}

/// The visibility that the builder's parts get, given the override as it
/// was read: the override if there is one, else `default` where the
/// factory has no visibility written, else the factory's own.
pub open spec fn visibility_of(
    model: BuilderModelView,
    overridden: Option<VisibilityView>,
    default: VisibilityView,
) -> VisibilityView {
    resolved_visibility(overridden, model.vis, model.vis, default)
}

/// The override if there is one; without override, `default` where the
/// factory is declared without visibility, and `visibility` else.
pub open spec fn resolved_visibility(
    overridden: Option<VisibilityView>,
    declared: VisibilityView,
    visibility: VisibilityView,
    default: VisibilityView,
) -> VisibilityView {
    match overridden {
        Some(v) => v,
        None => if declared is Inherited {
            default
        } else {
            visibility
        },
    }
}

/// The view of a visibility that may be there.
pub open spec fn opt_visibility_view(v: Option<Visibility>) -> Option<VisibilityView> {
    match v {
        Some(v) => Some(v@),
        None => None,
    }
}

/// Whether `e` is the diagnostic for the visibility override of `model`,
/// whatever its words.
pub open spec fn is_invalid_visibility(e: DiagnosticView, model: BuilderModelView) -> bool {
    e.kind == DiagnosticKind::InvalidVisibility && e.span == location_of(model)
}

/// The name of the module that holds the builder of `delegate_name` on
/// `impl_name`.
pub open spec fn module_name_of(impl_name: Seq<char>, delegate_name: Seq<char>) -> Seq<char> {
    "__"@ + lowercase_of(impl_name) + "_"@ + lowercase_of(delegate_name) + "_builder"@
}

/// The name of the builder type for `impl_name`.
pub open spec fn builder_name_of(impl_name: Seq<char>) -> Seq<char> {
    "__"@ + impl_name + "Builder"@
}

/// The single parameter `__P` that the builder type is declared with: the
/// tuple of its slots' states.
pub open spec fn state_generics() -> GenericsView {
    GenericsView {
        params: seq![generic_param_of("__P"@, None)],
        where_clause: None,
    }
}

/// The plan of the builder for `model`, given the two visibilities.
pub open spec fn plan_of(
    model: BuilderModelView,
    vis: VisibilityView,
    builder_vis: VisibilityView,
    entry: Seq<char>,
) -> IrView {
    let receiver = receiver_of(model.delegate_args);
    IrView {
        module_name: module_name_of(model.impl_name, model.delegate_name),
        impl_name: model.impl_name,
        impl_generics: model.impl_generics,
        delegate_name: model.delegate_name,
        delegate_generics: model.delegate_generics,
        builder_name: builder_name_of(model.impl_name),
        builder_fields: fields_of_args(model, model.delegate_args),
        builder_return_type: return_type_of(model.delegate_return_type, model.self_ty),
        builder_vis,
        builder_generics: state_generics(),
        builder_entry: entry,
        builder_exit: exit_name_of(model, receiver),
        vis,
        is_async: model.is_async,
        receiver,
        doc: docs_of(model.attributes),
        implicit_lifetime: implicit_lifetime_of(model.delegate_args),
        self_ty: model.self_ty,
    }
}

/// What lowering gives, given the visibility override as it was read: the
/// plan, or the diagnostic for an entry operation that cannot be named.
pub open spec fn lowered(model: BuilderModelView, overridden: Option<VisibilityView>) -> Result<
    IrView,
    DiagnosticView,
> {
    match entry_name_of(model, receiver_of(model.delegate_args)) {
        Ok(entry) => Ok(
            plan_of(
                model,
                visibility_of(model, overridden, model.vis),
                visibility_of(model, overridden, pub_super()),
                entry,
            ),
        ),
        Err(e) => Err(e),
    }
}

/// Whether `r` is an outcome of lowering `model`. Without visibility
/// override there is one outcome. With one, the outcome follows what the
/// parser makes of its text: the diagnostic for an override that is no
/// visibility, or what lowering gives with a visibility that was read.
pub open spec fn is_lowered(r: Result<IrView, DiagnosticView>, model: BuilderModelView) -> bool {
    match model.config.visibility {
        None => r == lowered(model, None),
        Some(_) => {
            ||| r matches Err(e) && is_invalid_visibility(e, model)
            ||| exists|parts: VisibilityPartsView|
                r == lowered(model, Some(#[trigger] visibility_from(parts)))
        },
    }
}

/// The view of a plan or of the diagnostic in its place.
pub open spec fn ir_result_view(r: Result<Ir, Diagnostic>) -> Result<IrView, DiagnosticView> {
    match r {
        Ok(ir) => Ok(ir@),
        Err(e) => Err(e@),
    }
}

/// The kind of a parameter of type `ty`.
pub fn field_type(ty: &Type) -> (r: FieldType)
    ensures
        r == field_type_of(ty@),
{
    match ty.raw_ident() {
        Some(f) => {
            let f = f.as_str();
            if str_eq(f, "Option") {
                FieldType::Optional
            } else if str_eq(f, "Vec") || ends_with(f, "Stack") || ends_with(f, "Heap") || ends_with(
                f,
                "Deque",
            ) || ends_with(f, "Buffer") {
                FieldType::Sequence
            } else if ends_with(f, "Set") {
                FieldType::Unique
            } else if ends_with(f, "Map") {
                FieldType::Keyed
            } else {
                FieldType::Regular
            }
        },
        None => FieldType::Regular,
    }
}

fn eligible_for_into(model: &BuilderModel, ty: &Type) -> (r: bool)
    ensures
        r == into_eligible(model@, ty@),
{
    model.config.with_into() && ty.is_into_capable(&model.impl_generics, &model.delegate_generics)
}

/// The element types of a parameter of kind `field_type` and type `ty`.
pub fn generic_types(model: &BuilderModel, field_type: &FieldType, ty: &Type) -> (r: GenericTypes)
    ensures
        r@ == generic_types_of(model@, *field_type, ty@),
{
    match ty.generic_args() {
        Some(args) => {
            assert(forall|i: int|
                0 <= i < args@.len() ==> arguments_view(args@)[i] == #[trigger] args@[i]@);
            match field_type {
                FieldType::Optional | FieldType::Sequence | FieldType::Unique => {
                    if args.len() == 1 {
                        match &args[0] {
                            GenericArgument::Type(collection_type) => GenericTypes {
                                key_type: None,
                                key_into: false,
                                value_type: None,
                                value_into: false,
                                generic_type: Some(collection_type.clone()),
                                generic_into: eligible_for_into(model, collection_type),
                            },
                            _ => GenericTypes::default(),
                        }
                    } else {
                        GenericTypes::default()
                    }
                },
                FieldType::Keyed => {
                    if args.len() >= 2 {
                        match (&args[0], &args[1]) {
                            (
                                GenericArgument::Type(key_type),
                                GenericArgument::Type(value_type),
                            ) => GenericTypes {
                                key_type: Some(key_type.clone()),
                                key_into: eligible_for_into(model, key_type),
                                value_type: Some(value_type.clone()),
                                value_into: eligible_for_into(model, value_type),
                                generic_type: None,
                                generic_into: false,
                            },
                            _ => GenericTypes::default(),
                        }
                    } else {
                        GenericTypes::default()
                    }
                },
                FieldType::Regular => GenericTypes::default(),
            }
        },
        None => GenericTypes::default(),
    }
}

/// The slots of the builder: one for each parameter that is a plain name.
pub fn builder_fields(model: &BuilderModel) -> (r: Vec<BuilderField>)
    ensures
        builder_fields_view(r@) == fields_of_args(model@, model@.delegate_args),
{
    let mut out: Vec<BuilderField> = Vec::new();
    let ghost av = fn_args_view(model.delegate_args@);
    let mut i: usize = 0;
    assert(builder_fields_view(out@) =~= Seq::empty());
    while i < model.delegate_args.len()
        invariant
            i <= model.delegate_args.len(),
            av == fn_args_view(model.delegate_args@),
            builder_fields_view(out@) == fields_of_args(model@, av.take(i as int)),
        decreases model.delegate_args.len() - i,
    {
        assert(av.take(i + 1).drop_last() =~= av.take(i as int));
        assert(av.take(i + 1).last() == model.delegate_args@[i as int]@);
        match &model.delegate_args[i] {
            FnArg::Typed(t) => {
                match &t.pat {
                    Pat::Ident(ident) => {
                        let field_type = field_type(&t.ty);
                        let generic_types = generic_types(model, &field_type, &t.ty);
                        let into = eligible_for_into(model, &t.ty);
                        let name = match strip_prefix_char(ident.as_str(), '_') {
                            Some(stripped) => stripped,
                            None => ident.clone(),
                        };
                        let field = BuilderField {
                            ty: t.ty.clone(),
                            ty_into: into,
                            name,
                            field_type,
                            generic_types,
                            doc: extract_docs(&t.attrs),
                        };
                        let ghost before = out@;
                        out.push(field);
                        assert(builder_fields_view(out@) =~= builder_fields_view(before).push(
                            builder_field_of(model@, ident@, t.ty@, attributes_view(t.attrs@)),
                        ));
                    },
                    _ => {},
                }
            },
            FnArg::Receiver(_) => {},
        }
        i += 1;
    }
    assert(av.take(i as int) =~= av);
    out
}

/// The receiver of the factory, if it takes one.
pub fn receiver(model: &BuilderModel) -> (r: Option<Receiver>)
    ensures
        opt_receiver_view(r) == receiver_of(model@.delegate_args),
{
    let mut found: Option<Receiver> = None;
    let ghost av = fn_args_view(model.delegate_args@);
    let mut i: usize = 0;
    while i < model.delegate_args.len()
        invariant
            i <= model.delegate_args.len(),
            av == fn_args_view(model.delegate_args@),
            opt_receiver_view(found) == receiver_of(av.take(i as int)),
        decreases model.delegate_args.len() - i,
    {
        assert(av.take(i + 1).drop_last() =~= av.take(i as int));
        assert(av.take(i + 1).last() == model.delegate_args@[i as int]@);
        if found.is_none() {
            match &model.delegate_args[i] {
                FnArg::Receiver(r) => {
                    found = Some(r.clone());
                },
                FnArg::Typed(_) => {},
            }
        }
        i += 1;
    }
    assert(av.take(i as int) =~= av);
    found
}

/// Whether the factory's first parameter is a borrow without a lifetime.
pub fn implicit_lifetime(model: &BuilderModel) -> (r: bool)
    ensures
        r == implicit_lifetime_of(model@.delegate_args),
{
    if model.delegate_args.len() == 0 {
        return false;
    }
    assert(model@.delegate_args[0] == model.delegate_args@[0]@);
    match &model.delegate_args[0] {
        FnArg::Receiver(r) => match &r.reference {
            Some(None) => true,
            _ => false,
        },
        FnArg::Typed(arg) => match &arg.ty {
            Type::Reference { lifetime, .. } => lifetime.is_none(),
            _ => false,
        },
    }
}

/// The documentation among `attributes`.
pub fn extract_docs(attributes: &Vec<Attribute>) -> (r: Vec<Attribute>)
    ensures
        attributes_view(r@) == docs_of(attributes_view(attributes@)),
{
    let mut out: Vec<Attribute> = Vec::new();
    let ghost av = attributes_view(attributes@);
    let mut i: usize = 0;
    assert(attributes_view(out@) =~= Seq::empty());
    while i < attributes.len()
        invariant
            i <= attributes.len(),
            av == attributes_view(attributes@),
            attributes_view(out@) == docs_of(av.take(i as int)),
        decreases attributes.len() - i,
    {
        assert(av.take(i + 1).drop_last() =~= av.take(i as int));
        assert(av.take(i + 1).last() == attributes@[i as int]@);
        let is_doc = match get_ident(&attributes[i].path) {
            Some(name) => str_eq(name, "doc"),
            None => false,
        };
        if is_doc {
            let ghost before = out@;
            out.push(attributes[i].clone());
            assert(attributes_view(out@) =~= attributes_view(before).push(attributes@[i as int]@));
        }
        i += 1;
    }
    assert(av.take(i as int) =~= av);
    out
}

/// Reads the visibility override of a factory, if it has one. Whether a
/// text is a visibility, and which, is the parser's to say: an override
/// gives either a visibility that is made of the parts that were read, or
/// the diagnostic at the factory.
pub fn visibility_override(model: &BuilderModel) -> (r: Result<Option<Visibility>, Diagnostic>)
    ensures
        model@.config.visibility is None ==> r == Ok::<Option<Visibility>, Diagnostic>(None),
        model@.config.visibility is Some ==> match r {
            Ok(v) => (v matches Some(v) && is_read_visibility(v@)),
            Err(e) => is_invalid_visibility(e@, model@),
        },
{
    match &model.config.visibility {
        Some(text) => match parse_visibility(text.as_str()) {
            Ok(parts) => {
                let v = assemble_visibility(parts);
                assert(v@ == visibility_from(parts@));
                Ok(Some(v))
            },
            Err(e) => Err(
                Diagnostic {
                    kind: DiagnosticKind::InvalidVisibility,
                    span: location(model),
                    message: syn_error_message(&e),
                },
            ),
        },
        None => Ok(None),
    }
}

/// The visibility of a part of the builder. Without override it is
/// `default` where the factory is declared without visibility, and
/// `visibility` else. With one it is the override as it was read, and the
/// diagnostic at the factory where the override is no visibility.
pub fn builder_visibility(model: &BuilderModel, visibility: &Visibility, default: &Visibility) -> (r:
    Result<Visibility, Diagnostic>)
    ensures
        model@.config.visibility is None ==> (r matches Ok(v) && v@ == resolved_visibility(
            None,
            model@.vis,
            visibility@,
            default@,
        )),
        model@.config.visibility is Some ==> match r {
            Ok(v) => is_read_visibility(v@),
            Err(e) => is_invalid_visibility(e@, model@),
        },
{
    match visibility_override(model) {
        Ok(overridden) => Ok(effective_visibility(overridden, &model.vis, visibility, default)),
        Err(e) => Err(e),
    }
}

/// The visibility that is made of `parts`: the path of a restriction is
/// written as the names of its segments with `::` between them.
pub fn assemble_visibility(parts: VisibilityParts) -> (r: Visibility)
    ensures
        r@ == visibility_from(parts@),
{
    match parts {
        VisibilityParts::Public => Visibility::Public,
        VisibilityParts::Restricted { in_token, leading_colon, segments } => {
            let names = join_strings(&segments, "::");
            let path = if leading_colon {
                concat2("::", names.as_str())
            } else {
                names
            };
            Visibility::Restricted { in_token, path }
        },
        VisibilityParts::Inherited => Visibility::Inherited,
    }
}

/// The visibility of a part of the builder, given the override: the
/// override if there is one; else `default` where the factory is declared
/// without visibility, and `visibility` where it is declared with one.
pub fn effective_visibility(
    overridden: Option<Visibility>,
    declared: &Visibility,
    visibility: &Visibility,
    default: &Visibility,
) -> (r: Visibility)
    ensures
        r@ == resolved_visibility(opt_visibility_view(overridden), declared@, visibility@, default@),
{
    match overridden {
        Some(v) => v,
        None => match declared {
            Visibility::Inherited => default.clone(),
            _ => visibility.clone(),
        },
    }
}

#[verifier::loop_isolation(false)]
fn replace_self_in_segment_of(s: &PathSegment, target: &Type) -> (r: PathSegment)
    requires
        target is Path,
    ensures
        r@ == replace_self_in_segment(s@, target@),
    decreases s,
{
    match &s.arguments {
        PathArguments::AngleBracketed(a) => {
            let mut args: Vec<GenericArgument> = Vec::new();
            let mut i: usize = 0;
            while i < a.args.len()
                invariant
                    i <= a.args.len(),
                    target is Path,
                    s.arguments == PathArguments::AngleBracketed(*a),
                    args@.len() == i,
                    forall|j: int|
                        0 <= j < i ==> args@[j]@ == replace_self_in_argument(
                            a.args@[j]@,
                            target@,
                        ),
                decreases a.args.len() - i,
            {
                let arg = match &a.args[i] {
                    GenericArgument::Type(t) => GenericArgument::Type(replace_self(t, target)),
                    other => other.clone(),
                };
                args.push(arg);
                i += 1;
            }
            let replaced = AngleBracketedGenericArguments { colon2_token: a.colon2_token, args };
            assert(replaced@.args =~= replace_self_in_segment(
                s@,
                target@,
            ).arguments->AngleBracketed_0.args);
            PathSegment {
                ident: s.ident.clone(),
                arguments: PathArguments::AngleBracketed(replaced),
            }
        },
        _ => s.clone(),
    }
}

/// The type `ty` with the target type in place of `Self`.
#[verifier::loop_isolation(false)]
pub fn replace_self(ty: &Type, target: &Type) -> (r: Type)
    ensures
        r@ == replace_self_of(ty@, target@),
    decreases ty,
{
    match (ty, target) {
        (Type::Path(path), Type::Path(_)) => {
            let is_self = path.qself.is_none() && match get_ident(&path.path) {
                Some(name) => str_eq(name, "Self"),
                None => false,
            };
            assert(is_self == (path@ == ident_type_path("Self"@))) by {
                if is_self {
                    assert(path@.path.segments =~= ident_type_path("Self"@).path.segments);
                }
            }
            if is_self {
                target.clone()
            } else {
                let mut segments: Vec<PathSegment> = Vec::new();
                let mut i: usize = 0;
                while i < path.path.segments.len()
                    invariant
                        i <= path.path.segments.len(),
                        target is Path,
                        ty == Type::Path(*path),
                        segments@.len() == i,
                        forall|j: int|
                            0 <= j < i ==> segments@[j]@ == replace_self_in_segment(
                                path.path.segments@[j]@,
                                target@,
                            ),
                    decreases path.path.segments.len() - i,
                {
                    segments.push(replace_self_in_segment_of(&path.path.segments[i], target));
                    i += 1;
                }
                let qself = match &path.qself {
                    Some(q) => Some(q.clone()),
                    None => None,
                };
                let replaced = Path { leading_colon: path.path.leading_colon, segments };
                assert(replaced@.segments =~= replace_self_of(
                    ty@,
                    target@,
                )->Path_0.path.segments);
                Type::Path(TypePath { qself, path: replaced })
            }
        },
        _ => ty.clone(),
    }
}

/// The return type of the exit operation.
pub fn builder_return_type(return_type: &ReturnType, target: &Type) -> (r: ReturnType)
    ensures
        r@ == return_type_of(return_type@, target@),
{
    match return_type {
        ReturnType::Type(ty) => ReturnType::Type(replace_self(ty, target)),
        ReturnType::Default => ReturnType::Default,
    }
}

/// The view of a name or of the diagnostic in its place.
pub open spec fn name_result_view(r: Result<String, Diagnostic>) -> Result<Seq<char>, DiagnosticView> {
    match r {
        Ok(s) => Ok(s@),
        Err(e) => Err(e@),
    }
}

/// The name of the entry operation.
pub fn builder_entry(model: &BuilderModel, receiver: &Option<Receiver>) -> (r: Result<
    String,
    Diagnostic,
>)
    ensures
        name_result_view(r) == entry_name_of(model@, opt_receiver_view(*receiver)),
{
    let method_name = model.delegate_name.as_str();
    match &model.config.entry {
        Some(name) => {
            return Ok(name.clone());
        },
        None => {
            if receiver.is_none() {
                if str_eq(method_name, "new") {
                    return Ok(String::from_str("builder"));
                }
                match strip_suffix(method_name, "_new") {
                    Some(stripped) => {
                        proof {
                            reveal_strlit("_new");
                        }
                        return Ok(concat2(stripped.as_str(), "_builder"));
                    },
                    None => {},
                }
            }
        },
    }
    Err(Diagnostic::entry_not_defaulted(method_name, location(model)))
}

/// The name of the exit operation.
pub fn builder_exit(model: &BuilderModel, receiver: &Option<Receiver>) -> (r: String)
    ensures
        r@ == exit_name_of(model@, opt_receiver_view(*receiver)),
{
    match &model.config.exit {
        Some(name) => name.clone(),
        None => {
            if receiver.is_none() {
                String::from_str("build")
            } else {
                String::from_str("call")
            }
        },
    }
}

/// The name of the module that holds a builder, given the names of the
/// target and of the factory in lower case.
pub fn module_name(impl_lower_case: &str, delegate_lower_case: &str) -> (r: String)
    ensures
        r@ == "__"@ + impl_lower_case@ + "_"@ + delegate_lower_case@ + "_builder"@,
{
    let mut name = String::from_str("__");
    name.append(impl_lower_case);
    name.append("_");
    name.append(delegate_lower_case);
    name.append("_builder");
    name
}

/// Lowers the description of a factory to the plan of its builder. Fails
/// where the visibility override is no visibility, and where the entry
/// operation can be given no name.
pub fn lower(model: BuilderModel) -> (r: Result<Ir, Diagnostic>)
    ensures
        is_lowered(ir_result_view(r), model@),
{
    match visibility_override(&model) {
        Ok(overridden) => {
            let ghost read = opt_visibility_view(overridden);
            let r = lower_with(model, overridden);
            proof {
                if read is Some {
                    let parts = choose|parts: VisibilityPartsView|
                        read->0 == #[trigger] visibility_from(parts);
                    assert(ir_result_view(r) == lowered(model@, Some(visibility_from(parts))));
                }
            }
            r
        },
        Err(e) => Err(e),
    }
}

/// Lowers the description of a factory to the plan of its builder, given
/// its visibility override as it was read. Fails where the entry operation
/// can be given no name.
pub fn lower_with(model: BuilderModel, overridden: Option<Visibility>) -> (r: Result<Ir, Diagnostic>)
    ensures
        ir_result_view(r) == lowered(model@, opt_visibility_view(overridden)),
{
    let pub_super = Visibility::Restricted { in_token: false, path: String::from_str("super") };
    let builder_vis = match &overridden {
        Some(v) => v.clone(),
        None => effective_visibility(None, &model.vis, &model.vis, &pub_super),
    };
    let vis = effective_visibility(overridden, &model.vis, &model.vis, &model.vis);
    let receiver = receiver(&model);
    let builder_entry = match builder_entry(&model, &receiver) {
        Ok(name) => name,
        Err(e) => {
            return Err(e);
        },
    };
    let module_name = module_name(
        to_lowercase(model.impl_name.as_str()).as_str(),
        to_lowercase(model.delegate_name.as_str()).as_str(),
    );
    let builder_name = concat3("__", model.impl_name.as_str(), "Builder");
    let builder_return_type = builder_return_type(&model.delegate_return_type, &model.self_ty);
    let builder_exit = builder_exit(&model, &receiver);
    let builder_fields = builder_fields(&model);
    let doc = extract_docs(&model.attributes);
    let implicit_lifetime = implicit_lifetime(&model);
    Ok(
        Ir {
            vis,
            builder_vis,
            module_name,
            impl_name: model.impl_name,
            impl_generics: model.impl_generics,
            self_ty: model.self_ty,
            delegate_name: model.delegate_name,
            delegate_generics: model.delegate_generics,
            builder_name,
            builder_return_type,
            builder_entry,
            builder_exit,
            builder_fields,
            builder_generics: Ir::builder_generics(),
            is_async: model.is_async,
            doc,
            implicit_lifetime,
            receiver,
        },
    )
}

/// The expression `self.fields`, which holds the states of all slots.
pub open spec fn fields_expr() -> ExprView {
    ExprView::Field {
        base: Box::new(ExprView::Path(ident_path("self"@))),
        member: MemberView::Named("fields"@),
    }
}

/// The expression `self.fields.idx`, which holds the state of one slot.
pub open spec fn tuple_field_expr(idx: usize) -> ExprView {
    ExprView::Field { base: Box::new(fields_expr()), member: MemberView::Unnamed(idx) }
}

/// The expression `self.fields.idx.into().value`: the final value of one
/// slot.
pub open spec fn delegate_arg_expr(idx: usize) -> ExprView {
    ExprView::Field {
        base: Box::new(
            ExprView::MethodCall {
                receiver: Box::new(tuple_field_expr(idx)),
                method: "into"@,
                args: Seq::empty(),
            },
        ),
        member: MemberView::Named("value"@),
    }
}

/// The name of the state that a slot of kind `ft` starts in.
pub open spec fn initial_state_name(ft: FieldType) -> Seq<char> {
    if ft == FieldType::Regular {
        "__Required"@
    } else {
        "__Optional"@
    }
}

/// The call that makes the state that a slot of kind `ft` starts in.
pub open spec fn initial_state_expr(ft: FieldType) -> ExprView {
    ExprView::Call {
        func: Box::new(
            ExprView::Path(
                ident_path(
                    if ft == FieldType::Regular {
                        "__required"@
                    } else {
                        "__optional"@
                    },
                ),
            ),
        ),
        args: Seq::empty(),
    }
}

/// The name of the parameter that stands for the state of slot `idx` in
/// the exit operation.
pub open spec fn state_param_name(idx: nat) -> Seq<char> {
    "__P"@ + decimal(idx)
}

/// The name of the parameter that stands for the state of slot `idx` in a
/// setter.
pub open spec fn slot_param_name(idx: nat) -> Seq<char> {
    "__"@ + decimal(idx)
}

impl IrView {
    /// The arguments that the exit operation hands to the factory: the
    /// final value of each slot, in the order of the parameters.
    pub open spec fn delegate_args(self) -> Seq<ExprView> {
        Seq::new(self.builder_fields.len(), |i: int| delegate_arg_expr(i as usize))
    }

    /// The type of the states that the builder starts in: a tuple with
    /// `__Required<T>` for each required slot and `__Optional<T>` for each
    /// other one, found in the builder's module.
    pub open spec fn builder_state_type_initial(self) -> TypeView {
        TypeView::Tuple(
            with_trailing_of(
                PunctuatedView {
                    items: Seq::new(
                        self.builder_fields.len(),
                        |i: int|
                            wrap_in_generic_with_module_of(
                                self.builder_fields[i].ty,
                                self.module_name,
                                initial_state_name(self.builder_fields[i].field_type),
                            ),
                    ),
                    trailing: false,
                },
            ),
        )
    }

    /// The states that the builder starts in.
    pub open spec fn builder_state_initial(self) -> Seq<ExprView> {
        Seq::new(
            self.builder_fields.len(),
            |i: int| initial_state_expr(self.builder_fields[i].field_type),
        )
    }

    /// The parameters of the exit operation: for each slot a state
    /// `__P<i>` that converts into `__Set<T>`.
    pub open spec fn param_generics(self) -> GenericsView {
        GenericsView {
            params: Seq::new(
                self.builder_fields.len(),
                |i: int|
                    generic_param_of(
                        state_param_name(i as nat),
                        Some(
                            wrap_in_generic_of(
                                wrap_in_generic_of(
                                    self.builder_fields[i].ty,
                                    "__Set"@,
                                ),
                                "Into"@,
                            ),
                        ),
                    ),
            ),
            where_clause: None,
        }
    }

    /// The parameters of a setter: for each slot a state `__<i>`.
    pub open spec fn builder_type_generics(self) -> GenericsView {
        GenericsView {
            params: Seq::new(
                self.builder_fields.len(),
                |i: int| generic_param_of(slot_param_name(i as nat), None),
            ),
            where_clause: None,
        }
    }
}

impl Ir {
    pub fn delegate_args(&self) -> (r: Vec<Expr>)
        ensures
            exprs_view(r@) == self@.delegate_args(),
    {
        let mut out: Vec<Expr> = Vec::new();
        let mut idx: usize = 0;
        while idx < self.builder_fields.len()
            invariant
                idx <= self.builder_fields.len(),
                out@.len() == idx,
                forall|j: int| 0 <= j < idx ==> out@[j]@ == delegate_arg_expr(j as usize),
            decreases self.builder_fields.len() - idx,
        {
            let call = Expr::MethodCall {
                receiver: Box::new(self.tuple_field(idx)),
                method: String::from_str("into"),
                args: Vec::new(),
            };
            proof {
                lemma_expr_view_items(call);
                assert(call@->MethodCall_args =~= Seq::empty());
            }
            out.push(
                Expr::Field { base: Box::new(call), member: Member::Named(String::from_str("value")) },
            );
            idx += 1;
        }
        assert(exprs_view(out@) =~= self@.delegate_args());
        out
    }

    pub fn tuple_field(&self, idx: usize) -> (r: Expr)
        ensures
            r@ == tuple_field_expr(idx),
    {
        Expr::Field { base: Box::new(Self::fields()), member: Member::Unnamed(idx) }
    }

    pub fn fields() -> (r: Expr)
        ensures
            r@ == fields_expr(),
    {
        let base = Expr::Path(IdentExt::to_expr_path("self"));
        assert(base@ == ExprView::Path(ident_path("self"@)));
        Expr::Field { base: Box::new(base), member: Member::Named(String::from_str("fields")) }
    }

    pub fn builder_state_type_initial(&self) -> (r: Type)
        ensures
            r@ == self@.builder_state_type_initial(),
    {
        let mut items: Vec<Type> = Vec::new();
        let mut i: usize = 0;
        while i < self.builder_fields.len()
            invariant
                i <= self.builder_fields.len(),
                items@.len() == i,
                forall|j: int|
                    0 <= j < i ==> items@[j]@ == wrap_in_generic_with_module_of(
                        self@.builder_fields[j].ty,
                        self@.module_name,
                        initial_state_name(self@.builder_fields[j].field_type),
                    ),
            decreases self.builder_fields.len() - i,
        {
            let field = &self.builder_fields[i];
            assert(self@.builder_fields[i as int] == field@);
            let wrapped = match field.field_type {
                FieldType::Regular => field.ty.wrap_in_generic_with_module(
                    self.module_name.as_str(),
                    "__Required",
                ),
                _ => field.ty.wrap_in_generic_with_module(self.module_name.as_str(), "__Optional"),
            };
            items.push(wrapped);
            i += 1;
        }
        let tuple = TypeTuple {
            elems: PunctuatedExt::with_trailing(
                Punctuated { items, trailing: false },
            ),
        };
        let r = Type::Tuple(tuple);
        assert(r@->Tuple_0.items =~= self@.builder_state_type_initial()->Tuple_0.items);
        r
    }

    pub fn builder_state_initial(&self) -> (r: Vec<Expr>)
        ensures
            exprs_view(r@) == self@.builder_state_initial(),
    {
        let mut out: Vec<Expr> = Vec::new();
        let mut i: usize = 0;
        while i < self.builder_fields.len()
            invariant
                i <= self.builder_fields.len(),
                out@.len() == i,
                forall|j: int|
                    0 <= j < i ==> out@[j]@ == initial_state_expr(
                        self@.builder_fields[j].field_type,
                    ),
            decreases self.builder_fields.len() - i,
        {
            let field = &self.builder_fields[i];
            assert(self@.builder_fields[i as int] == field@);
            let name = match field.field_type {
                FieldType::Regular => "__required",
                _ => "__optional",
            };
            let call = Expr::Call {
                func: Box::new(Expr::Path(IdentExt::to_expr_path(name))),
                args: Vec::new(),
            };
            proof {
                lemma_expr_view_items(call);
                assert(call@->Call_args =~= Seq::empty());
            }
            out.push(call);
            i += 1;
        }
        assert(exprs_view(out@) =~= self@.builder_state_initial());
        out
    }

    pub fn param_generics(&self) -> (r: Generics)
        ensures
            r@ == self@.param_generics(),
    {
        let mut params: Vec<GenericParam> = Vec::new();
        let mut idx: usize = 0;
        while idx < self.builder_fields.len()
            invariant
                idx <= self.builder_fields.len(),
                params@.len() == idx,
                forall|j: int|
                    0 <= j < idx ==> params@[j]@ == generic_param_of(
                        state_param_name(j as nat),
                        Some(
                            wrap_in_generic_of(
                                wrap_in_generic_of(
                                    self@.builder_fields[j].ty,
                                    "__Set"@,
                                ),
                                "Into"@,
                            ),
                        ),
                    ),
            decreases self.builder_fields.len() - idx,
        {
            let f = &self.builder_fields[idx];
            assert(self@.builder_fields[idx as int] == f@);
            let name = concat2("__P", decimal_string(idx).as_str());
            let bound = f.ty.wrap_in_generic("__Set").wrap_in_generic("Into");
            params.push(IdentExt::to_generic_param(name.as_str(), Some(&bound)));
            idx += 1;
        }
        let r = Generics { params, where_clause: None };
        assert(r@.params =~= self@.param_generics().params);
        r
    }

    pub fn builder_generics() -> (r: Generics)
        ensures
            r@ == state_generics(),
    {
        let mut params: Vec<GenericParam> = Vec::new();
        params.push(IdentExt::to_generic_param("__P", None));
        let r = Generics { params, where_clause: None };
        assert(r@.params =~= state_generics().params);
        r
    }

    pub fn builder_type_generics(&self) -> (r: Generics)
        ensures
            r@ == self@.builder_type_generics(),
    {
        let mut params: Vec<GenericParam> = Vec::new();
        let mut idx: usize = 0;
        while idx < self.builder_fields.len()
            invariant
                idx <= self.builder_fields.len(),
                params@.len() == idx,
                forall|j: int|
                    0 <= j < idx ==> params@[j]@ == generic_param_of(
                        slot_param_name(j as nat),
                        None,
                    ),
            decreases self.builder_fields.len() - idx,
        {
            let name = concat2("__", decimal_string(idx).as_str());
            params.push(IdentExt::to_generic_param(name.as_str(), None));
            idx += 1;
        }
        let r = Generics { params, where_clause: None };
        assert(r@.params =~= self@.builder_type_generics().params);
        r
    }
}

} // verus!
