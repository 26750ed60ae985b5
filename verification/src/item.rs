//! Declarations: attributes, visibilities, function signatures, impl blocks
//! and the structs that a constructor is derived for.

use crate::generics::{Generics, GenericsView};
use crate::syntax::{clone_opt_string, opt_str_view, Path, PathView, Span, Type, TypeView};
use vstd::prelude::*;

verus! {

/// The value of a `key = value` pair in an attribute.
#[derive(Debug, PartialEq, Eq)]
pub enum Lit {
    Str(String),
    Bool(bool),
    /// Any other expression.
    Other,
}

pub enum LitView {
    Str(Seq<char>),
    Bool(bool),
    Other,
}

/// A `key = value` pair in an attribute, with the location of the value.
#[derive(Debug, PartialEq, Eq)]
pub struct MetaNameValue {
    pub path: Path,
    pub value: Lit,
    pub span: Span,
}

pub struct MetaNameValueView {
    pub path: PathView,
    pub value: LitView,
    pub span: Span,
}

/// What follows the path of an attribute.
#[derive(Debug, PartialEq, Eq)]
pub enum Meta {
    /// Nothing: `#[builder]`.
    Path,
    /// `#[builder(entry = "x")]`: a list of `key = value` pairs, with the
    /// location of its first token.
    List { span: Span, args: Vec<MetaNameValue> },
    /// A list of anything else, with the diagnostic of the front end.
    Malformed { span: Span, message: String },
    /// `#[doc = "text"]`.
    NameValue,
    /// The list of an attribute that configures no builder, such as
    /// `#[allow(unused)]`. The generator does not read it.
    Other,
}

pub enum MetaView {
    Path,
    List { span: Span, args: Seq<MetaNameValueView> },
    Malformed { span: Span, message: Seq<char> },
    NameValue,
    Other,
}

/// An attribute. `text` holds it as written, from `#` to `]`.
#[derive(Debug, PartialEq, Eq)]
pub struct Attribute {
    pub path: Path,
    pub meta: Meta,
    pub text: String,
}

pub struct AttributeView {
    pub path: PathView,
    pub meta: MetaView,
    pub text: Seq<char>,
}

#[derive(Debug, PartialEq, Eq)]
pub enum Visibility {
    /// `pub`
    Public,
    /// `pub(path)` or `pub(in path)`; the path is held as the names of its
    /// segments with `::` between them.
    Restricted { in_token: bool, path: String },
    /// No visibility written.
    Inherited,
}

pub enum VisibilityView {
    Public,
    Restricted { in_token: bool, path: Seq<char> },
    Inherited,
}

/// The receiver of a method: `self`, `&self`, `&'a mut self`.
/// `reference` holds the lifetime of a borrow, if one is written; `ty` the
/// source text of an explicit type.
#[derive(Debug, PartialEq, Eq)]
pub struct Receiver {
    pub reference: Option<Option<String>>,
    pub mutability: bool,
    pub ty: Option<String>,
}

pub struct ReceiverView {
    pub reference: Option<Option<Seq<char>>>,
    pub mutability: bool,
    pub ty: Option<Seq<char>>,
}

#[derive(Debug, PartialEq, Eq)]
pub enum Pat {
    /// A plain name.
    Ident(String),
    /// Any other pattern, by its source text.
    Verbatim(String),
}

pub enum PatView {
    Ident(Seq<char>),
    Verbatim(Seq<char>),
}

/// A parameter `pat: ty`, with the attributes that are written on it.
#[derive(Debug, PartialEq, Eq)]
pub struct PatType {
    pub attrs: Vec<Attribute>,
    pub pat: Pat,
    pub ty: Type,
}

pub struct PatTypeView {
    pub attrs: Seq<AttributeView>,
    pub pat: PatView,
    pub ty: TypeView,
}

#[derive(Debug, PartialEq, Eq)]
pub enum FnArg {
    Receiver(Receiver),
    Typed(PatType),
}

pub enum FnArgView {
    Receiver(ReceiverView),
    Typed(PatTypeView),
}

#[derive(Debug, PartialEq, Eq)]
pub enum ReturnType {
    /// No return type written.
    Default,
    Type(Type),
}

pub enum ReturnTypeView {
    Default,
    Type(TypeView),
}

#[derive(Debug, PartialEq, Eq)]
pub struct Signature {
    pub asyncness: bool,
    pub ident: String,
    pub ident_span: Span,
    pub generics: Generics,
    pub inputs: Vec<FnArg>,
    pub output: ReturnType,
}

pub struct SignatureView {
    pub asyncness: bool,
    pub ident: Seq<char>,
    pub ident_span: Span,
    pub generics: GenericsView,
    pub inputs: Seq<FnArgView>,
    pub output: ReturnTypeView,
}

/// A function in an impl block. The body is held as its source text.
#[derive(Debug, PartialEq, Eq)]
pub struct ImplItemFn {
    pub attrs: Vec<Attribute>,
    pub vis: Visibility,
    pub sig: Signature,
    pub block: String,
}

pub struct ImplItemFnView {
    pub attrs: Seq<AttributeView>,
    pub vis: VisibilityView,
    pub sig: SignatureView,
    pub block: Seq<char>,
}

#[derive(Debug, PartialEq, Eq)]
pub enum ImplItem {
    Fn(ImplItemFn),
    /// A constant, a type or a macro, by its source text.
    Verbatim(String),
}

pub enum ImplItemView {
    Fn(ImplItemFnView),
    Verbatim(Seq<char>),
}

/// An impl block, with its location.
#[derive(Debug, PartialEq, Eq)]
pub struct ItemImpl {
    pub attrs: Vec<Attribute>,
    pub generics: Generics,
    pub self_ty: Type,
    pub items: Vec<ImplItem>,
    pub span: Span,
}

pub struct ItemImplView {
    pub attrs: Seq<AttributeView>,
    pub generics: GenericsView,
    pub self_ty: TypeView,
    pub items: Seq<ImplItemView>,
    pub span: Span,
}

/// A field of a struct.
#[derive(Debug, PartialEq, Eq)]
pub struct Field {
    pub attrs: Vec<Attribute>,
    pub ident: Option<String>,
    pub ty: Type,
}

pub struct FieldView {
    pub attrs: Seq<AttributeView>,
    pub ident: Option<Seq<char>>,
    pub ty: TypeView,
}

#[derive(Debug, PartialEq, Eq)]
pub enum Data {
    Struct(Vec<Field>),
    /// An enum or a union.
    Other,
}

pub enum DataView {
    Struct(Seq<FieldView>),
    Other,
}

/// The declaration that a constructor is derived for. The visibility is
/// held as its source text.
#[derive(Debug, PartialEq, Eq)]
pub struct DeriveInput {
    pub vis: String,
    pub ident: String,
    pub generics: Generics,
    pub data: Data,
    pub span: Span,
}

pub struct DeriveInputView {
    pub vis: Seq<char>,
    pub ident: Seq<char>,
    pub generics: GenericsView,
    pub data: DataView,
    pub span: Span,
}

impl View for Lit {
    type V = LitView;

    open spec fn view(&self) -> LitView {
        match self {
            Lit::Str(s) => LitView::Str(s@),
            Lit::Bool(b) => LitView::Bool(*b),
            Lit::Other => LitView::Other,
        }
    }
}

impl View for MetaNameValue {
    type V = MetaNameValueView;

    open spec fn view(&self) -> MetaNameValueView {
        MetaNameValueView { path: self.path@, value: self.value@, span: self.span }
    }
}

/// The views of a sequence of `key = value` pairs.
pub open spec fn name_values_view(s: Seq<MetaNameValue>) -> Seq<MetaNameValueView> {
    s.map_values(|a: MetaNameValue| a@)
}

impl View for Meta {
    type V = MetaView;

    open spec fn view(&self) -> MetaView {
        match self {
            Meta::Path => MetaView::Path,
            Meta::List { span, args } => MetaView::List {
                span: *span,
                args: name_values_view(args@),
            },
            Meta::Malformed { span, message } => MetaView::Malformed {
                span: *span,
                message: message@,
            },
            Meta::NameValue => MetaView::NameValue,
            Meta::Other => MetaView::Other,
        }
    }
}

impl View for Attribute {
    type V = AttributeView;

    open spec fn view(&self) -> AttributeView {
        AttributeView { path: self.path@, meta: self.meta@, text: self.text@ }
    }
}

/// The views of a sequence of attributes.
pub open spec fn attributes_view(s: Seq<Attribute>) -> Seq<AttributeView> {
    s.map_values(|a: Attribute| a@)
}

impl View for Visibility {
    type V = VisibilityView;

    open spec fn view(&self) -> VisibilityView {
        match self {
            Visibility::Public => VisibilityView::Public,
            Visibility::Restricted { in_token, path } => VisibilityView::Restricted {
                in_token: *in_token,
                path: path@,
            },
            Visibility::Inherited => VisibilityView::Inherited,
        }
    }
}

impl View for Receiver {
    type V = ReceiverView;

    open spec fn view(&self) -> ReceiverView {
        ReceiverView {
            reference: match self.reference {
                Some(l) => Some(opt_str_view(l)),
                None => None,
            },
            mutability: self.mutability,
            ty: opt_str_view(self.ty),
        }
    }
}

impl View for Pat {
    type V = PatView;

    open spec fn view(&self) -> PatView {
        match self {
            Pat::Ident(s) => PatView::Ident(s@),
            Pat::Verbatim(s) => PatView::Verbatim(s@),
        }
    }
}

impl View for PatType {
    type V = PatTypeView;

    open spec fn view(&self) -> PatTypeView {
        PatTypeView { attrs: attributes_view(self.attrs@), pat: self.pat@, ty: self.ty@ }
    }
}

impl View for FnArg {
    type V = FnArgView;

    open spec fn view(&self) -> FnArgView {
        match self {
            FnArg::Receiver(r) => FnArgView::Receiver(r@),
            FnArg::Typed(t) => FnArgView::Typed(t@),
        }
    }
}

/// The views of a sequence of function arguments.
pub open spec fn fn_args_view(s: Seq<FnArg>) -> Seq<FnArgView> {
    s.map_values(|a: FnArg| a@)
}

impl View for ReturnType {
    type V = ReturnTypeView;

    open spec fn view(&self) -> ReturnTypeView {
        match self {
            ReturnType::Default => ReturnTypeView::Default,
            ReturnType::Type(t) => ReturnTypeView::Type(t@),
        }
    }
}

impl View for Signature {
    type V = SignatureView;

    open spec fn view(&self) -> SignatureView {
        SignatureView {
            asyncness: self.asyncness,
            ident: self.ident@,
            ident_span: self.ident_span,
            generics: self.generics@,
            inputs: fn_args_view(self.inputs@),
            output: self.output@,
        }
    }
}

impl View for ImplItemFn {
    type V = ImplItemFnView;

    open spec fn view(&self) -> ImplItemFnView {
        ImplItemFnView {
            attrs: attributes_view(self.attrs@),
            vis: self.vis@,
            sig: self.sig@,
            block: self.block@,
        }
    }
}

impl View for ImplItem {
    type V = ImplItemView;

    open spec fn view(&self) -> ImplItemView {
        match self {
            ImplItem::Fn(f) => ImplItemView::Fn(f@),
            ImplItem::Verbatim(s) => ImplItemView::Verbatim(s@),
        }
    }
}

/// The views of a sequence of impl items.
pub open spec fn impl_items_view(s: Seq<ImplItem>) -> Seq<ImplItemView> {
    s.map_values(|i: ImplItem| i@)
}

impl View for ItemImpl {
    type V = ItemImplView;

    open spec fn view(&self) -> ItemImplView {
        ItemImplView {
            attrs: attributes_view(self.attrs@),
            generics: self.generics@,
            self_ty: self.self_ty@,
            items: impl_items_view(self.items@),
            span: self.span,
        }
    }
}

impl View for Field {
    type V = FieldView;

    open spec fn view(&self) -> FieldView {
        FieldView { attrs: attributes_view(self.attrs@), ident: opt_str_view(self.ident), ty: self.ty@ }
    }
}

/// The views of a sequence of fields.
pub open spec fn fields_view(s: Seq<Field>) -> Seq<FieldView> {
    s.map_values(|f: Field| f@)
}

impl View for Data {
    type V = DataView;

    open spec fn view(&self) -> DataView {
        match self {
            Data::Struct(fields) => DataView::Struct(fields_view(fields@)),
            Data::Other => DataView::Other,
        }
    }
}

impl View for DeriveInput {
    type V = DeriveInputView;

    open spec fn view(&self) -> DeriveInputView {
        DeriveInputView {
            vis: self.vis@,
            ident: self.ident@,
            generics: self.generics@,
            data: self.data@,
            span: self.span,
        }
    }
}

impl Clone for Lit {
    fn clone(&self) -> (r: Self)
        ensures
            r@ == self@,
    {
        match self {
            Lit::Str(s) => Lit::Str(s.clone()),
            Lit::Bool(b) => Lit::Bool(*b),
            Lit::Other => Lit::Other,
        }
    }
}

impl Clone for MetaNameValue {
    fn clone(&self) -> (r: Self)
        ensures
            r@ == self@,
    {
        MetaNameValue { path: self.path.clone(), value: self.value.clone(), span: self.span }
    }
}

impl Clone for Meta {
    fn clone(&self) -> (r: Self)
        ensures
            r@ == self@,
    {
        match self {
            Meta::Path => Meta::Path,
            Meta::List { span, args } => {
                let r = Meta::List { span: *span, args: args.clone() };
                assert(r@->List_args =~= self@->List_args);
                r
            },
            Meta::Malformed { span, message } => Meta::Malformed {
                span: *span,
                message: message.clone(),
            },
            Meta::NameValue => Meta::NameValue,
            Meta::Other => Meta::Other,
        }
    }
}

impl Clone for Attribute {
    fn clone(&self) -> (r: Self)
        ensures
            r@ == self@,
    {
        Attribute { path: self.path.clone(), meta: self.meta.clone(), text: self.text.clone() }
    }
}

impl Clone for Visibility {
    fn clone(&self) -> (r: Self)
        ensures
            r@ == self@,
    {
        match self {
            Visibility::Public => Visibility::Public,
            Visibility::Restricted { in_token, path } => Visibility::Restricted {
                in_token: *in_token,
                path: path.clone(),
            },
            Visibility::Inherited => Visibility::Inherited,
        }
    }
}

impl Clone for Receiver {
    fn clone(&self) -> (r: Self)
        ensures
            r@ == self@,
    {
        let reference = match &self.reference {
            Some(l) => Some(clone_opt_string(l)),
            None => None,
        };
        Receiver { reference, mutability: self.mutability, ty: clone_opt_string(&self.ty) }
    }
}

impl Clone for Pat {
    fn clone(&self) -> (r: Self)
        ensures
            r@ == self@,
    {
        match self {
            Pat::Ident(s) => Pat::Ident(s.clone()),
            Pat::Verbatim(s) => Pat::Verbatim(s.clone()),
        }
    }
}

impl Clone for PatType {
    fn clone(&self) -> (r: Self)
        ensures
            r@ == self@,
    {
        PatType { attrs: clone_attributes(&self.attrs), pat: self.pat.clone(), ty: self.ty.clone() }
    }
}

impl Clone for FnArg {
    fn clone(&self) -> (r: Self)
        ensures
            r@ == self@,
    {
        match self {
            FnArg::Receiver(r) => FnArg::Receiver(r.clone()),
            FnArg::Typed(t) => FnArg::Typed(t.clone()),
        }
    }
}

impl Clone for ReturnType {
    fn clone(&self) -> (r: Self)
        ensures
            r@ == self@,
    {
        match self {
            ReturnType::Default => ReturnType::Default,
            ReturnType::Type(t) => ReturnType::Type(t.clone()),
        }
    }
}

/// Copies a list of attributes.
pub fn clone_attributes(attrs: &Vec<Attribute>) -> (r: Vec<Attribute>)
    ensures
        attributes_view(r@) == attributes_view(attrs@),
{
    let r = attrs.clone();
    assert(attributes_view(r@) =~= attributes_view(attrs@));
    r
}

/// Copies a list of function arguments.
pub fn clone_fn_args(args: &Vec<FnArg>) -> (r: Vec<FnArg>)
    ensures
        fn_args_view(r@) == fn_args_view(args@),
{
    let r = args.clone();
    assert(fn_args_view(r@) =~= fn_args_view(args@));
    r
}

} // verus!
