//! The data model of declarations: types, paths, generics, function
//! arguments and the handful of expressions that a builder is assembled from.
//!
//! Every node holds plain values only. Text that the generator never looks
//! into (a where-predicate, a const parameter, a function body) is kept as
//! its source text. Each node has a mathematical view, built from `Seq`,
//! `Option` and spec structs, over which the contracts of this crate are
//! stated.

use vstd::prelude::*;

verus! {

/// A handle to a source location. The front end hands them out; the
/// generator only carries them into its diagnostics.
#[derive(Clone, Copy, Debug, PartialEq, Eq, Structural)]
pub struct Span {
    pub id: usize,
}

/// A sequence of items with separators between them, and possibly one after
/// the last item.
#[derive(Debug, PartialEq, Eq)]
pub struct Punctuated<T> {
    pub items: Vec<T>,
    pub trailing: bool,
}

pub struct PunctuatedView<V> {
    pub items: Seq<V>,
    pub trailing: bool,
}

impl<T: View> View for Punctuated<T> {
    type V = PunctuatedView<T::V>;

    open spec fn view(&self) -> PunctuatedView<T::V> {
        PunctuatedView { items: self.items@.map_values(|t: T| t@), trailing: self.trailing }
    }
}

/// A type, as far as the generator tells types apart.
#[derive(Debug, PartialEq, Eq)]
pub enum Type {
    /// A path such as `Vec<String>` or `<T as Iterator>::Item`.
    Path(TypePath),
    /// A reference `&'a mut T`.
    Reference { lifetime: Option<String>, mutability: bool, elem: Box<Type> },
    /// A tuple `(A, B)`.
    Tuple(TypeTuple),
    /// Any other type, by its source text.
    Verbatim(String),
}

#[derive(Debug, PartialEq, Eq)]
pub struct TypePath {
    pub qself: Option<QSelf>,
    pub path: Path,
}

/// The `<T as Trait>` part of a qualified path. The generator never looks
/// into the type, which is kept as text.
#[derive(Debug, PartialEq, Eq)]
pub struct QSelf {
    pub ty: String,
    pub position: usize,
    pub as_token: bool,
}

#[derive(Debug, PartialEq, Eq)]
pub struct TypeTuple {
    pub elems: Punctuated<Type>,
}

#[derive(Debug, PartialEq, Eq)]
pub struct Path {
    pub leading_colon: bool,
    pub segments: Vec<PathSegment>,
}

#[derive(Debug, PartialEq, Eq)]
pub struct PathSegment {
    pub ident: String,
    pub arguments: PathArguments,
}

#[derive(Debug, PartialEq, Eq)]
pub enum PathArguments {
    Absent,
    /// `<'a, T>`
    AngleBracketed(AngleBracketedGenericArguments),
    /// `(A, B) -> C`, by its source text.
    Parenthesized(String),
}

#[derive(Debug, PartialEq, Eq)]
pub struct AngleBracketedGenericArguments {
    pub colon2_token: bool,
    pub args: Vec<GenericArgument>,
}

#[derive(Debug, PartialEq, Eq)]
pub enum GenericArgument {
    Lifetime(String),
    Type(Type),
    /// A const argument, a binding or a constraint, by its source text.
    Verbatim(String),
}

pub enum TypeView {
    Path(TypePathView),
    Reference { lifetime: Option<Seq<char>>, mutability: bool, elem: Box<TypeView> },
    Tuple(PunctuatedView<TypeView>),
    Verbatim(Seq<char>),
}

pub struct TypePathView {
    pub qself: Option<QSelfView>,
    pub path: PathView,
}

pub struct QSelfView {
    pub ty: Seq<char>,
    pub position: usize,
    pub as_token: bool,
}

pub struct PathView {
    pub leading_colon: bool,
    pub segments: Seq<PathSegmentView>,
}

pub struct PathSegmentView {
    pub ident: Seq<char>,
    pub arguments: PathArgumentsView,
}

pub enum PathArgumentsView {
    Absent,
    AngleBracketed(AngleBracketedView),
    Parenthesized(Seq<char>),
}

pub struct AngleBracketedView {
    pub colon2_token: bool,
    pub args: Seq<GenericArgumentView>,
}

pub enum GenericArgumentView {
    Lifetime(Seq<char>),
    Type(TypeView),
    Verbatim(Seq<char>),
}

/// The view of an optional string.
pub open spec fn opt_str_view(s: Option<String>) -> Option<Seq<char>> {
    match s {
        Some(s) => Some(s@),
        None => None,
    }
}

/// The views of a sequence of strings.
pub open spec fn strs_view(s: Seq<String>) -> Seq<Seq<char>> {
    s.map_values(|t: String| t@)
}

pub open spec fn qself_view(q: QSelf) -> QSelfView {
    QSelfView { ty: q.ty@, position: q.position, as_token: q.as_token }
}

pub open spec fn type_view(t: Type) -> TypeView
    decreases t,
{
    match t {
        Type::Path(p) => TypeView::Path(
            TypePathView {
                qself: match p.qself {
                    Some(q) => Some(qself_view(q)),
                    None => None,
                },
                path: path_view(p.path),
            },
        ),
        Type::Reference { lifetime, mutability, elem } => TypeView::Reference {
            lifetime: opt_str_view(lifetime),
            mutability,
            elem: Box::new(type_view(*elem)),
        },
        Type::Tuple(tuple) => TypeView::Tuple(
            PunctuatedView {
                items: Seq::new(
                    tuple.elems.items@.len(),
                    |i: int|
                        if 0 <= i < tuple.elems.items@.len() {
                            type_view(tuple.elems.items@[i])
                        } else {
                            arbitrary()
                        },
                ),
                trailing: tuple.elems.trailing,
            },
        ),
        Type::Verbatim(s) => TypeView::Verbatim(s@),
    }
}

pub open spec fn path_view(p: Path) -> PathView
    decreases p,
{
    PathView {
        leading_colon: p.leading_colon,
        segments: Seq::new(
            p.segments@.len(),
            |i: int|
                if 0 <= i < p.segments@.len() {
                    segment_view(p.segments@[i])
                } else {
                    arbitrary()
                },
        ),
    }
}

pub open spec fn segment_view(s: PathSegment) -> PathSegmentView
    decreases s,
{
    PathSegmentView {
        ident: s.ident@,
        arguments: match s.arguments {
            PathArguments::Absent => PathArgumentsView::Absent,
            PathArguments::AngleBracketed(a) => PathArgumentsView::AngleBracketed(
                angle_view(a),
            ),
            PathArguments::Parenthesized(text) => PathArgumentsView::Parenthesized(text@),
        },
    }
}

pub open spec fn angle_view(a: AngleBracketedGenericArguments) -> AngleBracketedView
    decreases a,
{
    AngleBracketedView {
        colon2_token: a.colon2_token,
        args: Seq::new(
            a.args@.len(),
            |i: int|
                if 0 <= i < a.args@.len() {
                    argument_view(a.args@[i])
                } else {
                    arbitrary()
                },
        ),
    }
}

pub open spec fn argument_view(a: GenericArgument) -> GenericArgumentView
    decreases a,
{
    match a {
        GenericArgument::Lifetime(l) => GenericArgumentView::Lifetime(l@),
        GenericArgument::Type(t) => GenericArgumentView::Type(type_view(t)),
        GenericArgument::Verbatim(s) => GenericArgumentView::Verbatim(s@),
    }
}

impl View for QSelf {
    type V = QSelfView;

    open spec fn view(&self) -> QSelfView {
        qself_view(*self)
    }
}

impl View for Type {
    type V = TypeView;

    open spec fn view(&self) -> TypeView {
        type_view(*self)
    }
}

impl View for TypePath {
    type V = TypePathView;

    open spec fn view(&self) -> TypePathView {
        TypePathView {
            qself: match self.qself {
                Some(q) => Some(qself_view(q)),
                None => None,
            },
            path: path_view(self.path),
        }
    }
}

impl View for TypeTuple {
    type V = PunctuatedView<TypeView>;

    open spec fn view(&self) -> PunctuatedView<TypeView> {
        self.elems@
    }
}

impl View for Path {
    type V = PathView;

    open spec fn view(&self) -> PathView {
        path_view(*self)
    }
}

impl View for PathSegment {
    type V = PathSegmentView;

    open spec fn view(&self) -> PathSegmentView {
        segment_view(*self)
    }
}

impl View for AngleBracketedGenericArguments {
    type V = AngleBracketedView;

    open spec fn view(&self) -> AngleBracketedView {
        angle_view(*self)
    }
}

impl View for GenericArgument {
    type V = GenericArgumentView;

    open spec fn view(&self) -> GenericArgumentView {
        argument_view(*self)
    }
}

/// The views of a sequence of types.
pub open spec fn types_view(s: Seq<Type>) -> Seq<TypeView> {
    s.map_values(|t: Type| t@)
}

/// The views of a sequence of generic arguments.
pub open spec fn arguments_view(s: Seq<GenericArgument>) -> Seq<GenericArgumentView> {
    s.map_values(|a: GenericArgument| a@)
}

/// The views of a sequence of path segments.
pub open spec fn segments_view(s: Seq<PathSegment>) -> Seq<PathSegmentView> {
    s.map_values(|g: PathSegment| g@)
}

/// The view of a type lists its tuple elements, path segments and generic
/// arguments item by item.
pub broadcast proof fn lemma_type_view_items(t: Type)
    ensures
        #![trigger type_view(t)]
        t matches Type::Tuple(tuple) ==> type_view(t) == TypeView::Tuple(tuple@) && tuple@.items
            == types_view(tuple.elems.items@),
{
    match t {
        Type::Tuple(tuple) => {
            assert(type_view(t)->Tuple_0.items =~= types_view(tuple.elems.items@));
        },
        _ => {},
    }
}

pub broadcast proof fn lemma_path_view_items(p: Path)
    ensures
        #[trigger] path_view(p).segments == segments_view(p.segments@),
{
    assert(path_view(p).segments =~= segments_view(p.segments@));
}

pub broadcast proof fn lemma_angle_view_items(a: AngleBracketedGenericArguments)
    ensures
        #[trigger] angle_view(a).args == arguments_view(a.args@),
{
    assert(angle_view(a).args =~= arguments_view(a.args@));
}

pub broadcast group group_view_items {
    lemma_type_view_items,
    lemma_path_view_items,
    lemma_angle_view_items,
}

/// Copies an optional string.
pub fn clone_opt_string(s: &Option<String>) -> (r: Option<String>)
    ensures
        opt_str_view(r) == opt_str_view(*s),
{
    match s {
        Some(s) => Some(s.clone()),
        None => None,
    }
}

/// Copies a list of strings.
pub fn clone_strings(v: &Vec<String>) -> (r: Vec<String>)
    ensures
        strs_view(r@) == strs_view(v@),
{
    let mut out: Vec<String> = Vec::new();
    let mut i: usize = 0;
    while i < v.len()
        invariant
            i <= v.len(),
            out@.len() == i,
            forall|j: int| 0 <= j < i ==> out@[j]@ == v@[j]@,
        decreases v.len() - i,
    {
        out.push(v[i].clone());
        i += 1;
    }
    assert(strs_view(out@) =~= strs_view(v@));
    out
}

#[verifier::loop_isolation(false)]
pub fn clone_type(t: &Type) -> (r: Type)
    ensures
        r@ == t@,
    decreases t,
{
    match t {
        Type::Path(p) => {
            let qself = match &p.qself {
                Some(q) => Some(q.clone()),
                None => None,
            };
            Type::Path(TypePath { qself, path: clone_path(&p.path) })
        },
        Type::Reference { lifetime, mutability, elem } => Type::Reference {
            lifetime: clone_opt_string(lifetime),
            mutability: *mutability,
            elem: Box::new(clone_type(elem)),
        },
        Type::Tuple(tuple) => {
            let mut out: Vec<Type> = Vec::new();
            let mut i: usize = 0;
            while i < tuple.elems.items.len()
                invariant
                    i <= tuple.elems.items.len(),
                    out@.len() == i,
                    forall|j: int| 0 <= j < i ==> type_view(out@[j]) == type_view(tuple.elems.items@[j]),
                decreases tuple.elems.items.len() - i,
            {
                out.push(clone_type(&tuple.elems.items[i]));
                i += 1;
            }
            let r = Type::Tuple(
                TypeTuple { elems: Punctuated { items: out, trailing: tuple.elems.trailing } },
            );
            assert(r@->Tuple_0.items =~= t@->Tuple_0.items);
            r
        },
        Type::Verbatim(s) => Type::Verbatim(s.clone()),
    }
}

#[verifier::loop_isolation(false)]
pub fn clone_path(p: &Path) -> (r: Path)
    ensures
        r@ == p@,
    decreases p,
{
    let mut out: Vec<PathSegment> = Vec::new();
    let mut i: usize = 0;
    while i < p.segments.len()
        invariant
            i <= p.segments.len(),
            out@.len() == i,
            forall|j: int| 0 <= j < i ==> segment_view(out@[j]) == segment_view(p.segments@[j]),
        decreases p.segments.len() - i,
    {
        out.push(clone_segment(&p.segments[i]));
        i += 1;
    }
    let r = Path { leading_colon: p.leading_colon, segments: out };
    assert(r@.segments =~= p@.segments);
    r
}

pub fn clone_segment(s: &PathSegment) -> (r: PathSegment)
    ensures
        r@ == s@,
    decreases s,
{
    let arguments = match &s.arguments {
        PathArguments::Absent => PathArguments::Absent,
        PathArguments::AngleBracketed(a) => PathArguments::AngleBracketed(clone_angle(a)),
        PathArguments::Parenthesized(text) => PathArguments::Parenthesized(text.clone()),
    };
    PathSegment { ident: s.ident.clone(), arguments }
}

#[verifier::loop_isolation(false)]
pub fn clone_angle(a: &AngleBracketedGenericArguments) -> (r: AngleBracketedGenericArguments)
    ensures
        r@ == a@,
    decreases a,
{
    let mut out: Vec<GenericArgument> = Vec::new();
    let mut i: usize = 0;
    while i < a.args.len()
        invariant
            i <= a.args.len(),
            out@.len() == i,
            forall|j: int| 0 <= j < i ==> argument_view(out@[j]) == argument_view(a.args@[j]),
        decreases a.args.len() - i,
    {
        out.push(clone_argument(&a.args[i]));
        i += 1;
    }
    let r = AngleBracketedGenericArguments { colon2_token: a.colon2_token, args: out };
    assert(r@.args =~= a@.args);
    r
}

pub fn clone_argument(a: &GenericArgument) -> (r: GenericArgument)
    ensures
        r@ == a@,
    decreases a,
{
    match a {
        GenericArgument::Lifetime(l) => GenericArgument::Lifetime(l.clone()),
        GenericArgument::Type(t) => GenericArgument::Type(clone_type(t)),
        GenericArgument::Verbatim(s) => GenericArgument::Verbatim(s.clone()),
    }
}

impl Clone for QSelf {
    fn clone(&self) -> (r: Self)
        ensures
            r@ == self@,
    {
        QSelf { ty: self.ty.clone(), position: self.position, as_token: self.as_token }
    }
}

impl Clone for Type {
    fn clone(&self) -> (r: Self)
        ensures
            r@ == self@,
    {
        clone_type(self)
    }
}

impl Clone for TypePath {
    fn clone(&self) -> (r: Self)
        ensures
            r@ == self@,
    {
        let qself = match &self.qself {
            Some(q) => Some(q.clone()),
            None => None,
        };
        TypePath { qself, path: clone_path(&self.path) }
    }
}

impl Clone for Path {
    fn clone(&self) -> (r: Self)
        ensures
            r@ == self@,
    {
        clone_path(self)
    }
}

impl Clone for PathSegment {
    fn clone(&self) -> (r: Self)
        ensures
            r@ == self@,
    {
        clone_segment(self)
    }
}

impl Clone for AngleBracketedGenericArguments {
    fn clone(&self) -> (r: Self)
        ensures
            r@ == self@,
    {
        clone_angle(self)
    }
}

impl Clone for GenericArgument {
    fn clone(&self) -> (r: Self)
        ensures
            r@ == self@,
    {
        clone_argument(self)
    }
}

impl Clone for TypeTuple {
    fn clone(&self) -> (r: Self)
        ensures
            r@ == self@,
    {
        let items = self.elems.items.clone();
        let r = TypeTuple { elems: Punctuated { items, trailing: self.elems.trailing } };
        assert(r@.items =~= self@.items);
        r
    }
}

} // verus!
