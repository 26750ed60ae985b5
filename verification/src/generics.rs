//! Generic parameter lists and where-clauses.

use crate::syntax::{clone_strings, strs_view, Path, PathView, Type, TypeView};
use vstd::prelude::*;

verus! {

/// The generic parameters of a declaration, with its where-clause.
#[derive(Debug, PartialEq, Eq)]
pub struct Generics {
    pub params: Vec<GenericParam>,
    pub where_clause: Option<WhereClause>,
}

#[derive(Debug, PartialEq, Eq)]
pub enum GenericParam {
    Lifetime(LifetimeParam),
    Type(TypeParam),
    /// A const parameter, by its source text.
    Const(String),
}

/// A lifetime parameter such as `'a: 'b`. The lifetime is held with its
/// apostrophe, each bound as its source text.
#[derive(Debug, PartialEq, Eq)]
pub struct LifetimeParam {
    pub lifetime: String,
    pub bounds: Vec<String>,
}

/// A type parameter such as `T: Into<String> = String`.
#[derive(Debug, PartialEq, Eq)]
pub struct TypeParam {
    pub ident: String,
    pub bounds: Vec<TypeParamBound>,
    pub default: Option<Type>,
}

#[derive(Debug, PartialEq, Eq)]
pub enum TypeParamBound {
    /// A plain trait bound, by the trait's path.
    Trait(Path),
    /// A lifetime bound, or a trait bound with a modifier or with bound
    /// lifetimes, by its source text.
    Verbatim(String),
}

/// A where-clause. Each predicate is held as its source text.
#[derive(Debug, PartialEq, Eq)]
pub struct WhereClause {
    pub predicates: Vec<String>,
}

pub struct GenericsView {
    pub params: Seq<GenericParamView>,
    pub where_clause: Option<Seq<Seq<char>>>,
}

pub enum GenericParamView {
    Lifetime(LifetimeParamView),
    Type(TypeParamView),
    Const(Seq<char>),
}

pub struct LifetimeParamView {
    pub lifetime: Seq<char>,
    pub bounds: Seq<Seq<char>>,
}

pub struct TypeParamView {
    pub ident: Seq<char>,
    pub bounds: Seq<TypeParamBoundView>,
    pub default: Option<TypeView>,
}

pub enum TypeParamBoundView {
    Trait(PathView),
    Verbatim(Seq<char>),
}

impl View for TypeParamBound {
    type V = TypeParamBoundView;

    open spec fn view(&self) -> TypeParamBoundView {
        match self {
            TypeParamBound::Trait(p) => TypeParamBoundView::Trait(p@),
            TypeParamBound::Verbatim(s) => TypeParamBoundView::Verbatim(s@),
        }
    }
}

impl View for TypeParam {
    type V = TypeParamView;

    open spec fn view(&self) -> TypeParamView {
        TypeParamView {
            ident: self.ident@,
            bounds: self.bounds@.map_values(|b: TypeParamBound| b@),
            default: match self.default {
                Some(t) => Some(t@),
                None => None,
            },
        }
    }
}

impl View for LifetimeParam {
    type V = LifetimeParamView;

    open spec fn view(&self) -> LifetimeParamView {
        LifetimeParamView { lifetime: self.lifetime@, bounds: strs_view(self.bounds@) }
    }
}

impl View for GenericParam {
    type V = GenericParamView;

    open spec fn view(&self) -> GenericParamView {
        match self {
            GenericParam::Lifetime(l) => GenericParamView::Lifetime(l@),
            GenericParam::Type(t) => GenericParamView::Type(t@),
            GenericParam::Const(s) => GenericParamView::Const(s@),
        }
    }
}

impl View for WhereClause {
    type V = Seq<Seq<char>>;

    open spec fn view(&self) -> Seq<Seq<char>> {
        strs_view(self.predicates@)
    }
}

/// The views of a sequence of generic parameters.
pub open spec fn params_view(s: Seq<GenericParam>) -> Seq<GenericParamView> {
    s.map_values(|p: GenericParam| p@)
}

impl View for Generics {
    type V = GenericsView;

    open spec fn view(&self) -> GenericsView {
        GenericsView {
            params: params_view(self.params@),
            where_clause: match self.where_clause {
                Some(w) => Some(w@),
                None => None,
            },
        }
    }
}

impl GenericsView {
    /// No parameters and no where-clause.
    pub open spec fn empty() -> GenericsView {
        GenericsView { params: Seq::empty(), where_clause: None }
    }
}

impl Clone for TypeParamBound {
    fn clone(&self) -> (r: Self)
        ensures
            r@ == self@,
    {
        match self {
            TypeParamBound::Trait(p) => TypeParamBound::Trait(p.clone()),
            TypeParamBound::Verbatim(s) => TypeParamBound::Verbatim(s.clone()),
        }
    }
}

impl Clone for TypeParam {
    fn clone(&self) -> (r: Self)
        ensures
            r@ == self@,
    {
        let default = match &self.default {
            Some(t) => Some(t.clone()),
            None => None,
        };
        let r = TypeParam { ident: self.ident.clone(), bounds: self.bounds.clone(), default };
        assert(r@.bounds =~= self@.bounds);
        r
    }
}

impl Clone for LifetimeParam {
    fn clone(&self) -> (r: Self)
        ensures
            r@ == self@,
    {
        LifetimeParam { lifetime: self.lifetime.clone(), bounds: clone_strings(&self.bounds) }
    }
}

impl Clone for GenericParam {
    fn clone(&self) -> (r: Self)
        ensures
            r@ == self@,
    {
        match self {
            GenericParam::Lifetime(l) => GenericParam::Lifetime(l.clone()),
            GenericParam::Type(t) => GenericParam::Type(t.clone()),
            GenericParam::Const(s) => GenericParam::Const(s.clone()),
        }
    }
}

impl Clone for WhereClause {
    fn clone(&self) -> (r: Self)
        ensures
            r@ == self@,
    {
        WhereClause { predicates: clone_strings(&self.predicates) }
    }
}

impl Clone for Generics {
    fn clone(&self) -> (r: Self)
        ensures
            r@ == self@,
    {
        let where_clause = match &self.where_clause {
            Some(w) => Some(w.clone()),
            None => None,
        };
        let r = Generics { params: self.params.clone(), where_clause };
        assert(r@.params =~= self@.params);
        r
    }
}

impl Default for Generics {
    fn default() -> (r: Self)
        ensures
            r@ == GenericsView::empty(),
    {
        let r = Generics { params: Vec::new(), where_clause: None };
        assert(r@.params =~= Seq::empty());
        r
    }
}

} // verus!
