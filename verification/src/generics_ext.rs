//! Constructions on generic parameter lists: the tuples and argument lists
//! that name their parameters, and the unions of several lists.

use crate::expr::{Expr, ExprTuple};
use crate::generics::{
    params_view, GenericParam, GenericParamView, Generics, GenericsView, TypeParam, TypeParamBound,
    TypeParamBoundView, TypeParamView, WhereClause,
};
use crate::syntax::{
    arguments_view, clone_strings, lemma_angle_view_items, strs_view, types_view,
    AngleBracketedGenericArguments, AngleBracketedView, GenericArgument, GenericArgumentView,
    PathView, Punctuated, PunctuatedView, Type, TypeTuple, TypeView,
};
use crate::text::str_eq;
use crate::utils::{ident_type, with_trailing_of, IdentExt, PunctuatedExt, TypeExt};
use vstd::prelude::*;

verus! {

/// The names of the type parameters among `params`, in order.
pub open spec fn type_param_names(params: Seq<GenericParamView>) -> Seq<Seq<char>>
    decreases params.len(),
{
    if params.len() == 0 {
        Seq::empty()
    } else {
        let rest = type_param_names(params.drop_last());
        match params.last() {
            GenericParamView::Type(t) => rest.push(t.ident),
            _ => rest,
        }
    }
}

/// The type parameters among `params`, in order.
pub open spec fn type_params_in(params: Seq<GenericParam>) -> Seq<TypeParam>
    decreases params.len(),
{
    if params.len() == 0 {
        Seq::empty()
    } else {
        let rest = type_params_in(params.drop_last());
        match params.last() {
            GenericParam::Type(t) => rest.push(t),
            _ => rest,
        }
    }
}

/// The tuple type that names each type parameter, with a separator after
/// the last one.
pub open spec fn tuple_type_of(g: GenericsView) -> PunctuatedView<TypeView> {
    with_trailing_of(
        PunctuatedView {
            items: type_param_names(g.params).map_values(|n: Seq<char>| ident_type(n)),
            trailing: false,
        },
    )
}

/// The arguments that name the type and lifetime parameters among
/// `params`, in order. Const parameters are left out.
pub open spec fn param_arguments(params: Seq<GenericParamView>) -> Seq<GenericArgumentView>
    decreases params.len(),
{
    if params.len() == 0 {
        Seq::empty()
    } else {
        let rest = param_arguments(params.drop_last());
        match params.last() {
            GenericParamView::Type(t) => rest.push(GenericArgumentView::Type(ident_type(t.ident))),
            GenericParamView::Lifetime(l) => rest.push(GenericArgumentView::Lifetime(l.lifetime)),
            GenericParamView::Const(_) => rest,
        }
    }
}

/// The argument list that names the parameters of `g`.
pub open spec fn generic_args_for(g: GenericsView) -> AngleBracketedView {
    AngleBracketedView { colon2_token: false, args: param_arguments(g.params) }
}

/// `g` without its parameter at `idx`, if it has one there.
pub open spec fn without_of(g: GenericsView, idx: int) -> GenericsView {
    if 0 <= idx < g.params.len() {
        GenericsView { params: g.params.remove(idx), ..g }
    } else {
        g
    }
}

/// The predicates of two where-clauses, one after the other.
pub open spec fn merge_where(
    a: Option<Seq<Seq<char>>>,
    b: Option<Seq<Seq<char>>>,
) -> Option<Seq<Seq<char>>> {
    match (a, b) {
        (None, _) => b,
        (Some(_), None) => a,
        (Some(x), Some(y)) => Some(x + y),
    }
}

/// The parameters of `a` followed by those of `b`, under the predicates of
/// both.
pub open spec fn merge_of(a: GenericsView, b: GenericsView) -> GenericsView {
    GenericsView {
        params: a.params + b.params,
        where_clause: merge_where(a.where_clause, b.where_clause),
    }
}

/// The union of the lists in `gs`: their parameters in order, under the
/// predicates of all of them.
pub open spec fn combine_of(gs: Seq<GenericsView>) -> GenericsView
    decreases gs.len(),
{
    if gs.len() == 0 {
        GenericsView::empty()
    } else {
        merge_of(combine_of(gs.drop_last()), gs.last())
    }
}

/// The parameter `p`, with the trait at `path` added to its bounds where
/// it is the type parameter `ident`.
pub open spec fn add_bound_to(
    p: GenericParamView,
    ident: Seq<char>,
    path: PathView,
) -> GenericParamView {
    match p {
        GenericParamView::Type(t) => if t.ident == ident {
            GenericParamView::Type(
                TypeParamView { bounds: t.bounds.push(TypeParamBoundView::Trait(path)), ..t },
            )
        } else {
            p
        },
        _ => p,
    }
}

/// `g`, with the trait that `ty` names added to the bounds of each type
/// parameter called `ident`. A `ty` that is no path changes nothing.
pub open spec fn add_bound_of(g: GenericsView, ident: Seq<char>, ty: TypeView) -> GenericsView {
    match ty {
        TypeView::Path(p) => GenericsView {
            params: g.params.map_values(|q: GenericParamView| add_bound_to(q, ident, p.path)),
            ..g
        },
        _ => g,
    }
}

/// The views of the generics that `gs` refers to.
pub open spec fn generics_views(gs: Seq<&Generics>) -> Seq<GenericsView> {
    gs.map_values(|g: &Generics| g@)
}

pub trait GenericsExt: Sized {
    fn to_tuple_type(&self) -> TypeTuple;

    fn to_generic_args(&self) -> AngleBracketedGenericArguments;

    fn to_expr_tuple<F: Fn(usize, &TypeParam) -> Expr>(&self, populate: F) -> ExprTuple
        requires
            forall|i: usize, t: &TypeParam| call_requires(populate, (i, t)),
    ;

    fn without(self, idx: usize) -> Self;

    fn combine(generics: Vec<&Generics>) -> Self;

    fn add_bound(self, ident: &str, ty: &Type) -> Self;
}

proof fn lemma_take_step<A>(s: Seq<A>, i: int)
    requires
        0 <= i < s.len(),
    ensures
        s.take(i + 1).drop_last() == s.take(i),
        s.take(i + 1).last() == s[i],
        s.take(i + 1).len() == i + 1,
{
    assert(s.take(i + 1).drop_last() =~= s.take(i));
}

impl GenericsExt for Generics {
    fn to_tuple_type(&self) -> (r: TypeTuple)
        ensures
            r@ == tuple_type_of(self@),
    {
        let mut items: Vec<Type> = Vec::new();
        let mut i: usize = 0;
        let ghost pv = params_view(self.params@);
        let ghost f = |n: Seq<char>| ident_type(n);
        while i < self.params.len()
            invariant
                i <= self.params.len(),
                pv == params_view(self.params@),
                f == |n: Seq<char>| ident_type(n),
                types_view(items@) == type_param_names(pv.take(i as int)).map_values(f),
            decreases self.params.len() - i,
        {
            proof {
                lemma_take_step(pv, i as int);
            }
            match &self.params[i] {
                GenericParam::Type(t) => {
                    let ghost before = items@;
                    items.push(Type::Path(t.ident.as_str().to_type_path()));
                    assert(types_view(items@) =~= types_view(before).push(
                        ident_type(t.ident@),
                    ));
                    assert(type_param_names(pv.take(i + 1)).map_values(f) =~= type_param_names(
                        pv.take(i as int),
                    ).map_values(f).push(f(t.ident@)));
                },
                _ => {},
            }
            i += 1;
        }
        assert(pv.take(i as int) =~= pv);
        let r = TypeTuple { elems: Punctuated { items, trailing: false }.with_trailing() };
        r
    }

    fn to_generic_args(&self) -> (r: AngleBracketedGenericArguments)
        ensures
            r@ == generic_args_for(self@),
    {
        let mut args: Vec<GenericArgument> = Vec::new();
        let mut i: usize = 0;
        let ghost pv = params_view(self.params@);
        while i < self.params.len()
            invariant
                i <= self.params.len(),
                pv == params_view(self.params@),
                arguments_view(args@) == param_arguments(pv.take(i as int)),
            decreases self.params.len() - i,
        {
            proof {
                lemma_take_step(pv, i as int);
            }
            let ghost before = args@;
            match &self.params[i] {
                GenericParam::Type(t) => {
                    args.push(GenericArgument::Type(Type::Path(t.ident.as_str().to_type_path())));
                    assert(arguments_view(args@) =~= arguments_view(
                        before,
                    ).push(GenericArgumentView::Type(ident_type(t.ident@))));
                },
                GenericParam::Lifetime(l) => {
                    args.push(GenericArgument::Lifetime(l.lifetime.clone()));
                    assert(arguments_view(args@) =~= arguments_view(
                        before,
                    ).push(GenericArgumentView::Lifetime(l.lifetime@)));
                },
                GenericParam::Const(_) => {},
            }
            i += 1;
        }
        assert(pv.take(i as int) =~= pv);
        let r = AngleBracketedGenericArguments { colon2_token: false, args };
        proof {
            lemma_angle_view_items(r);
        }
        r
    }

    fn to_expr_tuple<F: Fn(usize, &TypeParam) -> Expr>(&self, populate: F) -> (r: ExprTuple)
        ensures
            r.elems.items@.len() == type_params_in(self.params@).len(),
            forall|k: int|
                0 <= k < r.elems.items@.len() ==> call_ensures(
                    populate,
                    (k as usize, &#[trigger] type_params_in(self.params@)[k]),
                    r.elems.items@[k],
                ),
            r.elems.trailing == (r.elems.items@.len() > 0),
    {
        let mut items: Vec<Expr> = Vec::new();
        let mut i: usize = 0;
        while i < self.params.len()
            invariant
                i <= self.params.len(),
                items@.len() == type_params_in(self.params@.take(i as int)).len(),
                items@.len() <= i,
                forall|i: usize, t: &TypeParam| call_requires(populate, (i, t)),
                forall|k: int|
                    0 <= k < items@.len() ==> call_ensures(
                        populate,
                        (k as usize, &#[trigger] type_params_in(self.params@.take(i as int))[k]),
                        items@[k],
                    ),
            decreases self.params.len() - i,
        {
            proof {
                lemma_take_step(self.params@, i as int);
            }
            match &self.params[i] {
                GenericParam::Type(t) => {
                    let e = populate(items.len(), t);
                    items.push(e);
                },
                _ => {},
            }
            i += 1;
        }
        assert(self.params@.take(i as int) =~= self.params@);
        ExprTuple { elems: Punctuated { items, trailing: false }.with_trailing() }
    }

    fn without(self, idx: usize) -> (r: Self)
        ensures
            r@ == without_of(self@, idx as int),
    {
        if idx < self.params.len() {
            let mut params = self.params;
            params.remove(idx);
            let r = Generics { params, where_clause: self.where_clause };
            assert(r@.params =~= self@.params.remove(idx as int));
            r
        } else {
            self
        }
    }

    fn combine(generics: Vec<&Generics>) -> (r: Self)
        ensures
            r@ == combine_of(generics_views(generics@)),
    {
        let mut params: Vec<GenericParam> = Vec::new();
        let mut where_clause: Option<WhereClause> = None;
        let mut i: usize = 0;
        let ghost gv = generics_views(generics@);
        assert(params_view(params@) =~= Seq::empty());
        while i < generics.len()
            invariant
                i <= generics.len(),
                gv == generics_views(generics@),
                (Generics { params, where_clause })@ == combine_of(gv.take(i as int)),
            decreases generics.len() - i,
        {
            proof {
                lemma_take_step(gv, i as int);
            }
            let g = generics[i];
            let ghost old_params = params@;
            let mut more = g.params.clone();
            assert(params_view(more@) =~= params_view(g.params@));
            params.append(&mut more);
            assert(params_view(params@) =~= params_view(old_params) + params_view(g.params@));
            where_clause =
            match (where_clause, &g.where_clause) {
                (None, None) => None,
                (None, Some(w)) => Some(w.clone()),
                (Some(w), None) => Some(w),
                (Some(w), Some(more)) => {
                    let mut predicates = w.predicates;
                    let ghost old_predicates = predicates@;
                    let mut added = clone_strings(&more.predicates);
                    assert(strs_view(added@) == strs_view(more.predicates@));
                    predicates.append(&mut added);
                    assert(strs_view(predicates@) =~= strs_view(old_predicates) + strs_view(
                        more.predicates@,
                    ));
                    Some(WhereClause { predicates })
                },
            };
            i += 1;
        }
        assert(gv.take(i as int) =~= gv);
        Generics { params, where_clause }
    }

    fn add_bound(self, ident: &str, ty: &Type) -> (r: Self)
        ensures
            r@ == add_bound_of(self@, ident@, ty@),
    {
        match ty.to_path() {
            Some(path) => {
                let mut params: Vec<GenericParam> = Vec::new();
                let mut i: usize = 0;
                while i < self.params.len()
                    invariant
                        i <= self.params.len(),
                        params@.len() == i,
                        forall|k: int|
                            0 <= k < i ==> params@[k]@ == add_bound_to(
                                self.params@[k]@,
                                ident@,
                                path@,
                            ),
                    decreases self.params.len() - i,
                {
                    let p = match &self.params[i] {
                        GenericParam::Type(t) => {
                            let mut t2 = t.clone();
                            if str_eq(t.ident.as_str(), ident) {
                                let ghost before = t2.bounds@;
                                t2.bounds.push(TypeParamBound::Trait(path.clone()));
                                assert(t2@.bounds =~= t@.bounds.push(
                                    TypeParamBoundView::Trait(path@),
                                ));
                            }
                            GenericParam::Type(t2)
                        },
                        other => other.clone(),
                    };
                    params.push(p);
                    i += 1;
                }
                let r = Generics { params, where_clause: self.where_clause };
                assert(r@.params =~= add_bound_of(self@, ident@, ty@).params);
                r
            },
            None => self,
        }
    }
}

} // verus!
