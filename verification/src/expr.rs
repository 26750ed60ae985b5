//! The expressions that the bodies of a builder's operations are made of.

use crate::syntax::{Path, PathView, Punctuated, PunctuatedView};
use vstd::prelude::*;

verus! {

#[derive(Debug, PartialEq, Eq)]
pub enum Expr {
    /// A name, such as `self`.
    Path(ExprPath),
    /// A field access `base.member`.
    Field { base: Box<Expr>, member: Member },
    /// A call `func(args)`.
    Call { func: Box<Expr>, args: Vec<Expr> },
    /// A method call `receiver.method(args)`.
    MethodCall { receiver: Box<Expr>, method: String, args: Vec<Expr> },
    /// A tuple `(a, b)`.
    Tuple(ExprTuple),
}

#[derive(Debug, PartialEq, Eq)]
pub struct ExprPath {
    pub path: Path,
}

#[derive(Debug, PartialEq, Eq)]
pub struct ExprTuple {
    pub elems: Punctuated<Expr>,
}

/// The name of a field: an identifier, or the position in a tuple.
#[derive(Debug, PartialEq, Eq)]
pub enum Member {
    Named(String),
    Unnamed(usize),
}

pub enum ExprView {
    Path(PathView),
    Field { base: Box<ExprView>, member: MemberView },
    Call { func: Box<ExprView>, args: Seq<ExprView> },
    MethodCall { receiver: Box<ExprView>, method: Seq<char>, args: Seq<ExprView> },
    Tuple(PunctuatedView<ExprView>),
}

pub enum MemberView {
    Named(Seq<char>),
    Unnamed(usize),
}

impl View for Member {
    type V = MemberView;

    open spec fn view(&self) -> MemberView {
        match self {
            Member::Named(s) => MemberView::Named(s@),
            Member::Unnamed(i) => MemberView::Unnamed(*i),
        }
    }
}

pub open spec fn expr_view(e: Expr) -> ExprView
    decreases e,
{
    match e {
        Expr::Path(p) => ExprView::Path(p.path@),
        Expr::Field { base, member } => ExprView::Field {
            base: Box::new(expr_view(*base)),
            member: member@,
        },
        Expr::Call { func, args } => ExprView::Call {
            func: Box::new(expr_view(*func)),
            args: Seq::new(
                args@.len(),
                |i: int|
                    if 0 <= i < args@.len() {
                        expr_view(args@[i])
                    } else {
                        arbitrary()
                    },
            ),
        },
        Expr::MethodCall { receiver, method, args } => ExprView::MethodCall {
            receiver: Box::new(expr_view(*receiver)),
            method: method@,
            args: Seq::new(
                args@.len(),
                |i: int|
                    if 0 <= i < args@.len() {
                        expr_view(args@[i])
                    } else {
                        arbitrary()
                    },
            ),
        },
        Expr::Tuple(tuple) => ExprView::Tuple(
            PunctuatedView {
                items: Seq::new(
                    tuple.elems.items@.len(),
                    |i: int|
                        if 0 <= i < tuple.elems.items@.len() {
                            expr_view(tuple.elems.items@[i])
                        } else {
                            arbitrary()
                        },
                ),
                trailing: tuple.elems.trailing,
            },
        ),
    }
}

impl View for Expr {
    type V = ExprView;

    open spec fn view(&self) -> ExprView {
        expr_view(*self)
    }
}

impl View for ExprPath {
    type V = PathView;

    open spec fn view(&self) -> PathView {
        self.path@
    }
}

impl View for ExprTuple {
    type V = PunctuatedView<ExprView>;

    open spec fn view(&self) -> PunctuatedView<ExprView> {
        self.elems@
    }
}

/// The views of a sequence of expressions.
pub open spec fn exprs_view(s: Seq<Expr>) -> Seq<ExprView> {
    s.map_values(|e: Expr| e@)
}

/// The view of a call lists the views of its arguments, and the view of a
/// tuple those of its elements.
pub broadcast proof fn lemma_expr_view_items(e: Expr)
    ensures
        #![trigger expr_view(e)]
        e matches Expr::Call { func, args } ==> expr_view(e) == (ExprView::Call {
            func: Box::new(expr_view(*func)),
            args: exprs_view(args@),
        }),
        e matches Expr::MethodCall { receiver, method, args } ==> expr_view(e)
            == (ExprView::MethodCall {
            receiver: Box::new(expr_view(*receiver)),
            method: method@,
            args: exprs_view(args@),
        }),
        e matches Expr::Tuple(tuple) ==> expr_view(e) == ExprView::Tuple(tuple@),
{
    match e {
        Expr::Call { func, args } => {
            assert(expr_view(e)->Call_args =~= exprs_view(args@));
        },
        Expr::MethodCall { receiver, method, args } => {
            assert(expr_view(e)->MethodCall_args =~= exprs_view(args@));
        },
        Expr::Tuple(tuple) => {
            assert(expr_view(e)->Tuple_0.items =~= tuple@.items);
        },
        _ => {},
    }
}

} // verus!
