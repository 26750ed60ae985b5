//! Small constructions on names, types and argument lists that lowering and
//! synthesis are written with.

use crate::expr::{Expr, ExprPath, ExprTuple};
use crate::generics::{
    GenericParam, GenericParamView, Generics, TypeParam, TypeParamBound, TypeParamBoundView,
    TypeParamView,
};
use crate::syntax::{
    arguments_view, group_view_items, opt_str_view, segments_view, strs_view,
    AngleBracketedGenericArguments, AngleBracketedView, GenericArgument, GenericArgumentView, Path,
    PathArguments, PathArgumentsView, PathSegment, PathSegmentView, PathView, Punctuated,
    PunctuatedView, Type, TypePath, TypePathView, TypeTuple, TypeView,
};
use crate::text::{concat2, join, join_strings, split_double_colon, split_path, str_eq};
pub use crate::generics_ext::GenericsExt;
use vstd::prelude::*;
use vstd::string::StringExecFns;

verus! {

broadcast use group_view_items;

/// A sequence with a separator after its last item, unless it is empty.
pub open spec fn with_trailing_of<V>(p: PunctuatedView<V>) -> PunctuatedView<V> {
    PunctuatedView { items: p.items, trailing: p.items.len() > 0 }
}

/// The path that is made of one name.
pub open spec fn ident_path(name: Seq<char>) -> PathView {
    PathView {
        leading_colon: false,
        segments: seq![PathSegmentView { ident: name, arguments: PathArgumentsView::Absent }],
    }
}

/// The type path that is made of one name.
pub open spec fn ident_type_path(name: Seq<char>) -> TypePathView {
    TypePathView { qself: None, path: ident_path(name) }
}

/// The type that is made of one name.
pub open spec fn ident_type(name: Seq<char>) -> TypeView {
    TypeView::Path(ident_type_path(name))
}

/// The type parameter `name`, bounded by the trait at `bound`'s path where
/// a bound is given.
pub open spec fn generic_param_of(name: Seq<char>, bound: Option<TypeView>) -> GenericParamView {
    GenericParamView::Type(
        TypeParamView {
            ident: name,
            bounds: match bound {
                Some(TypeView::Path(p)) => seq![TypeParamBoundView::Trait(p.path)],
                _ => Seq::empty(),
            },
            default: None,
        },
    )
}

/// The name of a type that is written as a single name, with or without
/// generic arguments: `Vec` for `Vec<String>`, nothing for `std::vec::Vec`.
pub open spec fn raw_ident_of(t: TypeView) -> Option<Seq<char>> {
    match t {
        TypeView::Path(p) => if !p.path.leading_colon && p.path.segments.len() == 1 {
            Some(p.path.segments[0].ident)
        } else {
            None
        },
        _ => None,
    }
}

/// The generic arguments of a type that is written as a single name with
/// arguments in angle brackets.
pub open spec fn generic_args_of(t: TypeView) -> Option<Seq<GenericArgumentView>> {
    match t {
        TypeView::Path(p) => if !p.path.leading_colon && p.path.segments.len() == 1 {
            match p.path.segments[0].arguments {
                PathArgumentsView::AngleBracketed(a) => Some(a.args),
                _ => None,
            }
        } else {
            None
        },
        _ => None,
    }
}

/// The path segment `name<t>`.
pub open spec fn wrapping_segment(name: Seq<char>, t: TypeView) -> PathSegmentView {
    PathSegmentView {
        ident: name,
        arguments: PathArgumentsView::AngleBracketed(
            AngleBracketedView { colon2_token: false, args: seq![GenericArgumentView::Type(t)] },
        ),
    }
}

/// The type `name<t>`.
pub open spec fn wrap_in_generic_of(t: TypeView, name: Seq<char>) -> TypeView {
    TypeView::Path(
        TypePathView {
            qself: None,
            path: PathView { leading_colon: false, segments: seq![wrapping_segment(name, t)] },
        },
    )
}

/// The type `module::name<t>`.
pub open spec fn wrap_in_generic_with_module_of(
    t: TypeView,
    module: Seq<char>,
    name: Seq<char>,
) -> TypeView {
    TypeView::Path(
        TypePathView {
            qself: None,
            path: PathView {
                leading_colon: false,
                segments: seq![
                    PathSegmentView { ident: module, arguments: PathArgumentsView::Absent },
                    wrapping_segment(name, t),
                ],
            },
        },
    )
}

/// The path of a path type.
pub open spec fn path_of(t: TypeView) -> Option<PathView> {
    match t {
        TypeView::Path(p) => Some(p.path),
        _ => None,
    }
}

pub trait PunctuatedExt {
    /// Puts a separator after the last item, if there is an item and no
    /// separator yet. An empty sequence ends in none.
    fn with_trailing(self) -> Self;
}

impl<T: View> PunctuatedExt for Punctuated<T> {
    fn with_trailing(self) -> (r: Self)
        ensures
            r.items == self.items,
            r@ == with_trailing_of(self@),
    {
        let trailing = self.items.len() > 0;
        Punctuated { items: self.items, trailing }
    }
}

pub trait IdentExt {
    /// A type parameter of this name, bounded by the trait that `ty` names.
    fn to_generic_param(&self, ty: Option<&Type>) -> GenericParam
        requires
            ty matches Some(t) ==> t is Path,
    ;

    fn to_path(&self) -> Path;

    fn to_expr_path(&self) -> ExprPath;

    fn to_type_path(&self) -> TypePath;
}

impl IdentExt for str {
    fn to_generic_param(&self, ty: Option<&Type>) -> (r: GenericParam)
        ensures
            r@ == generic_param_of(
                self@,
                match ty {
                    Some(t) => Some(t@),
                    None => None,
                },
            ),
    {
        let mut bounds: Vec<TypeParamBound> = Vec::new();
        match ty {
            Some(t) => {
                match t.to_path() {
                    Some(path) => {
                        bounds.push(TypeParamBound::Trait(path));
                    },
                    None => {},
                }
            },
            None => {},
        }
        let r = GenericParam::Type(
            TypeParam { ident: String::from_str(self), bounds, default: None },
        );
        assert(r@->Type_0.bounds =~= generic_param_of(
            self@,
            match ty {
                Some(t) => Some(t@),
                None => None,
            },
        )->Type_0.bounds);
        r
    }

    fn to_path(&self) -> (r: Path)
        ensures
            r@ == ident_path(self@),
    {
        let mut segments: Vec<PathSegment> = Vec::new();
        segments.push(PathSegment { ident: String::from_str(self), arguments: PathArguments::Absent });
        let r = Path { leading_colon: false, segments };
        assert(r@.segments =~= ident_path(self@).segments);
        r
    }

    fn to_expr_path(&self) -> (r: ExprPath)
        ensures
            r@ == ident_path(self@),
    {
        ExprPath { path: self.to_path() }
    }

    fn to_type_path(&self) -> (r: TypePath)
        ensures
            r@ == ident_type_path(self@),
    {
        TypePath { qself: None, path: self.to_path() }
    }
}

pub trait ExprTupleExt: Sized {
    spec fn arity(&self) -> nat;

    /// Puts `expr` in place of the element at `idx`.
    fn with_expr(self, idx: usize, expr: Expr) -> Self
        requires
            idx < self.arity(),
    ;
}

impl ExprTupleExt for ExprTuple {
    open spec fn arity(&self) -> nat {
        self.elems.items@.len()
    }

    fn with_expr(self, idx: usize, expr: Expr) -> (r: Self)
        ensures
            r@ == (PunctuatedView { items: self@.items.update(idx as int, expr@), ..self@ }),
            r.elems.items@ == self.elems.items@.update(idx as int, expr),
    {
        let mut elems = self.elems;
        elems.items.set(idx, expr);
        let r = ExprTuple { elems };
        assert(r@.items =~= self@.items.update(idx as int, expr@));
        r
    }
}

pub trait TypeTupleExt: Sized {
    spec fn arity(&self) -> nat;

    /// Puts `ty` in place of the element at `idx`.
    fn with_type(self, idx: usize, ty: Type) -> Self
        requires
            idx < self.arity(),
    ;
}

impl TypeTupleExt for TypeTuple {
    open spec fn arity(&self) -> nat {
        self.elems.items@.len()
    }

    fn with_type(self, idx: usize, ty: Type) -> (r: Self)
        ensures
            r@ == (PunctuatedView { items: self@.items.update(idx as int, ty@), ..self@ }),
    {
        let mut elems = self.elems;
        elems.items.set(idx, ty);
        let r = TypeTuple { elems };
        assert(r@.items =~= self@.items.update(idx as int, ty@));
        r
    }
}

/// The argument list with the type `t` put in at `idx`.
pub open spec fn insert_type_of(a: AngleBracketedView, idx: int, t: TypeView) -> AngleBracketedView {
    AngleBracketedView { args: a.args.insert(idx, GenericArgumentView::Type(t)), ..a }
}

/// The argument list, with the lifetime `'__a` put in front of it where
/// `implicit_lifetime` holds.
pub open spec fn with_implicit_lifetime_of(
    a: AngleBracketedView,
    implicit_lifetime: bool,
) -> AngleBracketedView {
    if implicit_lifetime {
        AngleBracketedView { args: a.args.insert(0, GenericArgumentView::Lifetime("'__a"@)), ..a }
    } else {
        a
    }
}

pub trait AngleBracketedGenericArgumentsExt: Sized {
    spec fn arity(&self) -> nat;

    /// Puts the type `ty` in at `idx`.
    fn insert(self, idx: usize, ty: Type) -> Self
        requires
            idx <= self.arity(),
    ;

    /// The list itself, or nothing where it is empty.
    fn maybe(self) -> Option<Self>;

    /// Puts the lifetime `'__a` in front where `implicit_lifetime` holds.
    fn with_implicit_lifetime(self, implicit_lifetime: bool) -> Self;
}

impl AngleBracketedGenericArgumentsExt for AngleBracketedGenericArguments {
    open spec fn arity(&self) -> nat {
        self.args@.len()
    }

    fn insert(self, idx: usize, ty: Type) -> (r: Self)
        ensures
            r@ == insert_type_of(self@, idx as int, ty@),
    {
        let mut args = self.args;
        args.insert(idx, GenericArgument::Type(ty));
        let r = AngleBracketedGenericArguments { colon2_token: self.colon2_token, args };
        assert(r@.args =~= insert_type_of(self@, idx as int, ty@).args);
        r
    }

    fn maybe(self) -> (r: Option<Self>)
        ensures
            r is Some == (self@.args.len() > 0),
            r matches Some(a) ==> a@ == self@,
    {
        if self.args.len() == 0 {
            None
        } else {
            Some(self)
        }
    }

    fn with_implicit_lifetime(self, implicit_lifetime: bool) -> (r: Self)
        ensures
            r@ == with_implicit_lifetime_of(self@, implicit_lifetime),
    {
        if implicit_lifetime {
            let mut args = self.args;
            args.insert(0, GenericArgument::Lifetime(String::from_str("'__a")));
            let r = AngleBracketedGenericArguments { colon2_token: self.colon2_token, args };
            assert(r@.args =~= with_implicit_lifetime_of(self@, implicit_lifetime).args);
            r
        } else {
            self
        }
    }
}

/// The type `name<ty>` as an exec value.
fn wrapping_segment_for(name: &str, ty: &Type) -> (r: PathSegment)
    ensures
        r@ == wrapping_segment(name@, ty@),
{
    let mut args: Vec<GenericArgument> = Vec::new();
    args.push(GenericArgument::Type(ty.clone()));
    let a = AngleBracketedGenericArguments { colon2_token: false, args };
    assert(a@.args =~= seq![GenericArgumentView::Type(ty@)]);
    PathSegment { ident: String::from_str(name), arguments: PathArguments::AngleBracketed(a) }
}

pub trait TypeExt: Sized {
    fn raw_ident(&self) -> Option<String>;

    fn generic_args(&self) -> Option<&Vec<GenericArgument>>;

    fn wrap_in_generic(&self, ident: &str) -> Self;

    fn wrap_in_generic_with_module(&self, module: &str, ident: &str) -> Self;

    fn to_path(&self) -> Option<Path>;

    /// The type at the path `name`, whose segments are separated by `::`.
    fn parse(name: &str) -> Self;

    /// Whether a value of any type convertible to this one may stand for it
    /// in a setter.
    fn is_into_capable(&self, impl_generics: &Generics, constructor_generics: &Generics) -> bool;
}

/// Whether `name` is one of the primitive scalar types: the integers, the
/// floating-point numbers, `bool` and `char`.
pub open spec fn is_scalar(name: Seq<char>) -> bool {
    ||| is_integer_name(name)
    ||| name == "f32"@
    ||| name == "f64"@
    ||| name == "bool"@
    ||| name == "char"@
}

/// Whether `name` is one of the primitive integer types.
pub open spec fn is_integer_name(name: Seq<char>) -> bool {
    ||| name == "i8"@
    ||| name == "u8"@
    ||| name == "i16"@
    ||| name == "u16"@
    ||| name == "i32"@
    ||| name == "u32"@
    ||| name == "i64"@
    ||| name == "u64"@
    ||| name == "i128"@
    ||| name == "u128"@
    ||| name == "isize"@
    ||| name == "usize"@
}

/// Whether `p` is the type parameter `name`.
pub open spec fn is_type_param_named(p: GenericParamView, name: Seq<char>) -> bool {
    p matches GenericParamView::Type(t) && t.ident == name
}

/// Whether one of `params` is the type parameter `name`.
pub open spec fn names_type_param(params: Seq<GenericParamView>, name: Seq<char>) -> bool {
    exists|i: int| 0 <= i < params.len() && is_type_param_named(#[trigger] params[i], name)
}

/// Whether none of `segments` has arguments.
pub open spec fn without_arguments(segments: Seq<PathSegmentView>) -> bool {
    forall|i: int| 0 <= i < segments.len() ==> (#[trigger] segments[i]).arguments is Absent
}

/// A type admits implicit conversion if it is a path none of whose segments
/// has arguments and that names neither a primitive scalar nor one of the
/// enclosing type parameters.
pub open spec fn into_capable(
    t: TypeView,
    impl_params: Seq<GenericParamView>,
    constructor_params: Seq<GenericParamView>,
) -> bool {
    &&& t matches TypeView::Path(p)
    &&& without_arguments(p.path.segments)
    &&& raw_ident_of(t) matches Some(name) ==> {
        &&& !is_scalar(name)
        &&& !names_type_param(impl_params, name)
        &&& !names_type_param(constructor_params, name)
    }
}

/// The path type whose segments are the pieces of `name` between `::`.
pub open spec fn parsed_type(name: Seq<char>) -> TypeView {
    TypeView::Path(
        TypePathView {
            qself: None,
            path: PathView {
                leading_colon: false,
                segments: split_path(name).map_values(
                    |s: Seq<char>| PathSegmentView { ident: s, arguments: PathArgumentsView::Absent },
                ),
            },
        },
    )
}

/// Whether `name` is one of the primitive integer types.
pub fn integer_type(name: &str) -> (r: bool)
    ensures
        r == is_integer_name(name@),
{
    str_eq(name, "i8") || str_eq(name, "u8") || str_eq(name, "i16") || str_eq(name, "u16")
        || str_eq(name, "i32") || str_eq(name, "u32") || str_eq(name, "i64") || str_eq(
        name,
        "u64",
    ) || str_eq(name, "i128") || str_eq(name, "u128") || str_eq(name, "isize") || str_eq(
        name,
        "usize",
    )
}

/// Whether `name` is one of the primitive scalar types.
pub fn scalar_type(name: &str) -> (r: bool)
    ensures
        r == is_scalar(name@),
{
    integer_type(name) || str_eq(name, "f32") || str_eq(name, "f64") || str_eq(name, "bool")
        || str_eq(name, "char")
}

/// Whether no segment of `path` has arguments.
pub fn has_no_arguments(path: &Path) -> (r: bool)
    ensures
        r == without_arguments(path@.segments),
{
    assert(path@.segments == segments_view(path.segments@));
    let mut plain = true;
    let mut i: usize = 0;
    while i < path.segments.len()
        invariant
            i <= path.segments.len(),
            path@.segments == segments_view(path.segments@),
            plain == (forall|j: int|
                0 <= j < i ==> (#[trigger] path@.segments[j]).arguments is Absent),
        decreases path.segments.len() - i,
    {
        let bare = match &path.segments[i].arguments {
            PathArguments::Absent => true,
            _ => false,
        };
        assert(bare == (path@.segments[i as int].arguments is Absent));
        plain = plain && bare;
        i += 1;
    }
    plain
}

/// Whether one of the parameters of `generics` is the type parameter
/// `name`.
pub fn has_type_param(generics: &Generics, name: &str) -> (r: bool)
    ensures
        r == names_type_param(generics@.params, name@),
{
    let mut i: usize = 0;
    while i < generics.params.len()
        invariant
            i <= generics.params.len(),
            forall|j: int| 0 <= j < i ==> !is_type_param_named(#[trigger] generics@.params[j], name@),
        decreases generics.params.len() - i,
    {
        match &generics.params[i] {
            GenericParam::Type(t) => {
                if str_eq(t.ident.as_str(), name) {
                    assert(is_type_param_named(generics@.params[i as int], name@));
                    return true;
                }
            },
            _ => {},
        }
        i += 1;
    }
    false
}

impl TypeExt for Type {
    fn raw_ident(&self) -> (r: Option<String>)
        ensures
            opt_str_view(r) == raw_ident_of(self@),
    {
        match self {
            Type::Path(p) => {
                assert(self@ == TypeView::Path(p@));
                assert(p@.path.segments == segments_view(p.path.segments@));
                if !p.path.leading_colon && p.path.segments.len() == 1 {
                    Some(p.path.segments[0].ident.clone())
                } else {
                    None
                }
            },
            _ => None,
        }
    }

    fn generic_args(&self) -> (r: Option<&Vec<GenericArgument>>)
        ensures
            match r {
                Some(args) => generic_args_of(self@) == Some(arguments_view(args@)),
                None => generic_args_of(self@) is None,
            },
    {
        match self {
            Type::Path(p) => {
                assert(self@ == TypeView::Path(p@));
                assert(p@.path.segments == segments_view(p.path.segments@));
                if !p.path.leading_colon && p.path.segments.len() == 1 {
                    match &p.path.segments[0].arguments {
                        PathArguments::AngleBracketed(a) => Some(&a.args),
                        _ => None,
                    }
                } else {
                    None
                }
            },
            _ => None,
        }
    }

    fn wrap_in_generic(&self, ident: &str) -> (r: Self)
        ensures
            r@ == wrap_in_generic_of(self@, ident@),
    {
        let mut segments: Vec<PathSegment> = Vec::new();
        segments.push(wrapping_segment_for(ident, self));
        let path = Path { leading_colon: false, segments };
        assert(path@.segments =~= seq![wrapping_segment(ident@, self@)]);
        Type::Path(TypePath { qself: None, path })
    }

    fn wrap_in_generic_with_module(&self, module: &str, ident: &str) -> (r: Self)
        ensures
            r@ == wrap_in_generic_with_module_of(self@, module@, ident@),
    {
        let mut segments: Vec<PathSegment> = Vec::new();
        segments.push(
            PathSegment { ident: String::from_str(module), arguments: PathArguments::Absent },
        );
        segments.push(wrapping_segment_for(ident, self));
        let path = Path { leading_colon: false, segments };
        assert(path@.segments =~= seq![
            PathSegmentView { ident: module@, arguments: PathArgumentsView::Absent },
            wrapping_segment(ident@, self@),
        ]);
        Type::Path(TypePath { qself: None, path })
    }

    fn to_path(&self) -> (r: Option<Path>)
        ensures
            match r {
                Some(p) => path_of(self@) == Some(p@),
                None => path_of(self@) is None,
            },
    {
        match self {
            Type::Path(p) => Some(p.path.clone()),
            _ => None,
        }
    }

    fn parse(name: &str) -> (r: Self)
        ensures
            r@ == parsed_type(name@),
    {
        let pieces = split_double_colon(name);
        let mut segments: Vec<PathSegment> = Vec::new();
        let mut i: usize = 0;
        while i < pieces.len()
            invariant
                i <= pieces.len(),
                segments@.len() == i,
                forall|j: int|
                    0 <= j < i ==> segments@[j]@ == (PathSegmentView {
                        ident: pieces@[j]@,
                        arguments: PathArgumentsView::Absent,
                    }),
            decreases pieces.len() - i,
        {
            segments.push(PathSegment { ident: pieces[i].clone(), arguments: PathArguments::Absent });
            i += 1;
        }
        let path = Path { leading_colon: false, segments };
        assert(path@.segments =~= parsed_type(name@)->Path_0.path.segments);
        Type::Path(TypePath { qself: None, path })
    }

    fn is_into_capable(&self, impl_generics: &Generics, constructor_generics: &Generics) -> (r:
        bool)
        ensures
            r == into_capable(self@, impl_generics@.params, constructor_generics@.params),
    {
        let ident = self.raw_ident();
        match self {
            Type::Path(p) => {
                assert(self@ == TypeView::Path(p@));
                if !has_no_arguments(&p.path) {
                    return false;
                }
            },
            _ => {
                return false;
            },
        }
        match ident {
            Some(name) => {
                !scalar_type(name.as_str()) && !has_type_param(impl_generics, name.as_str())
                    && !has_type_param(constructor_generics, name.as_str())
            },
            None => true,
        }
    }
}

/// The name that a path consists of, if it is a single name without
/// arguments.
pub open spec fn path_ident(p: PathView) -> Option<Seq<char>> {
    if !p.leading_colon && p.segments.len() == 1 && p.segments[0].arguments
        is Absent {
        Some(p.segments[0].ident)
    } else {
        None
    }
}

/// The names of the segments of a path, with `::` between them and in
/// front of them where the path starts with it.
pub open spec fn path_text(p: PathView) -> Seq<char> {
    let names = join(p.segments.map_values(|s: PathSegmentView| s.ident), "::"@);
    if p.leading_colon {
        "::"@ + names
    } else {
        names
    }
}

/// The name that a path consists of, if it is a single name without
/// arguments.
pub fn get_ident(p: &Path) -> (r: Option<&str>)
    ensures
        match r {
            Some(name) => path_ident(p@) == Some(name@),
            None => path_ident(p@) is None,
        },
{
    assert(p@.segments == segments_view(p.segments@));
    if !p.leading_colon && p.segments.len() == 1 {
        match &p.segments[0].arguments {
            PathArguments::Absent => Some(p.segments[0].ident.as_str()),
            _ => None,
        }
    } else {
        None
    }
}

/// The names of the segments of a path, with `::` between them.
pub fn path_to_string(p: &Path) -> (r: String)
    ensures
        r@ == path_text(p@),
{
    assert(p@.segments == segments_view(p.segments@));
    let mut names: Vec<String> = Vec::new();
    let mut i: usize = 0;
    while i < p.segments.len()
        invariant
            i <= p.segments.len(),
            names@.len() == i,
            forall|j: int| 0 <= j < i ==> (#[trigger] names@[j])@ == p.segments@[j].ident@,
        decreases p.segments.len() - i,
    {
        names.push(p.segments[i].ident.clone());
        i += 1;
    }
    assert(strs_view(names@) =~= p@.segments.map_values(|s: PathSegmentView| s.ident));
    let text = join_strings(&names, "::");
    if p.leading_colon {
        concat2("::", text.as_str())
    } else {
        text
    }
}

} // verus!
