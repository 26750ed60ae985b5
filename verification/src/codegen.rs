//! Protocol synthesis: from the plan of a builder to its protocol.

use crate::error::{Diagnostic, DiagnosticView};
use crate::expr::{exprs_view, lemma_expr_view_items, Expr, ExprView};
use crate::generics::{
    GenericParam, GenericParamView, Generics, GenericsView, LifetimeParam, LifetimeParamView,
    TypeParam, WhereClause,
};
use crate::generics_ext::{
    combine_of, generic_args_for, generics_views, tuple_type_of, type_param_names, type_params_in,
    without_of, GenericsExt,
};
use crate::item::clone_attributes;
use crate::lower::{
    initial_state_name, opt_type_view, slot_param_name, tuple_field_expr, BuilderField,
    BuilderFieldView, FieldType, Ir, IrView,
};
use crate::protocol::{
    methods_view, operations_view, Action, BuilderAlias, BuilderAliasView, CapturedReceiver,
    CapturedReceiverView, Constructor, ConstructorView, EntryOperation, EntryOperationView,
    ExitOperation, ExitOperationView, FieldMethods, FieldMethodsView, IntoBound, IntoBoundView,
    Operation, OperationParam, OperationParamView, OperationView, Protocol, ProtocolView,
};
use crate::syntax::{
    arguments_view, group_view_items, strs_view, AngleBracketedView, GenericArgument,
    GenericArgumentView, Punctuated, PunctuatedView, Type, TypeTuple, TypeView,
};
use crate::text::{
    concat2, concat3, pascal_case_of, singular_of, str_eq, to_pascal_case, to_singular,
};
use crate::utils::{
    generic_param_of, ident_path, ident_type, insert_type_of, parsed_type,
    with_implicit_lifetime_of, wrap_in_generic_of, AngleBracketedGenericArgumentsExt, ExprTupleExt,
    IdentExt, TypeExt, TypeTupleExt,
};
use vstd::prelude::*;
use vstd::string::StringExecFns;

verus! {

broadcast use group_view_items;

/// The name of the operation that adds one item to the collection
/// `name`: the singular of the name, or `<name>_entry` where the name is
/// its own singular.
pub open spec fn singular_name_of(name: Seq<char>) -> Seq<char> {
    distinct_singular(name, singular_of(name))
}

/// The word `singular`, or `<name>_entry` where the word is `name`
/// itself.
pub open spec fn distinct_singular(name: Seq<char>, singular: Seq<char>) -> Seq<char> {
    if singular == name {
        name + "_entry"@
    } else {
        singular
    }
}

/// The call `name(params)`.
pub open spec fn call_expr(name: Seq<char>, params: Seq<ExprView>) -> ExprView {
    ExprView::Call { func: Box::new(ExprView::Path(ident_path(name))), args: params }
}

/// The states of `n` slots after the slot `idx` took the value of the
/// variable `field_name`: `__set(field_name)` for that slot, and for each
/// other slot the state that the builder holds.
pub open spec fn new_state_of(n: nat, idx: usize, field_name: Seq<char>) -> ExprView {
    state_with(n, idx, call_expr("__set"@, seq![ExprView::Path(ident_path(field_name))]))
}

/// The states of `n` slots of which the slot `idx` is `set` and each other
/// slot is the state that the builder holds.
pub open spec fn state_with(n: nat, idx: usize, set: ExprView) -> ExprView {
    ExprView::Tuple(
        PunctuatedView {
            items: Seq::new(
                n,
                |i: int|
                    if i == idx {
                        set
                    } else {
                        tuple_field_expr(i as usize)
                    },
            ),
            trailing: n > 0,
        },
    )
}

/// The name of the state in which the operations of a slot leave it: a
/// required or optional value is held after it was set; a collection
/// stays open.
pub open spec fn state_after_name(ft: FieldType) -> Seq<char> {
    if ft == FieldType::Regular || ft == FieldType::Optional {
        "__Set"@
    } else {
        "__Optional"@
    }
}

/// The tuple of the states of all slots in which the slot `idx` is in
/// the state `state` and every other slot `i` in any state `__<i>`.
pub open spec fn slot_states(ir: IrView, idx: int, state: Seq<char>) -> PunctuatedView<TypeView> {
    let t = tuple_type_of(ir.builder_type_generics());
    PunctuatedView {
        items: t.items.update(idx, wrap_in_generic_of(ir.builder_fields[idx].ty, state)),
        ..t
    }
}

/// The parameters that every part of the builder carries: those of
/// `lifetime`, of the target and of the factory.
pub open spec fn carried_generics(ir: IrView, lifetime: GenericsView) -> GenericsView {
    combine_of(seq![lifetime, ir.impl_generics, ir.delegate_generics])
}

/// The arguments of the builder type whose slots are in `states`.
pub open spec fn builder_args_with(
    ir: IrView,
    lifetime: GenericsView,
    states: PunctuatedView<TypeView>,
) -> AngleBracketedView {
    insert_type_of(generic_args_for(carried_generics(ir, lifetime)), 0, TypeView::Tuple(states))
}

/// The parameters of the operations of slot `idx`: a state for each other
/// slot, then the carried parameters.
pub open spec fn field_generics(ir: IrView, lifetime: GenericsView, idx: int) -> GenericsView {
    combine_of(seq![without_of(ir.builder_type_generics(), idx), carried_generics(ir, lifetime)])
}

/// The bound `param: Into<target>` where `into` holds, else none.
pub open spec fn into_bounds_of(into: bool, param: Seq<char>, target: Option<TypeView>) -> Seq<
    IntoBoundView,
> {
    if into {
        seq![IntoBoundView { param, target }]
    } else {
        Seq::empty()
    }
}

/// The parameter `name` of type `ty`, or of the type `param` where `into`
/// holds.
pub open spec fn param_of(
    name: Seq<char>,
    ty: Option<TypeView>,
    into: bool,
    param: Seq<char>,
) -> OperationParamView {
    OperationParamView {
        name,
        ty: if into {
            Some(parsed_type(param))
        } else {
            ty
        },
        into,
    }
}

/// The type `Option<ty>`.
pub open spec fn optional_of(ty: Option<TypeView>) -> Option<TypeView> {
    match ty {
        Some(t) => Some(wrap_in_generic_of(t, "Option"@)),
        None => None,
    }
}

/// The one operation of a required slot: it takes the value.
pub open spec fn regular_operations(f: BuilderFieldView) -> Seq<OperationView> {
    seq![
        OperationView {
            name: f.name,
            action: Action::Assign,
            into_bounds: into_bounds_of(f.ty_into, "__T"@, Some(f.ty)),
            params: seq![param_of(f.name, Some(f.ty), f.ty_into, "__T"@)],
            transitions: true,
            where_clause: false,
        },
    ]
}

/// The two operations of an optional slot: one takes the value, the
/// other, called `and_<name>`, takes an optional value.
pub open spec fn optional_operations(f: BuilderFieldView) -> Seq<OperationView> {
    let inner = f.generic_types.generic_type;
    let into = f.generic_types.generic_into;
    let taken = param_of(f.name, inner, into, "__T"@);
    seq![
        OperationView {
            name: f.name,
            action: Action::AssignPresent,
            into_bounds: into_bounds_of(into, "__T"@, inner),
            params: seq![taken],
            transitions: true,
            where_clause: true,
        },
        OperationView {
            name: "and_"@ + f.name,
            action: Action::AssignOptional,
            into_bounds: into_bounds_of(into, "__T"@, inner),
            params: seq![OperationParamView { ty: optional_of(taken.ty), ..taken }],
            transitions: true,
            where_clause: true,
        },
    ]
}

/// The operation that takes a whole collection and adds its items.
pub open spec fn bulk_operation(f: BuilderFieldView) -> OperationView {
    OperationView {
        name: f.name,
        action: Action::Extend,
        into_bounds: Seq::empty(),
        params: seq![OperationParamView { name: f.name, ty: Some(f.ty), into: false }],
        transitions: false,
        where_clause: true,
    }
}

/// The two operations of a sequence or a set: the bulk operation, and
/// one that takes a single item.
pub open spec fn collection_operations(f: BuilderFieldView, action: Action) -> Seq<OperationView> {
    let inner = f.generic_types.generic_type;
    let into = f.generic_types.generic_into;
    seq![
        bulk_operation(f),
        OperationView {
            name: singular_name_of(f.name),
            action,
            into_bounds: into_bounds_of(into, "__T"@, inner),
            params: seq![param_of("value"@, inner, into, "__T"@)],
            transitions: false,
            where_clause: true,
        },
    ]
}

/// The two operations of a map: the bulk operation, and one that takes a
/// key and a value.
pub open spec fn keyed_operations(f: BuilderFieldView) -> Seq<OperationView> {
    let g = f.generic_types;
    seq![
        bulk_operation(f),
        OperationView {
            name: singular_name_of(f.name),
            action: Action::InsertEntry,
            into_bounds: into_bounds_of(g.key_into, "__K"@, g.key_type) + into_bounds_of(
                g.value_into,
                "__V"@,
                g.value_type,
            ),
            params: seq![
                param_of("key"@, g.key_type, g.key_into, "__K"@),
                param_of("value"@, g.value_type, g.value_into, "__V"@),
            ],
            transitions: false,
            where_clause: false,
        },
    ]
}

/// The operations of a slot, by its kind.
pub open spec fn operations_of(f: BuilderFieldView) -> Seq<OperationView> {
    match f.field_type {
        FieldType::Regular => regular_operations(f),
        FieldType::Optional => optional_operations(f),
        FieldType::Sequence => collection_operations(f, Action::Push),
        FieldType::Unique => collection_operations(f, Action::Insert),
        FieldType::Keyed => keyed_operations(f),
    }
}

/// The operations of slot `idx`, with the builder types that they are
/// defined on and that they give.
pub open spec fn field_methods_of(
    ir: IrView,
    where_clause: Option<Seq<Seq<char>>>,
    lifetime: GenericsView,
    idx: int,
) -> FieldMethodsView {
    let f = ir.builder_fields[idx];
    FieldMethodsView {
        doc: f.doc,
        index: idx as usize,
        field_name: f.name,
        kind: f.field_type,
        ty: f.ty,
        generics: field_generics(ir, lifetime, idx),
        before: builder_args_with(
            ir,
            lifetime,
            slot_states(ir, idx, initial_state_name(f.field_type)),
        ),
        after: builder_args_with(ir, lifetime, slot_states(ir, idx, state_after_name(f.field_type))),
        where_clause,
        new_state: new_state_of(ir.builder_fields.len(), idx as usize, f.name),
        operations: operations_of(f),
    }
}

/// The operations of all slots.
pub open spec fn builder_methods_of(
    ir: IrView,
    where_clause: Option<Seq<Seq<char>>>,
    lifetime: GenericsView,
) -> Seq<FieldMethodsView> {
    Seq::new(
        ir.builder_fields.len(),
        |i: int| field_methods_of(ir, where_clause, lifetime, i),
    )
}

/// Where every parameter is a type parameter, the names of the type
/// parameters are the names of all parameters.
pub proof fn lemma_all_type_params(params: Seq<GenericParamView>)
    requires
        forall|i: int| 0 <= i < params.len() ==> #[trigger] params[i] is Type,
    ensures
        type_param_names(params).len() == params.len(),
        forall|i: int|
            0 <= i < params.len() ==> #[trigger] type_param_names(params)[i]
                == params[i]->Type_0.ident,
    decreases params.len(),
{
    if params.len() > 0 {
        let rest = params.drop_last();
        assert forall|i: int| 0 <= i < rest.len() implies #[trigger] rest[i] is Type by {
            assert(rest[i] == params[i]);
        }
        lemma_all_type_params(rest);
        assert(params.last() == params[params.len() - 1]);
        assert forall|i: int| 0 <= i < params.len() implies #[trigger] type_param_names(
            params,
        )[i] == params[i]->Type_0.ident by {
            if i < rest.len() {
                assert(rest[i] == params[i]);
            }
        }
    }
}

/// Where every parameter is a type parameter, the type parameters are all
/// parameters.
pub proof fn lemma_all_type_params_in(params: Seq<GenericParam>)
    requires
        forall|i: int| 0 <= i < params.len() ==> #[trigger] params[i] is Type,
    ensures
        type_params_in(params).len() == params.len(),
    decreases params.len(),
{
    if params.len() > 0 {
        let rest = params.drop_last();
        assert forall|i: int| 0 <= i < rest.len() implies #[trigger] rest[i] is Type by {
            assert(rest[i] == params[i]);
        }
        lemma_all_type_params_in(rest);
        assert(params.last() == params[params.len() - 1]);
    }
}

/// The tuple that names the states of the setters' slots has one element
/// for each slot: the type `__<i>` for slot `i`.
pub proof fn lemma_slot_tuple(ir: IrView)
    ensures
        tuple_type_of(ir.builder_type_generics()).items.len() == ir.builder_fields.len(),
        forall|i: int|
            0 <= i < ir.builder_fields.len() ==> #[trigger] tuple_type_of(
                ir.builder_type_generics(),
            ).items[i] == ident_type(slot_param_name(i as nat)),
{
    lemma_all_type_params(ir.builder_type_generics().params);
}

/// The names of the two operations of the collection `ident`: the one
/// that adds a single item, and the one that adds a whole collection. The
/// two are never the same.
pub fn single_plural_names(ident: &str) -> (r: (String, String))
    ensures
        r.0@ == singular_name_of(ident@),
        r.1@ == ident@,
        r.0@ != r.1@,
{
    let plural = String::from_str(ident);
    let singular = singular_name(ident, to_singular(ident));
    (singular, plural)
}

/// The name of the operation that adds one item to the collection
/// `ident`, given the singular of `ident`: the singular, unless it is the
/// name itself, in which case `_entry` is put after it.
pub fn singular_name(ident: &str, singular: String) -> (r: String)
    ensures
        r@ == distinct_singular(ident@, singular@),
        r@ != ident@,
{
    if str_eq(ident, singular.as_str()) {
        let r = concat2(ident, "_entry");
        proof {
            reveal_strlit("_entry");
            assert(r@.len() == ident@.len() + 6);
        }
        r
    } else {
        singular
    }
}

/// The name of the alias of the builder of the factory on `impl_name`,
/// given the factory's name in Pascal case.
pub fn alias_name(delegate_pascal_case: &str, impl_name: &str) -> (r: String)
    ensures
        r@ == delegate_pascal_case@ + impl_name@ + "Builder"@,
{
    concat3(delegate_pascal_case, impl_name, "Builder")
}

/// The call of `name` on `params`.
pub fn call(name: &str, params: Vec<Expr>) -> (r: Expr)
    ensures
        r@ == call_expr(name@, exprs_view(params@)),
{
    let func = Expr::Path(name.to_expr_path());
    assert(func@ == ExprView::Path(ident_path(name@)));
    let r = Expr::Call { func: Box::new(func), args: params };
    proof {
        lemma_expr_view_items(r);
    }
    r
}

/// The states of all slots, one for each type parameter of
/// `builder_type_generics`, in which `set` stands for the slot `idx` and
/// for each other slot the state that the builder holds.
pub fn params(
    ir: &Ir,
    idx: usize,
    field_name: &str,
    builder_type_generics: &Generics,
    set: Expr,
) -> (r: Expr)
    requires
        idx < type_params_in(builder_type_generics.params@).len(),
    ensures
        r@ == state_with(type_params_in(builder_type_generics.params@).len(), idx, set@),
{
    let ghost n = type_params_in(builder_type_generics.params@).len();
    let populate = |idxp: usize, _tp: &TypeParam| -> (e: Expr)
        ensures
            e@ == if idx == idxp {
                ExprView::Path(ident_path(field_name@))
            } else {
                tuple_field_expr(idxp)
            },
        {
            if idx == idxp {
                let e = Expr::Path(field_name.to_expr_path());
                assert(e@ == ExprView::Path(ident_path(field_name@)));
                e
            } else {
                ir.tuple_field(idxp)
            }
        };
    let tuple = builder_type_generics.to_expr_tuple(populate);
    let ghost before = tuple.elems.items@;
    let count = tuple.elems.items.len();
    let tuple = tuple.with_expr(idx, set);
    let r = Expr::Tuple(tuple);
    proof {
        lemma_expr_view_items(r);
        assert(r@->Tuple_0.items =~= state_with(n, idx, set@)->Tuple_0.items) by {
            assert forall|i: int| 0 <= i < n implies #[trigger] r@->Tuple_0.items[i] == state_with(
                n,
                idx,
                set@,
            )->Tuple_0.items[i] by {
                assert(r@->Tuple_0.items[i] == tuple.elems.items@[i]@);
                if i != idx {
                    assert(tuple.elems.items@[i] == before[i]);
                    let k = i as usize;
                    assert(n == count);
                    assert(k == i);
                    assert(call_ensures(
                        populate,
                        (k, &type_params_in(builder_type_generics.params@)[i]),
                        before[i],
                    ));
                    assert(before[i]@ == tuple_field_expr(k));
                }
            }
        }
    }
    r
}

fn clone_opt_type(t: &Option<Type>) -> (r: Option<Type>)
    ensures
        opt_type_view(r) == opt_type_view(*t),
{
    match t {
        Some(t) => Some(t.clone()),
        None => None,
    }
}

/// The views of a sequence of bounds.
pub open spec fn into_bounds_view(s: Seq<IntoBound>) -> Seq<IntoBoundView> {
    s.map_values(|b: IntoBound| b@)
}

/// The views of a sequence of parameters.
pub open spec fn operation_params_view(s: Seq<OperationParam>) -> Seq<OperationParamView> {
    s.map_values(|p: OperationParam| p@)
}

fn into_bounds(into: bool, param: &str, target: &Option<Type>) -> (r: Vec<IntoBound>)
    ensures
        into_bounds_view(r@) == into_bounds_of(into, param@, opt_type_view(*target)),
{
    let mut out: Vec<IntoBound> = Vec::new();
    if into {
        out.push(IntoBound { param: String::from_str(param), target: clone_opt_type(target) });
    }
    assert(into_bounds_view(out@) =~= into_bounds_of(
        into,
        param@,
        opt_type_view(*target),
    ));
    out
}

fn operation_param(name: &str, ty: &Option<Type>, into: bool, param: &str) -> (r: OperationParam)
    ensures
        r@ == param_of(name@, opt_type_view(*ty), into, param@),
{
    let ty = if into {
        Some(Type::parse(param))
    } else {
        clone_opt_type(ty)
    };
    OperationParam { name: String::from_str(name), ty, into }
}

fn single(p: OperationParam) -> (r: Vec<OperationParam>)
    ensures
        operation_params_view(r@) == seq![p@],
{
    let mut out: Vec<OperationParam> = Vec::new();
    out.push(p);
    assert(operation_params_view(out@) =~= seq![p@]);
    out
}

fn bulk(f: &BuilderField) -> (r: Operation)
    ensures
        r@ == bulk_operation(f@),
{
    let into_bounds: Vec<IntoBound> = Vec::new();
    assert(into_bounds_view(into_bounds@) =~= Seq::empty());
    Operation {
        name: f.name.clone(),
        action: Action::Extend,
        into_bounds,
        params: single(OperationParam { name: f.name.clone(), ty: Some(f.ty.clone()), into: false }),
        transitions: false,
        where_clause: true,
    }
}

fn pair(first: Operation, second: Operation) -> (r: Vec<Operation>)
    ensures
        operations_view(r@) == seq![first@, second@],
{
    let mut out: Vec<Operation> = Vec::new();
    out.push(first);
    out.push(second);
    assert(operations_view(out@) =~= seq![first@, second@]);
    out
}

/// The operations of a slot, by its kind.
pub fn operations(f: &BuilderField) -> (r: Vec<Operation>)
    ensures
        operations_view(r@) == operations_of(f@),
{
    let g = &f.generic_types;
    match f.field_type {
        FieldType::Regular => {
            let target = Some(f.ty.clone());
            let op = Operation {
                name: f.name.clone(),
                action: Action::Assign,
                into_bounds: into_bounds(f.ty_into, "__T", &target),
                params: single(operation_param(f.name.as_str(), &target, f.ty_into, "__T")),
                transitions: true,
                where_clause: false,
            };
            let mut out: Vec<Operation> = Vec::new();
            out.push(op);
            assert(operations_view(out@) =~= seq![op@]);
            out
        },
        FieldType::Optional => {
            let taken = operation_param(f.name.as_str(), &g.generic_type, g.generic_into, "__T");
            let wrapped = match &taken.ty {
                Some(t) => Some(t.wrap_in_generic("Option")),
                None => None,
            };
            let optional = OperationParam { name: f.name.clone(), ty: wrapped, into: g.generic_into };
            let first = Operation {
                name: f.name.clone(),
                action: Action::AssignPresent,
                into_bounds: into_bounds(g.generic_into, "__T", &g.generic_type),
                params: single(taken),
                transitions: true,
                where_clause: true,
            };
            let second = Operation {
                name: concat2("and_", f.name.as_str()),
                action: Action::AssignOptional,
                into_bounds: into_bounds(g.generic_into, "__T", &g.generic_type),
                params: single(optional),
                transitions: true,
                where_clause: true,
            };
            pair(first, second)
        },
        FieldType::Sequence | FieldType::Unique => {
            let (singular, _plural) = single_plural_names(f.name.as_str());
            let action = match f.field_type {
                FieldType::Sequence => Action::Push,
                _ => Action::Insert,
            };
            let second = Operation {
                name: singular,
                action,
                into_bounds: into_bounds(g.generic_into, "__T", &g.generic_type),
                params: single(operation_param("value", &g.generic_type, g.generic_into, "__T")),
                transitions: false,
                where_clause: true,
            };
            pair(bulk(f), second)
        },
        FieldType::Keyed => {
            let (singular, _plural) = single_plural_names(f.name.as_str());
            let mut bounds = into_bounds(g.key_into, "__K", &g.key_type);
            let ghost key_bounds = bounds@;
            let mut value_bounds = into_bounds(g.value_into, "__V", &g.value_type);
            let ghost more = value_bounds@;
            bounds.append(&mut value_bounds);
            assert(into_bounds_view(bounds@) =~= into_bounds_view(key_bounds) + into_bounds_view(
                more,
            ));
            let mut params: Vec<OperationParam> = Vec::new();
            let key = operation_param("key", &g.key_type, g.key_into, "__K");
            let value = operation_param("value", &g.value_type, g.value_into, "__V");
            params.push(key);
            params.push(value);
            assert(operation_params_view(params@) =~= seq![key@, value@]);
            let second = Operation {
                name: singular,
                action: Action::InsertEntry,
                into_bounds: bounds,
                params,
                transitions: false,
                where_clause: false,
            };
            pair(bulk(f), second)
        },
    }
}

/// The view of an optional where-clause.
pub open spec fn opt_where_view(w: Option<&WhereClause>) -> Option<Seq<Seq<char>>> {
    match w {
        Some(w) => Some(w@),
        None => None,
    }
}

fn three<'a>(a: &'a Generics, b: &'a Generics, c: &'a Generics) -> (r: Vec<&'a Generics>)
    ensures
        generics_views(r@) == seq![a@, b@, c@],
{
    let mut out: Vec<&Generics> = Vec::new();
    out.push(a);
    out.push(b);
    out.push(c);
    assert(generics_views(out@) =~= seq![a@, b@, c@]);
    out
}

fn two<'a>(a: &'a Generics, b: &'a Generics) -> (r: Vec<&'a Generics>)
    ensures
        generics_views(r@) == seq![a@, b@],
{
    let mut out: Vec<&Generics> = Vec::new();
    out.push(a);
    out.push(b);
    assert(generics_views(out@) =~= seq![a@, b@]);
    out
}

fn field_methods(
    ir: &Ir,
    builder_where_clause: Option<&WhereClause>,
    builder_lifetime_generics: &Generics,
    builder_generics: &Generics,
    idx: usize,
) -> (r: FieldMethods)
    requires
        idx < ir.builder_fields@.len(),
        builder_generics@ == carried_generics(ir@, builder_lifetime_generics@),
    ensures
        r@ == field_methods_of(
            ir@,
            opt_where_view(builder_where_clause),
            builder_lifetime_generics@,
            idx as int,
        ),
{
    let f = &ir.builder_fields[idx];
    assert(ir@.builder_fields[idx as int] == f@);
    proof {
        lemma_slot_tuple(ir@);
    }
    let builder_type_generics = ir.builder_type_generics();
    let state_before = match f.field_type {
        FieldType::Regular => "__Required",
        _ => "__Optional",
    };
    let state_after = match f.field_type {
        FieldType::Regular | FieldType::Optional => "__Set",
        _ => "__Optional",
    };
    let params_before = builder_type_generics.to_tuple_type().with_type(
        idx,
        f.ty.wrap_in_generic(state_before),
    );
    let params_after = builder_type_generics.to_tuple_type().with_type(
        idx,
        f.ty.wrap_in_generic(state_after),
    );
    let before = builder_generics.to_generic_args().insert(0, Type::Tuple(params_before));
    let after = builder_generics.to_generic_args().insert(0, Type::Tuple(params_after));
    let variable = Expr::Path(f.name.as_str().to_expr_path());
    assert(variable@ == ExprView::Path(ident_path(f.name@)));
    let mut arguments: Vec<Expr> = Vec::new();
    arguments.push(variable);
    assert(exprs_view(arguments@) =~= seq![ExprView::Path(ident_path(f.name@))]);
    let set = call("__set", arguments);
    proof {
        let n = ir@.builder_fields.len();
        assert(builder_type_generics@.params.len() == n);
        assert(builder_type_generics.params@.len() == n);
        assert forall|i: int| 0 <= i < builder_type_generics.params@.len() implies (
        #[trigger] builder_type_generics.params@[i]) is Type by {
            let p = builder_type_generics.params@[i];
            assert(builder_type_generics@.params[i] == p@);
            assert(ir@.builder_type_generics().params[i] == generic_param_of(
                slot_param_name(i as nat),
                None,
            ));
        }
        lemma_all_type_params_in(builder_type_generics.params@);
    }
    let new_state = params(ir, idx, f.name.as_str(), &builder_type_generics, set);
    let reduced = builder_type_generics.without(idx);
    let generics = Generics::combine(two(&reduced, builder_generics));
    let where_clause = match builder_where_clause {
        Some(w) => Some(w.clone()),
        None => None,
    };
    FieldMethods {
        doc: clone_attributes(&f.doc),
        index: idx,
        field_name: f.name.clone(),
        kind: f.field_type,
        ty: f.ty.clone(),
        generics,
        before,
        after,
        where_clause,
        new_state,
        operations: operations(f),
    }
}

/// The operations of all slots of the plan, for a builder that carries
/// the parameters of `builder_lifetime_generics` and whose operations
/// stand under `builder_where_clause`.
pub fn builder_methods(
    ir: &Ir,
    builder_where_clause: Option<&WhereClause>,
    builder_lifetime_generics: &Generics,
) -> (r: Result<Vec<FieldMethods>, Diagnostic>)
    ensures
        r matches Ok(methods) && methods_view(methods@) == builder_methods_of(
            ir@,
            opt_where_view(builder_where_clause),
            builder_lifetime_generics@,
        ),
{
    let builder_generics = Generics::combine(
        three(builder_lifetime_generics, &ir.impl_generics, &ir.delegate_generics),
    );
    let mut out: Vec<FieldMethods> = Vec::new();
    let mut idx: usize = 0;
    while idx < ir.builder_fields.len()
        invariant
            idx <= ir.builder_fields.len(),
            builder_generics@ == carried_generics(ir@, builder_lifetime_generics@),
            out@.len() == idx,
            forall|j: int|
                0 <= j < idx ==> (#[trigger] out@[j])@ == field_methods_of(
                    ir@,
                    opt_where_view(builder_where_clause),
                    builder_lifetime_generics@,
                    j,
                ),
        decreases ir.builder_fields.len() - idx,
    {
        out.push(
            field_methods(
                ir,
                builder_where_clause,
                builder_lifetime_generics,
                &builder_generics,
                idx,
            ),
        );
        idx += 1;
    }
    assert(methods_view(out@) =~= builder_methods_of(
        ir@,
        opt_where_view(builder_where_clause),
        builder_lifetime_generics@,
    ));
    Ok(out)
}

/// The name of the alias of the builder in its starting state.
pub open spec fn alias_name_of(ir: IrView) -> Seq<char> {
    pascal_case_of(ir.delegate_name) + ir.impl_name + "Builder"@
}

/// The lifetime under which the builder holds a borrowed receiver.
pub open spec fn builder_lifetime_of(ir: IrView) -> Option<Seq<char>> {
    match ir.receiver {
        Some(r) => if r.reference is Some {
            Some("'__builder"@)
        } else {
            None
        },
        None => None,
    }
}

/// The parameter list that holds the builder's own lifetime, if it has
/// one.
pub open spec fn lifetime_generics_of(ir: IrView) -> GenericsView {
    GenericsView {
        params: match builder_lifetime_of(ir) {
            Some(l) => seq![
                GenericParamView::Lifetime(
                    LifetimeParamView { lifetime: l, bounds: Seq::empty() },
                ),
            ],
            None => Seq::empty(),
        },
        where_clause: None,
    }
}

/// The parameters of the target and of the factory.
pub open spec fn init_generics_of(ir: IrView) -> GenericsView {
    combine_of(seq![ir.impl_generics, ir.delegate_generics])
}

/// The empty tuple type.
pub open spec fn unit_type() -> TypeView {
    TypeView::Tuple(PunctuatedView { items: Seq::empty(), trailing: false })
}

/// What stands for the argument `a` in the marker that ties the builder
/// to its parameters: a borrow of the empty tuple for a lifetime, and the
/// argument itself else.
pub open spec fn phantom_argument(a: GenericArgumentView) -> GenericArgumentView {
    match a {
        GenericArgumentView::Lifetime(l) => GenericArgumentView::Type(
            TypeView::Reference { lifetime: Some(l), mutability: false, elem: Box::new(unit_type()) },
        ),
        _ => a,
    }
}

/// How the builder holds the receiver.
pub open spec fn captured_receiver_of(ir: IrView) -> Option<CapturedReceiverView> {
    match ir.receiver {
        Some(r) => Some(
            CapturedReceiverView {
                reference: r.reference is Some,
                lifetime: builder_lifetime_of(ir),
                mutability: r.mutability,
            },
        ),
        None => None,
    }
}

/// The parameters of the exit operation: the carried ones, then for each
/// slot a state that converts into a held value.
pub open spec fn exit_generics_of(ir: IrView) -> GenericsView {
    combine_of(
        seq![lifetime_generics_of(ir), ir.impl_generics, ir.delegate_generics, ir.param_generics()],
    )
}

/// The protocol of the builder that `ir` plans.
pub open spec fn protocol_of(ir: IrView) -> ProtocolView {
    let lifetime = lifetime_generics_of(ir);
    let init_args = generic_args_for(init_generics_of(ir));
    let started = insert_type_of(init_args, 0, ir.builder_state_type_initial());
    ProtocolView {
        target_name: ir.impl_name,
        target_generics: ir.impl_generics,
        module_name: ir.module_name,
        builder_name: ir.builder_name,
        builder_vis: ir.builder_vis,
        builder_generics: combine_of(
            seq![lifetime, ir.builder_generics, ir.impl_generics, ir.delegate_generics],
        ),
        phantom_args: if init_args.args.len() > 0 {
            Some(
                init_args.args.map_values(
                    |a: GenericArgumentView| phantom_argument(a),
                ),
            )
        } else {
            None
        },
        receiver: captured_receiver_of(ir),
        entry: EntryOperationView {
            doc: ir.doc,
            vis: ir.vis,
            name: ir.builder_entry,
            generics: ir.delegate_generics,
            receiver: ir.receiver,
            alias_args: if init_args.args.len() > 0 {
                Some(init_args)
            } else {
                None
            },
        },
        alias: BuilderAliasView {
            vis: ir.vis,
            name: alias_name_of(ir),
            args: with_implicit_lifetime_of(init_args, ir.implicit_lifetime),
            builder_args: with_implicit_lifetime_of(started, ir.implicit_lifetime),
        },
        constructor: ConstructorView {
            generics: init_generics_of(ir),
            return_args: started,
            initial_state: ir.builder_state_initial(),
        },
        methods: builder_methods_of(ir, exit_generics_of(ir).where_clause, lifetime),
        exit: ExitOperationView {
            generics: exit_generics_of(ir),
            self_args: builder_args_with(ir, lifetime, tuple_type_of(ir.param_generics())),
            is_async: ir.is_async,
            name: ir.builder_exit,
            return_type: ir.builder_return_type,
            delegate_name: ir.delegate_name,
            delegate_args: ir.delegate_args(),
        },
    }
}

fn four<'a>(a: &'a Generics, b: &'a Generics, c: &'a Generics, d: &'a Generics) -> (r: Vec<
    &'a Generics,
>)
    ensures
        generics_views(r@) == seq![a@, b@, c@, d@],
{
    let mut out: Vec<&Generics> = Vec::new();
    out.push(a);
    out.push(b);
    out.push(c);
    out.push(d);
    assert(generics_views(out@) =~= seq![a@, b@, c@, d@]);
    out
}

fn phantom_arguments(args: &Vec<GenericArgument>) -> (r: Vec<
    GenericArgument,
>)
    ensures
        arguments_view(r@) == arguments_view(args@).map_values(
            |a: GenericArgumentView| phantom_argument(a),
        ),
{
    let mut out: Vec<GenericArgument> = Vec::new();
    let mut i: usize = 0;
    while i < args.len()
        invariant
            i <= args.len(),
            out@.len() == i,
            forall|j: int| 0 <= j < i ==> (#[trigger] out@[j])@ == phantom_argument(args@[j]@),
        decreases args.len() - i,
    {
        let a = match &args[i] {
            GenericArgument::Lifetime(l) => {
                let unit = Type::Tuple(
                    TypeTuple {
                        elems: Punctuated { items: Vec::new(), trailing: false },
                    },
                );
                assert(unit@->Tuple_0.items =~= Seq::empty());
                assert(unit@ == unit_type());
                GenericArgument::Type(
                    Type::Reference {
                        lifetime: Some(l.clone()),
                        mutability: false,
                        elem: Box::new(unit),
                    },
                )
            },
            other => other.clone(),
        };
        out.push(a);
        i += 1;
    }
    assert(arguments_view(out@) =~= arguments_view(args@).map_values(
        |a: GenericArgumentView| phantom_argument(a),
    ));
    out
}

/// The view of a protocol or of the diagnostic in its place.
pub open spec fn protocol_result_view(r: Result<Protocol, Diagnostic>) -> Result<
    ProtocolView,
    DiagnosticView,
> {
    match r {
        Ok(p) => Ok(p@),
        Err(e) => Err(e@),
    }
}

/// Synthesises the protocol of the builder that `ir` plans. Every plan
/// has a protocol.
pub fn codegen(ir: Ir) -> (r: Result<Protocol, Diagnostic>)
    ensures
        protocol_result_view(r) == Ok::<
            ProtocolView,
            DiagnosticView,
        >(protocol_of(ir@)),
{
    let builder_alias_name = alias_name(
        to_pascal_case(ir.delegate_name.as_str()).as_str(),
        ir.impl_name.as_str(),
    );
    let param_generics = ir.param_generics();
    let borrowed = match &ir.receiver {
        Some(r) => r.reference.is_some(),
        None => false,
    };
    let builder_lifetime = if borrowed {
        Some(String::from_str("'__builder"))
    } else {
        None
    };
    let mut lifetime_params: Vec<GenericParam> = Vec::new();
    if borrowed {
        let bounds: Vec<String> = Vec::new();
        assert(strs_view(bounds@) =~= Seq::empty());
        lifetime_params.push(
            GenericParam::Lifetime(
                LifetimeParam { lifetime: String::from_str("'__builder"), bounds },
            ),
        );
    }
    let builder_lifetime_generics = Generics { params: lifetime_params, where_clause: None };
    assert(builder_lifetime_generics@.params =~= lifetime_generics_of(ir@).params);
    let builder_generics = Generics::combine(
        four(&builder_lifetime_generics, &ir.impl_generics, &ir.delegate_generics, &param_generics),
    );
    let builder_generics_tuple = Generics::combine(
        three(&builder_lifetime_generics, &ir.impl_generics, &ir.delegate_generics),
    );
    let builder_tuple_ty_generics = builder_generics_tuple.to_generic_args().insert(
        0,
        Type::Tuple(param_generics.to_tuple_type()),
    );
    let all_generics = Generics::combine(
        four(&builder_lifetime_generics, &ir.builder_generics, &ir.impl_generics, &ir.delegate_generics),
    );
    let builder_init_generics = Generics::combine(two(&ir.impl_generics, &ir.delegate_generics));
    let builder_init_generic_args = builder_init_generics.to_generic_args().maybe();
    let builder_init_generic_args_with_lifetime =
        builder_init_generics.to_generic_args().with_implicit_lifetime(ir.implicit_lifetime);
    let builder_init_generic_args_phantom = match &builder_init_generic_args {
        Some(a) => {
            assert(a@.args == arguments_view(a.args@));
            Some(phantom_arguments(&a.args))
        },
        None => None,
    };
    let builder_init_generic_args_with_state = builder_init_generics.to_generic_args().insert(
        0,
        ir.builder_state_type_initial(),
    );
    let builder_init_generic_args_with_state_with_lifetime =
        builder_init_generics.to_generic_args().insert(
        0,
        ir.builder_state_type_initial(),
    ).with_implicit_lifetime(ir.implicit_lifetime);
    let delegate_args = ir.delegate_args();
    let builder_state_initial = ir.builder_state_initial();
    let receiver = match &ir.receiver {
        Some(r) => Some(
            CapturedReceiver {
                reference: r.reference.is_some(),
                lifetime: builder_lifetime,
                mutability: r.mutability,
            },
        ),
        None => None,
    };
    let builder_methods = match builder_methods(
        &ir,
        builder_generics.where_clause.as_ref(),
        &builder_lifetime_generics,
    ) {
        Ok(methods) => methods,
        Err(e) => {
            return Err(e);
        },
    };
    let entry_receiver = match &ir.receiver {
        Some(r) => Some(r.clone()),
        None => None,
    };
    Ok(
        Protocol {
            target_name: ir.impl_name.clone(),
            target_generics: ir.impl_generics.clone(),
            module_name: ir.module_name,
            builder_name: ir.builder_name,
            builder_vis: ir.builder_vis,
            builder_generics: all_generics,
            phantom_args: builder_init_generic_args_phantom,
            receiver,
            entry: EntryOperation {
                doc: ir.doc,
                vis: ir.vis.clone(),
                name: ir.builder_entry,
                generics: ir.delegate_generics,
                receiver: entry_receiver,
                alias_args: builder_init_generic_args,
            },
            alias: BuilderAlias {
                vis: ir.vis,
                name: builder_alias_name,
                args: builder_init_generic_args_with_lifetime,
                builder_args: builder_init_generic_args_with_state_with_lifetime,
            },
            constructor: Constructor {
                generics: builder_init_generics,
                return_args: builder_init_generic_args_with_state,
                initial_state: builder_state_initial,
            },
            methods: builder_methods,
            exit: ExitOperation {
                generics: builder_generics,
                self_args: builder_tuple_ty_generics,
                is_async: ir.is_async,
                name: ir.builder_exit,
                return_type: ir.builder_return_type,
                delegate_name: ir.delegate_name,
                delegate_args,
            },
        },
    )
}

} // verus!
