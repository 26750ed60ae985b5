//! A protocol, run. The generated builder is checked by the compiler of
//! its user; here the same protocol is followed call by call, and a call
//! that the types of the protocol do not allow is refused when it is made.
//! Sets and maps are held as the lists of what was put into them.

use crate::expr::{exprs_view, lemma_expr_view_items, Expr, ExprView, Member};
use crate::laws::entries_map;
use crate::lower::{fields_expr, FieldType};
use crate::protocol::{Action, FieldMethods, Protocol};
use crate::semantics::{
    act, argument_fits, argument_value, built, call_defined, collected, converts_into_held,
    default_of, defined_on, exit_defined, extended, handed_over, matches_state, patterns_of, run,
    slot_of_expr, slots_after, started, state_of_slot, state_of_type, states_of, value_fits,
    Argument, Call, Slot, SlotState, Value,
};
use crate::syntax::{
    arguments_view, group_view_items, segments_view, types_view, AngleBracketedGenericArguments,
    GenericArgument, Type, TypeView,
};
use crate::text::str_eq;
use crate::utils::{get_ident, ident_path};
use vstd::prelude::*;

verus! {

broadcast use group_view_items;

/// A value, as the simulation holds it. A set is held as the list of the
/// items that were put into it, a map as the list of its entries in the
/// order in which they were put.
#[derive(Debug, PartialEq, Eq)]
pub enum Datum {
    Item(i64),
    Absent,
    Present(i64),
    Sequence(Vec<i64>),
    Unique(Vec<i64>),
    Keyed(Vec<(i64, i64)>),
}

/// A slot, as the simulation holds it.
#[derive(Debug, PartialEq, Eq)]
pub enum Cell {
    Required,
    Optional(Option<Datum>),
    Held(Datum),
}

/// What a caller hands to an operation.
#[derive(Debug, PartialEq, Eq)]
pub enum Input {
    Whole(Datum),
    Item(i64),
    Entry(i64, i64),
}

/// The call of the operation `operation` of the slot `slot`.
#[derive(Debug, PartialEq, Eq)]
pub struct Invocation {
    pub slot: usize,
    pub operation: usize,
    pub input: Input,
}

/// The numbers of a list.
pub open spec fn ints(s: Seq<i64>) -> Seq<int> {
    s.map_values(|x: i64| x as int)
}

/// The entries of a list.
pub open spec fn pairs(s: Seq<(i64, i64)>) -> Seq<(int, int)> {
    s.map_values(|e: (i64, i64)| (e.0 as int, e.1 as int))
}

impl View for Datum {
    type V = Value;

    open spec fn view(&self) -> Value {
        match self {
            Datum::Item(x) => Value::Item(*x as int),
            Datum::Absent => Value::Absent,
            Datum::Present(x) => Value::Present(*x as int),
            Datum::Sequence(v) => Value::Sequence(ints(v@)),
            Datum::Unique(v) => Value::Unique(ints(v@).to_set()),
            Datum::Keyed(v) => Value::Keyed(entries_map(pairs(v@))),
        }
    }
}

impl View for Cell {
    type V = Slot;

    open spec fn view(&self) -> Slot {
        match self {
            Cell::Required => Slot::Required,
            Cell::Optional(Some(d)) => Slot::Optional(Some(d@)),
            Cell::Optional(None) => Slot::Optional(None),
            Cell::Held(d) => Slot::Held(d@),
        }
    }
}

impl View for Input {
    type V = Argument;

    open spec fn view(&self) -> Argument {
        match self {
            Input::Whole(d) => Argument::Whole(d@),
            Input::Item(x) => Argument::Item(*x as int),
            Input::Entry(k, v) => Argument::Entry(*k as int, *v as int),
        }
    }
}

impl View for Invocation {
    type V = Call;

    open spec fn view(&self) -> Call {
        Call { slot: self.slot as int, operation: self.operation as int, argument: self.input@ }
    }
}

/// The slots that the cells stand for.
pub open spec fn cells_view(s: Seq<Cell>) -> Seq<Slot> {
    s.map_values(|c: Cell| c@)
}

/// The values that the data stand for.
pub open spec fn data_view(s: Seq<Datum>) -> Seq<Value> {
    s.map_values(|d: Datum| d@)
}

/// The calls that the invocations stand for.
pub open spec fn calls_view(s: Seq<Invocation>) -> Seq<Call> {
    s.map_values(|c: Invocation| c@)
}

/// The view of what a simulation gave.
pub open spec fn outcome_view(r: Option<Vec<Datum>>) -> Option<Seq<Value>> {
    match r {
        Some(data) => Some(data_view(data@)),
        None => None,
    }
}

impl Clone for Datum {
    fn clone(&self) -> (r: Self)
        ensures
            r@ == self@,
    {
        match self {
            Datum::Item(x) => Datum::Item(*x),
            Datum::Absent => Datum::Absent,
            Datum::Present(x) => Datum::Present(*x),
            Datum::Sequence(v) => {
                let w = v.clone();
                assert(w@ =~= v@);
                Datum::Sequence(w)
            },
            Datum::Unique(v) => {
                let w = v.clone();
                assert(w@ =~= v@);
                Datum::Unique(w)
            },
            Datum::Keyed(v) => {
                let mut w: Vec<(i64, i64)> = Vec::new();
                let mut i: usize = 0;
                while i < v.len()
                    invariant
                        i <= v.len(),
                        w@ == v@.take(i as int),
                    decreases v.len() - i,
                {
                    let (key, value) = v[i];
                    w.push((key, value));
                    assert(w@ =~= v@.take(i + 1));
                    i += 1;
                }
                assert(w@ =~= v@);
                Datum::Keyed(w)
            },
        }
    }
}

proof fn lemma_entries_concat(a: Seq<(int, int)>, b: Seq<(int, int)>)
    ensures
        entries_map(a + b) == entries_map(a).union_prefer_right(entries_map(b)),
    decreases b.len(),
{
    if b.len() == 0 {
        assert(a + b =~= a);
        assert(entries_map(a).union_prefer_right(entries_map(b)) =~= entries_map(a));
    } else {
        lemma_entries_concat(a, b.drop_last());
        assert((a + b).drop_last() =~= a + b.drop_last());
        assert((a + b).last() == b.last());
        assert(entries_map(a + b) =~= entries_map(a).union_prefer_right(entries_map(b)));
    }
}

/// The state that a type stands for.
pub fn state_of(t: &Type) -> (r: Option<SlotState>)
    ensures
        r == state_of_type(t@),
{
    match t {
        Type::Path(p) => {
            assert(t@ == TypeView::Path(p@));
            assert(p@.path.segments == segments_view(p.path.segments@));
            let n = p.path.segments.len();
            if n > 0 {
                let name = p.path.segments[n - 1].ident.as_str();
                if str_eq(name, "__Required") {
                    Some(SlotState::Required)
                } else if str_eq(name, "__Optional") {
                    Some(SlotState::Optional)
                } else if str_eq(name, "__Set") {
                    Some(SlotState::Held)
                } else {
                    None
                }
            } else {
                None
            }
        },
        _ => None,
    }
}

fn patterns(a: &AngleBracketedGenericArguments) -> (r: Option<&Vec<Type>>)
    ensures
        match r {
            Some(items) => patterns_of(a@) == types_view(items@),
            None => patterns_of(a@) == Seq::<TypeView>::empty(),
        },
{
    assert(a@.args == arguments_view(a.args@));
    if a.args.len() > 0 {
        match &a.args[0] {
            GenericArgument::Type(Type::Tuple(tuple)) => {
                assert(a@.args[0] == a.args@[0]@);
                Some(&tuple.elems.items)
            },
            _ => {
                assert(a@.args[0] == a.args@[0]@);
                None
            },
        }
    } else {
        None
    }
}

fn cell_state(c: &Cell) -> (r: SlotState)
    ensures
        r == state_of_slot(c@),
{
    match c {
        Cell::Required => SlotState::Required,
        Cell::Optional(_) => SlotState::Optional,
        Cell::Held(_) => SlotState::Held,
    }
}

/// Whether the operations of a slot are defined on a builder with these
/// cells.
pub fn defined(m: &FieldMethods, cells: &Vec<Cell>) -> (r: bool)
    ensures
        r == defined_on(m@, states_of(cells_view(cells@))),
{
    let ghost states = states_of(cells_view(cells@));
    match patterns(&m.before) {
        Some(items) => {
            if items.len() != cells.len() {
                return false;
            }
            let mut i: usize = 0;
            while i < cells.len()
                invariant
                    i <= cells.len(),
                    items@.len() == cells@.len(),
                    states == states_of(cells_view(cells@)),
                    patterns_of(m@.before) == types_view(items@),
                    forall|j: int|
                        0 <= j < i ==> matches_state(
                            #[trigger] patterns_of(m@.before)[j],
                            states[j],
                        ),
                decreases cells.len() - i,
            {
                let fits = match state_of(&items[i]) {
                    Some(expected) => expected == cell_state(&cells[i]),
                    None => true,
                };
                assert(states[i as int] == state_of_slot(cells@[i as int]@));
                assert(patterns_of(m@.before)[i as int] == items@[i as int]@);
                if !fits {
                    return false;
                }
                i += 1;
            }
            true
        },
        None => cells.len() == 0,
    }
}

fn default_for(kind: FieldType) -> (r: Datum)
    ensures
        r@ == default_of(kind),
{
    match kind {
        FieldType::Sequence => {
            let v: Vec<i64> = Vec::new();
            assert(ints(v@) =~= Seq::empty());
            Datum::Sequence(v)
        },
        FieldType::Unique => {
            let v: Vec<i64> = Vec::new();
            assert(ints(v@).to_set() =~= Set::empty());
            Datum::Unique(v)
        },
        FieldType::Keyed => {
            let v: Vec<(i64, i64)> = Vec::new();
            assert(pairs(v@) =~= Seq::empty());
            Datum::Keyed(v)
        },
        _ => Datum::Absent,
    }
}

fn extend(current: Datum, more: Datum) -> (r: Datum)
    ensures
        r@ == extended(current@, more@),
{
    match (current, more) {
        (Datum::Sequence(a), Datum::Sequence(b)) => {
            let mut a = a;
            let mut b = b;
            let ghost x = a@;
            let ghost y = b@;
            a.append(&mut b);
            assert(ints(a@) =~= ints(x) + ints(y));
            Datum::Sequence(a)
        },
        (Datum::Unique(a), Datum::Unique(b)) => {
            let mut a = a;
            let mut b = b;
            let ghost x = a@;
            let ghost y = b@;
            a.append(&mut b);
            proof {
                assert(ints(a@) =~= ints(x) + ints(y));
                vstd::seq_lib::seq_to_set_distributes_over_add(ints(x), ints(y));
                assert(ints(a@).to_set() =~= ints(x).to_set().union(ints(y).to_set()));
            }
            Datum::Unique(a)
        },
        (Datum::Keyed(a), Datum::Keyed(b)) => {
            let mut a = a;
            let mut b = b;
            let ghost x = a@;
            let ghost y = b@;
            a.append(&mut b);
            proof {
                assert(pairs(a@) =~= pairs(x) + pairs(y));
                lemma_entries_concat(pairs(x), pairs(y));
            }
            Datum::Keyed(a)
        },
        (current, _) => current,
    }
}

fn collect(cell: Cell, kind: FieldType) -> (r: Datum)
    ensures
        r@ == collected(cell@, kind),
{
    match cell {
        Cell::Optional(Some(d)) => d,
        _ => default_for(kind),
    }
}

fn fits_kind(kind: FieldType, d: &Datum) -> (r: bool)
    ensures
        r == value_fits(kind, d@),
{
    match kind {
        FieldType::Regular => true,
        FieldType::Optional => match d {
            Datum::Absent => true,
            Datum::Present(_) => true,
            _ => false,
        },
        FieldType::Sequence => match d {
            Datum::Sequence(_) => true,
            _ => false,
        },
        FieldType::Unique => match d {
            Datum::Unique(_) => true,
            _ => false,
        },
        FieldType::Keyed => match d {
            Datum::Keyed(_) => true,
            _ => false,
        },
    }
}

/// Whether an operation with this action on a slot of this kind takes
/// the input.
pub fn takes(action: Action, kind: FieldType, input: &Input) -> (r: bool)
    ensures
        r == argument_fits(action, kind, input@),
{
    match action {
        Action::Assign | Action::AssignOptional | Action::Extend => match input {
            Input::Whole(d) => fits_kind(kind, d),
            _ => false,
        },
        Action::AssignPresent | Action::Push | Action::Insert => match input {
            Input::Item(_) => true,
            _ => false,
        },
        Action::InsertEntry => match input {
            Input::Entry(_, _) => true,
            _ => false,
        },
    }
}

fn one(x: i64) -> (r: Vec<i64>)
    ensures
        ints(r@) == seq![x as int],
{
    let mut v: Vec<i64> = Vec::new();
    v.push(x);
    assert(ints(v@) =~= seq![x as int]);
    v
}

/// The cell after an operation with this action took the input.
pub fn perform(action: Action, kind: FieldType, cell: Cell, input: Input) -> (r: Cell)
    ensures
        r@ == act(action, kind, cell@, input@),
{
    match (action, input) {
        (Action::Assign, Input::Whole(d)) => Cell::Held(d),
        (Action::AssignPresent, Input::Item(x)) => Cell::Held(Datum::Present(x)),
        (Action::AssignOptional, Input::Whole(d)) => Cell::Held(d),
        (Action::Extend, Input::Whole(more)) => Cell::Optional(
            Some(extend(collect(cell, kind), more)),
        ),
        (Action::Push, Input::Item(x)) => Cell::Optional(
            Some(extend(collect(cell, kind), Datum::Sequence(one(x)))),
        ),
        (Action::Insert, Input::Item(x)) => {
            let item = Datum::Unique(one(x));
            assert(item@ == Value::Unique(set![x as int])) by {
                let none = Seq::<int>::empty();
                none.lemma_push_to_set_commute(x as int);
                assert(none.push(x as int) =~= seq![x as int]);
                assert(none.to_set() =~= Set::empty());
                assert(seq![x as int].to_set() =~= set![x as int]);
            }
            Cell::Optional(Some(extend(collect(cell, kind), item)))
        },
        (Action::InsertEntry, Input::Entry(k, v)) => {
            let mut entries: Vec<(i64, i64)> = Vec::new();
            entries.push((k, v));
            let entry = Datum::Keyed(entries);
            assert(entry@ == Value::Keyed(map![k as int => v as int])) by {
                let e = pairs(entries@);
                assert(e =~= seq![(k as int, v as int)]);
                assert(e.drop_last() =~= Seq::empty());
                assert(entries_map(e.drop_last()) =~= Map::empty());
                assert(e.last() == (k as int, v as int));
                assert(entries_map(e) =~= map![k as int => v as int]);
            }
            Cell::Optional(Some(extend(collect(cell, kind), entry)))
        },
        (_, _) => cell,
    }
}

impl Protocol {
    /// The cells of the builder that the entry operation gives.
    pub fn start(&self) -> (r: Vec<Cell>)
        ensures
            cells_view(r@) == started(self@),
    {
        let mut out: Vec<Cell> = Vec::new();
        let mut i: usize = 0;
        while i < self.constructor.initial_state.len()
            invariant
                i <= self.constructor.initial_state.len(),
                out@.len() == i,
                forall|j: int|
                    0 <= j < i ==> (#[trigger] out@[j])@ == slot_of_expr(
                        self.constructor.initial_state@[j]@,
                    ),
            decreases self.constructor.initial_state.len() - i,
        {
            let e = &self.constructor.initial_state[i];
            let required = match e {
                Expr::Call { func, args } => {
                    proof {
                        lemma_expr_view_items(*e);
                    }
                    match &**func {
                        Expr::Path(p) => {
                            let is_required = match get_ident(&p.path) {
                                Some(name) => str_eq(name, "__required"),
                                None => false,
                            };
                            assert(is_required == (func@ == ExprView::Path(
                                ident_path("__required"@),
                            ))) by {
                                if is_required {
                                    assert(p.path@.segments =~= ident_path(
                                        "__required"@,
                                    ).segments);
                                }
                            }
                            is_required
                        },
                        _ => false,
                    }
                },
                _ => false,
            };
            out.push(
                if required {
                    Cell::Required
                } else {
                    Cell::Optional(None)
                },
            );
            i += 1;
        }
        assert(cells_view(out@) =~= started(self@));
        out
    }

    /// The cells after a call, or nothing where the call is not defined on
    /// a builder with these cells.
    pub fn invoke(&self, cells: Vec<Cell>, call: Invocation) -> (r: Option<Vec<Cell>>)
        ensures
            r is Some == call_defined(self@, cells_view(cells@), call@),
            r matches Some(next) ==> cells_view(next@) == slots_after(
                self@,
                cells_view(cells@),
                call@,
            ),
    {
        if call.slot >= self.methods.len() || call.slot >= cells.len() {
            return None;
        }
        let m = &self.methods[call.slot];
        assert(self@.methods[call.slot as int] == m@);
        if call.operation >= m.operations.len() {
            return None;
        }
        let op = &m.operations[call.operation];
        assert(m@.operations[call.operation as int] == op@);
        if !defined(m, &cells) || !takes(op.action, m.kind, &call.input) {
            return None;
        }
        let mut cells = cells;
        let ghost before = cells@;
        let cell = cells.remove(call.slot);
        let next = perform(op.action, m.kind, cell, call.input);
        cells.insert(call.slot, next);
        assert(cells_view(cells@) =~= slots_after(self@, cells_view(before), call@));
        Some(cells)
    }

    fn handed(&self, cells: &Vec<Cell>, e: &Expr) -> (r: Option<Datum>)
        ensures
            match r {
                Some(d) => argument_value(self@, cells_view(cells@), e@) == Some(d@),
                None => argument_value(self@, cells_view(cells@), e@) is None,
            },
    {
        match e {
            Expr::Field { base, member: Member::Named(member) } => match &**base {
                Expr::MethodCall { receiver, method, args } => {
                    proof {
                        lemma_expr_view_items(**base);
                    }
                    match &**receiver {
                        Expr::Field { base: fields, member: Member::Unnamed(i) } => {
                            let on_fields = match &**fields {
                                Expr::Field { base: this, member: Member::Named(name) } => {
                                    match &**this {
                                        Expr::Path(p) => {
                                            let is_self = match get_ident(&p.path) {
                                                Some(n) => str_eq(n, "self"),
                                                None => false,
                                            };
                                            assert(is_self == (this@ == ExprView::Path(
                                                ident_path("self"@),
                                            ))) by {
                                                if is_self {
                                                    assert(p.path@.segments =~= ident_path(
                                                        "self"@,
                                                    ).segments);
                                                }
                                            }
                                            is_self && str_eq(name.as_str(), "fields")
                                        },
                                        _ => false,
                                    }
                                },
                                _ => false,
                            };
                            assert(on_fields == (fields@ == fields_expr()));
                            if on_fields && str_eq(member.as_str(), "value") && str_eq(
                                method.as_str(),
                                "into",
                            ) && *i < cells.len() && *i < self.methods.len() {
                                assert(self@.methods[*i as int] == self.methods@[*i as int]@);
                                let kind = self.methods[*i].kind;
                                Some(
                                    match &cells[*i] {
                                        Cell::Held(d) => d.clone(),
                                        Cell::Optional(Some(d)) => d.clone(),
                                        _ => default_for(kind),
                                    },
                                )
                            } else {
                                None
                            }
                        },
                        _ => None,
                    }
                },
                _ => None,
            },
            _ => None,
        }
    }

    /// What the exit operation hands to the factory, or nothing where it
    /// is not defined on a builder with these cells.
    pub fn finish(&self, cells: &Vec<Cell>) -> (r: Option<Vec<Datum>>)
        ensures
            outcome_view(r) == handed_over(self@, cells_view(cells@)),
    {
        let ghost slots = cells_view(cells@);
        let count = match patterns(&self.exit.self_args) {
            Some(items) => items.len(),
            None => 0,
        };
        if count != cells.len() {
            return None;
        }
        let mut i: usize = 0;
        while i < cells.len()
            invariant
                i <= cells.len(),
                slots == cells_view(cells@),
                forall|j: int|
                    0 <= j < i ==> converts_into_held(
                        state_of_slot(#[trigger] slots[j]),
                    ),
            decreases cells.len() - i,
        {
            match &cells[i] {
                Cell::Required => {
                    assert(slots[i as int] == Slot::Required);
                    return None;
                },
                _ => {},
            }
            assert(slots[i as int] == cells@[i as int]@);
            i += 1;
        }
        assert(exit_defined(self@, slots));
        let ghost args = self@.exit.delegate_args;
        let mut out: Vec<Datum> = Vec::new();
        let mut k: usize = 0;
        while k < self.exit.delegate_args.len()
            invariant
                k <= self.exit.delegate_args.len(),
                slots == cells_view(cells@),
                args == self@.exit.delegate_args,
                args == exprs_view(self.exit.delegate_args@),
                out@.len() == k,
                forall|j: int|
                    0 <= j < k ==> argument_value(self@, slots, #[trigger] args[j]) == Some(
                        out@[j]@,
                    ),
            decreases self.exit.delegate_args.len() - k,
        {
            assert(args[k as int] == self.exit.delegate_args@[k as int]@);
            match self.handed(cells, &self.exit.delegate_args[k]) {
                Some(d) => {
                    out.push(d);
                },
                None => {
                    return None;
                },
            }
            k += 1;
        }
        assert(data_view(out@) =~= handed_over(self@, slots)->0);
        Some(out)
    }

    /// What a whole use of the builder hands to the factory: entry, the
    /// calls in order, exit. Nothing where the use does not type-check.
    pub fn simulate(&self, calls: Vec<Invocation>) -> (r: Option<Vec<Datum>>)
        ensures
            outcome_view(r) == built(self@, calls_view(calls@)),
    {
        let ghost all = calls_view(calls@);
        let mut rest = calls;
        let mut cells: Option<Vec<Cell>> = Some(self.start());
        let ghost mut done: int = 0;
        assert(all.take(0) =~= Seq::empty());
        while rest.len() > 0
            invariant
                0 <= done <= all.len(),
                rest@.len() == all.len() - done,
                forall|j: int| 0 <= j < rest@.len() ==> (#[trigger] rest@[j])@ == all[done + j],
                match cells {
                    Some(c) => run(self@, started(self@), all.take(done)) == Some(cells_view(c@)),
                    None => run(self@, started(self@), all.take(done)) is None,
                },
            decreases rest.len(),
        {
            let ghost before = rest@;
            let call = rest.remove(0);
            proof {
                assert(call == before[0]);
                assert(all.take(done + 1).drop_last() =~= all.take(done));
                assert(all.take(done + 1).last() == all[done]);
                assert forall|j: int| 0 <= j < rest@.len() implies (#[trigger] rest@[j])@ == all[done
                    + 1 + j] by {
                    assert(rest@[j] == before[j + 1]);
                }
            }
            cells =
            match cells {
                Some(c) => self.invoke(c, call),
                None => None,
            };
            proof {
                done = done + 1;
            }
        }
        assert(all.take(done) =~= all);
        match cells {
            Some(c) => self.finish(&c),
            None => None,
        }
    }
}

} // verus!
