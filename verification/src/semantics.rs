//! What a protocol means. A protocol is a state machine whose state is
//! one slot for each parameter of the factory. The types of the
//! operations say on which states they are defined; their actions say
//! what they do to the value of their slot.
//!
//! The builder's module holds three states for a slot: `__Required<T>`
//! holds nothing and must be left before the exit; `__Optional<T>` holds
//! a value or nothing yet; `__Set<T>` holds a value. The module gives a
//! conversion into `__Set<T>` to `__Optional<T>`, which takes the default
//! where nothing is held; `__Set<T>` converts into itself, as every type
//! does; `__Required<T>` has no conversion.

use crate::expr::{ExprView, MemberView};
use crate::lower::{fields_expr, FieldType};
use crate::protocol::{Action, FieldMethodsView, OperationView, ProtocolView};
use crate::syntax::{AngleBracketedView, GenericArgumentView, TypeView};
use crate::utils::ident_path;
use vstd::prelude::*;

verus! {

/// The state of a slot, as the type of the builder records it.
#[derive(Clone, Copy, Debug, PartialEq, Eq, Structural)]
pub enum SlotState {
    /// `__Required<T>`
    Required,
    /// `__Optional<T>`
    Optional,
    /// `__Set<T>`
    Held,
}

/// A value that a slot may hold. Items are told apart by a number.
pub enum Value {
    /// A single value.
    Item(int),
    /// The absent optional value.
    Absent,
    /// A present optional value.
    Present(int),
    /// An ordered collection.
    Sequence(Seq<int>),
    /// A collection without duplicates.
    Unique(Set<int>),
    /// A collection of values under keys.
    Keyed(Map<int, int>),
}

/// A slot at run time.
pub enum Slot {
    /// `__Required<T>`: nothing is held.
    Required,
    /// `__Optional<T>`: a value is held, or nothing yet.
    Optional(Option<Value>),
    /// `__Set<T>`: a value is held.
    Held(Value),
}

/// What a caller hands to an operation.
pub enum Argument {
    /// A value of the parameter's own type.
    Whole(Value),
    /// One item.
    Item(int),
    /// One key with its value.
    Entry(int, int),
}

/// The call of an operation of a slot.
pub struct Call {
    pub slot: int,
    pub operation: int,
    pub argument: Argument,
}

/// The last name of a path type.
pub open spec fn last_ident(t: TypeView) -> Option<Seq<char>> {
    match t {
        TypeView::Path(p) => if p.path.segments.len() > 0 {
            Some(p.path.segments.last().ident)
        } else {
            None
        },
        _ => None,
    }
}

/// The state that a type stands for, if it is one of the three states.
/// Any other type is a parameter, which stands for every state.
pub open spec fn state_of_type(t: TypeView) -> Option<SlotState> {
    match last_ident(t) {
        Some(name) => if name == "__Required"@ {
            Some(SlotState::Required)
        } else if name == "__Optional"@ {
            Some(SlotState::Optional)
        } else if name == "__Set"@ {
            Some(SlotState::Held)
        } else {
            None
        },
        None => None,
    }
}

/// The types of the slots' states in the arguments of a builder type: the
/// elements of the tuple that is its first argument.
pub open spec fn patterns_of(a: AngleBracketedView) -> Seq<TypeView> {
    if a.args.len() > 0 {
        match a.args[0] {
            GenericArgumentView::Type(TypeView::Tuple(tuple)) => tuple.items,
            _ => Seq::empty(),
        }
    } else {
        Seq::empty()
    }
}

/// Whether a slot in the state `s` has the type `pattern`.
pub open spec fn matches_state(pattern: TypeView, s: SlotState) -> bool {
    match state_of_type(pattern) {
        Some(expected) => expected == s,
        None => true,
    }
}

/// Whether the operations of a slot are defined on a builder whose slots
/// are in `states`.
pub open spec fn defined_on(m: FieldMethodsView, states: Seq<SlotState>) -> bool {
    let patterns = patterns_of(m.before);
    &&& patterns.len() == states.len()
    &&& forall|i: int| 0 <= i < states.len() ==> matches_state(#[trigger] patterns[i], states[i])
}

/// The state in which the operation leaves its slot.
pub open spec fn state_after(m: FieldMethodsView, op: OperationView, s: SlotState) -> SlotState {
    if op.transitions && 0 <= m.index < patterns_of(m.after).len() {
        match state_of_type(patterns_of(m.after)[m.index as int]) {
            Some(next) => next,
            None => s,
        }
    } else {
        s
    }
}

/// The state of a slot at run time.
pub open spec fn state_of_slot(s: Slot) -> SlotState {
    match s {
        Slot::Required => SlotState::Required,
        Slot::Optional(_) => SlotState::Optional,
        Slot::Held(_) => SlotState::Held,
    }
}

/// The states of the slots.
pub open spec fn states_of(slots: Seq<Slot>) -> Seq<SlotState> {
    slots.map_values(|s: Slot| state_of_slot(s))
}

/// The value that a slot of kind `kind` takes where nothing was
/// supplied: the absent value, or the empty collection.
pub open spec fn default_of(kind: FieldType) -> Value {
    match kind {
        FieldType::Sequence => Value::Sequence(Seq::empty()),
        FieldType::Unique => Value::Unique(Set::empty()),
        FieldType::Keyed => Value::Keyed(Map::empty()),
        _ => Value::Absent,
    }
}

/// The collection that a slot holds: the one it has, or the empty one
/// where it holds none yet.
pub open spec fn collected(slot: Slot, kind: FieldType) -> Value {
    match slot {
        Slot::Optional(Some(v)) => v,
        _ => default_of(kind),
    }
}

/// The collection `current` with the items of `more` added: at the end of
/// a sequence, into a set, and into a map over what was there under the
/// same key.
pub open spec fn extended(current: Value, more: Value) -> Value {
    match (current, more) {
        (Value::Sequence(a), Value::Sequence(b)) => Value::Sequence(a + b),
        (Value::Unique(a), Value::Unique(b)) => Value::Unique(a.union(b)),
        (Value::Keyed(a), Value::Keyed(b)) => Value::Keyed(a.union_prefer_right(b)),
        _ => current,
    }
}

/// Whether `v` is a value of a parameter of kind `kind`.
pub open spec fn value_fits(kind: FieldType, v: Value) -> bool {
    match kind {
        FieldType::Regular => true,
        FieldType::Optional => v is Absent || v is Present,
        FieldType::Sequence => v is Sequence,
        FieldType::Unique => v is Unique,
        FieldType::Keyed => v is Keyed,
    }
}

/// Whether an operation with the action `action` on a slot of kind
/// `kind` takes the argument.
pub open spec fn argument_fits(action: Action, kind: FieldType, argument: Argument) -> bool {
    match action {
        Action::Assign | Action::AssignOptional | Action::Extend => argument
            matches Argument::Whole(v) && value_fits(kind, v),
        Action::AssignPresent | Action::Push | Action::Insert => argument is Item,
        Action::InsertEntry => argument is Entry,
    }
}

/// The slot after an operation with the action `action` took the
/// argument.
pub open spec fn act(action: Action, kind: FieldType, slot: Slot, argument: Argument) -> Slot {
    match (action, argument) {
        (Action::Assign, Argument::Whole(v)) => Slot::Held(v),
        (Action::AssignPresent, Argument::Item(x)) => Slot::Held(Value::Present(x)),
        (Action::AssignOptional, Argument::Whole(v)) => Slot::Held(v),
        (Action::Extend, Argument::Whole(more)) => Slot::Optional(
            Some(extended(collected(slot, kind), more)),
        ),
        (Action::Push, Argument::Item(x)) => Slot::Optional(
            Some(extended(collected(slot, kind), Value::Sequence(seq![x]))),
        ),
        (Action::Insert, Argument::Item(x)) => Slot::Optional(
            Some(extended(collected(slot, kind), Value::Unique(set![x]))),
        ),
        (Action::InsertEntry, Argument::Entry(k, v)) => Slot::Optional(
            Some(extended(collected(slot, kind), Value::Keyed(map![k => v]))),
        ),
        _ => slot,
    }
}

/// Whether a slot in the state `s` converts into a held value.
pub open spec fn converts_into_held(s: SlotState) -> bool {
    s != SlotState::Required
}

/// The value that a slot of kind `kind` gives at the exit: the value it
/// holds, or the default where it holds none.
pub open spec fn into_held(slot: Slot, kind: FieldType) -> Value {
    match slot {
        Slot::Held(v) => v,
        Slot::Optional(Some(v)) => v,
        _ => default_of(kind),
    }
}

/// The slot that a call of `__required` or `__optional` makes.
pub open spec fn slot_of_expr(e: ExprView) -> Slot {
    match e {
        ExprView::Call { func, args } => if *func == ExprView::Path(
            ident_path("__required"@),
        ) {
            Slot::Required
        } else {
            Slot::Optional(None)
        },
        _ => Slot::Optional(None),
    }
}

/// The slots of the builder that the entry operation gives.
pub open spec fn started(p: ProtocolView) -> Seq<Slot> {
    p.constructor.initial_state.map_values(|e: ExprView| slot_of_expr(e))
}

/// Whether the call is one of an operation of `p` that is defined on a
/// builder with the slots `slots` and takes the argument.
pub open spec fn call_defined(p: ProtocolView, slots: Seq<Slot>, call: Call) -> bool {
    &&& 0 <= call.slot < p.methods.len()
    &&& call.slot < slots.len()
    &&& 0 <= call.operation < p.methods[call.slot].operations.len()
    &&& defined_on(p.methods[call.slot], states_of(slots))
    &&& argument_fits(
        p.methods[call.slot].operations[call.operation].action,
        p.methods[call.slot].kind,
        call.argument,
    )
}

/// The slot `slot` of the operations `m` after the call of one of them on
/// it.
pub open spec fn slot_after(m: FieldMethodsView, slot: Slot, call: Call) -> Slot {
    act(m.operations[call.operation].action, m.kind, slot, call.argument)
}

/// The slots after a call that is defined: the slot of the operation has
/// acted, every other slot is as it was.
pub open spec fn slots_after(p: ProtocolView, slots: Seq<Slot>, call: Call) -> Seq<Slot> {
    slots.update(call.slot, slot_after(p.methods[call.slot], slots[call.slot], call))
}

/// The slots after a chain of calls, or nothing where one of the calls is
/// not defined: such a chain does not type-check.
pub open spec fn run(p: ProtocolView, slots: Seq<Slot>, calls: Seq<Call>) -> Option<Seq<Slot>>
    decreases calls.len(),
{
    if calls.len() == 0 {
        Some(slots)
    } else {
        match run(p, slots, calls.drop_last()) {
            Some(reached) => if call_defined(p, reached, calls.last()) {
                Some(slots_after(p, reached, calls.last()))
            } else {
                None
            },
            None => None,
        }
    }
}

/// Whether the exit operation is defined on a builder with the slots
/// `slots`: there are as many slots as the exit operation has states, and
/// each converts into a held value.
pub open spec fn exit_defined(p: ProtocolView, slots: Seq<Slot>) -> bool {
    &&& patterns_of(p.exit.self_args).len() == slots.len()
    &&& forall|i: int| 0 <= i < slots.len() ==> converts_into_held(state_of_slot(#[trigger] slots[i]))
}

/// The value of an argument of the factory, which has the form
/// `self.fields.i.into().value`: what slot `i` gives at the exit.
pub open spec fn argument_value(p: ProtocolView, slots: Seq<Slot>, e: ExprView) -> Option<Value> {
    match e {
        ExprView::Field { base, member } => match *base {
            ExprView::MethodCall { receiver, method, args } => match *receiver {
                ExprView::Field { base: fields, member: MemberView::Unnamed(i) } => if member
                    == MemberView::Named("value"@) && method == "into"@ && *fields == fields_expr()
                    && i < slots.len() && i < p.methods.len() {
                    Some(into_held(slots[i as int], p.methods[i as int].kind))
                } else {
                    None
                },
                _ => None,
            },
            _ => None,
        },
        _ => None,
    }
}

/// The values that the exit operation hands to the factory, in the order
/// of its parameters; nothing where the exit operation is not defined.
pub open spec fn handed_over(p: ProtocolView, slots: Seq<Slot>) -> Option<Seq<Value>> {
    if exit_defined(p, slots) && forall|i: int|
        0 <= i < p.exit.delegate_args.len() ==> argument_value(
            p,
            slots,
            #[trigger] p.exit.delegate_args[i],
        ) is Some {
        Some(
            Seq::new(
                p.exit.delegate_args.len(),
                |i: int| argument_value(p, slots, p.exit.delegate_args[i])->0,
            ),
        )
    } else {
        None
    }
}

/// What a whole use of the builder hands to the factory: entry, then the
/// calls, then exit. Nothing where the use does not type-check.
pub open spec fn built(p: ProtocolView, calls: Seq<Call>) -> Option<Seq<Value>> {
    match run(p, started(p), calls) {
        Some(slots) => handed_over(p, slots),
        None => None,
    }
}

/// The calls among `calls` that are on the slot `slot`, in order.
pub open spec fn calls_on(calls: Seq<Call>, slot: int) -> Seq<Call>
    decreases calls.len(),
{
    if calls.len() == 0 {
        Seq::empty()
    } else {
        let rest = calls_on(calls.drop_last(), slot);
        if calls.last().slot == slot {
            rest.push(calls.last())
        } else {
            rest
        }
    }
}

/// The slot in which a parameter of kind `kind` starts: a required one
/// holds nothing and must be set, every other one holds nothing yet.
pub open spec fn starting_slot(kind: FieldType) -> Slot {
    if kind == FieldType::Regular {
        Slot::Required
    } else {
        Slot::Optional(None)
    }
}

/// The value that the calls `history` on the operations `m` of one slot
/// supply for its parameter: what the slot gives at the exit after them.
pub open spec fn supplied(m: FieldMethodsView, history: Seq<Call>) -> Value {
    into_held(slot_after_all(m, starting_slot(m.kind), history), m.kind)
}

/// The slot `slot` after the calls `history`, all of which are calls of
/// its own operations `m`.
pub open spec fn slot_after_all(m: FieldMethodsView, slot: Slot, history: Seq<Call>) -> Slot
    decreases history.len(),
{
    if history.len() == 0 {
        slot
    } else {
        slot_after(m, slot_after_all(m, slot, history.drop_last()), history.last())
    }
}

} // verus!
