//! What holds of every protocol that synthesis gives. Each law is stated
//! for the protocol of an arbitrary plan and proved from the definitions of
//! synthesis and of the meaning of a protocol.

use crate::analyze::BuilderModelView;
use crate::codegen::{
    exit_generics_of, field_methods_of, lemma_all_type_params, lemma_slot_tuple,
    lifetime_generics_of, operations_of, protocol_of, singular_name_of, slot_states,
    state_after_name,
};
use crate::generics::{GenericParamView, GenericsView, LifetimeParamView};
use crate::generics_ext::{combine_of, tuple_type_of, type_param_names};
use crate::item::{ReturnTypeView, VisibilityView};
use crate::lower::{
    delegate_arg_expr, field_type_of, initial_state_expr, initial_state_name, into_eligible,
    plan_of, return_type_of, slot_param_name, state_param_name, FieldType, IrView,
};
use crate::protocol::{Action, FieldMethodsView};
use crate::semantics::{
    argument_fits, argument_value, built, call_defined, calls_on, converts_into_held, default_of,
    defined_on, exit_defined, into_held, last_ident, matches_state, patterns_of, run, slot_after,
    slot_after_all, slots_after, started, starting_slot, state_after, state_of_slot, state_of_type,
    states_of, supplied, Argument, Call, Slot, SlotState, Value,
};
use crate::syntax::TypeView;
use crate::text::{decimal, digit, lemma_split_path_plain};
use crate::utils::{
    generic_args_of, generic_param_of, ident_path, ident_type, ident_type_path, is_integer_name, is_scalar,
    names_type_param,
    parsed_type, raw_ident_of, wrap_in_generic_of, wrap_in_generic_with_module_of,
};
use vstd::prelude::*;

verus! {

/// A plan that an executable plan can be the view of: its slots can be
/// counted.
pub open spec fn countable(ir: IrView) -> bool {
    ir.builder_fields.len() <= usize::MAX
}

/// The state in which a slot of kind `kind` starts.
pub open spec fn starting_state(kind: FieldType) -> SlotState {
    if kind == FieldType::Regular {
        SlotState::Required
    } else {
        SlotState::Optional
    }
}

/// The state in which the operations of a slot of kind `kind` leave it.
pub open spec fn settled_state(kind: FieldType) -> SlotState {
    if kind == FieldType::Regular || kind == FieldType::Optional {
        SlotState::Held
    } else {
        SlotState::Optional
    }
}

proof fn lemma_digit(d: nat)
    ensures
        digit(d).len() == 1,
        '0' <= digit(d)[0] <= '9',
{
    reveal_strlit("0");
    reveal_strlit("1");
    reveal_strlit("2");
    reveal_strlit("3");
    reveal_strlit("4");
    reveal_strlit("5");
    reveal_strlit("6");
    reveal_strlit("7");
    reveal_strlit("8");
    reveal_strlit("9");
}

proof fn lemma_decimal_first(n: nat)
    ensures
        decimal(n).len() >= 1,
        '0' <= decimal(n)[0] <= '9',
    decreases n,
{
    if n < 10 {
        lemma_digit(n);
    } else {
        lemma_decimal_first(n / 10);
        lemma_digit(n % 10);
    }
}

proof fn lemma_state_names()
    ensures
        "__Required"@.len() == 10,
        "__Optional"@.len() == 10,
        "__Set"@.len() == 5,
        "__Required"@[2] == 'R',
        "__Optional"@[2] == 'O',
        "__Set"@[2] == 'S',
        "__"@.len() == 2,
        "__required"@ != "__optional"@,
{
    reveal_strlit("__Required");
    reveal_strlit("__Optional");
    reveal_strlit("__Set");
    reveal_strlit("__");
    reveal_strlit("__required");
    reveal_strlit("__optional");
    assert("__required"@[2] == 'r');
    assert("__optional"@[2] == 'o');
}

/// The name of a state, by the state.
pub open spec fn state_name(s: SlotState) -> Seq<char> {
    match s {
        SlotState::Required => "__Required"@,
        SlotState::Optional => "__Optional"@,
        SlotState::Held => "__Set"@,
    }
}

proof fn lemma_state_of_name(t: TypeView, s: SlotState)
    requires
        last_ident(t) == Some(state_name(s)),
    ensures
        state_of_type(t) == Some(s),
{
    lemma_state_names();
}

proof fn lemma_wrapped(t: TypeView, module: Seq<char>, s: SlotState)
    ensures
        state_of_type(wrap_in_generic_of(t, state_name(s))) == Some(s),
        state_of_type(wrap_in_generic_with_module_of(t, module, state_name(s))) == Some(s),
{
    lemma_state_of_name(wrap_in_generic_of(t, state_name(s)), s);
    lemma_state_of_name(wrap_in_generic_with_module_of(t, module, state_name(s)), s);
}

proof fn lemma_parameter_is_no_state(j: nat)
    ensures
        state_of_type(ident_type(slot_param_name(j))) is None,
{
    lemma_state_names();
    lemma_decimal_first(j);
    let name = slot_param_name(j);
    assert(name[2] == decimal(j)[0]);
    assert(last_ident(ident_type(name)) == Some(name));
}

proof fn lemma_state_names_of_kind(kind: FieldType)
    ensures
        initial_state_name(kind) == state_name(starting_state(kind)),
        state_after_name(kind) == state_name(settled_state(kind)),
{
}

/// The shape of the protocol of a plan with `n` slots: it has the
/// operations of `n` slots; the operations of slot `i` are defined where
/// slot `i` is in its starting state, whatever the states of the others,
/// and leave it in its settled state; the builder starts with every slot
/// in its starting state, holding nothing; and the exit operation hands
/// over what each slot gives, in order.
pub proof fn lemma_protocol_shape(ir: IrView)
    requires
        countable(ir),
    ensures
        protocol_of(ir).methods.len() == ir.builder_fields.len(),
        started(protocol_of(ir)).len() == ir.builder_fields.len(),
        protocol_of(ir).exit.delegate_args.len() == ir.builder_fields.len(),
        patterns_of(protocol_of(ir).exit.self_args).len() == ir.builder_fields.len(),
        forall|i: int|
            0 <= i < ir.builder_fields.len() ==> {
                let m = #[trigger] protocol_of(ir).methods[i];
                let kind = ir.builder_fields[i].field_type;
                &&& m.index == i
                &&& m.kind == kind
                &&& m.operations == operations_of(ir.builder_fields[i])
                &&& patterns_of(m.before).len() == ir.builder_fields.len()
                &&& patterns_of(m.after).len() == ir.builder_fields.len()
                &&& state_of_type(patterns_of(m.before)[i]) == Some(starting_state(kind))
                &&& state_of_type(patterns_of(m.after)[i]) == Some(settled_state(kind))
                &&& forall|j: int|
                    0 <= j < ir.builder_fields.len() && j != i ==> state_of_type(
                        #[trigger] patterns_of(m.before)[j],
                    ) is None
            },
        forall|i: int|
            0 <= i < ir.builder_fields.len() ==> #[trigger] started(protocol_of(ir))[i] == (if
                ir.builder_fields[i].field_type == FieldType::Regular {
                Slot::Required
            } else {
                Slot::Optional(None)
            }),
        forall|i: int, slots: Seq<Slot>|
            0 <= i < ir.builder_fields.len() && slots.len() == ir.builder_fields.len()
                ==> #[trigger] argument_value(
                protocol_of(ir),
                slots,
                protocol_of(ir).exit.delegate_args[i],
            ) == Some(into_held(slots[i], ir.builder_fields[i].field_type)),
{
    let p = protocol_of(ir);
    let n = ir.builder_fields.len();
    let lifetime = lifetime_generics_of(ir);
    lemma_slot_tuple(ir);
    lemma_all_type_params(ir.param_generics().params);
    lemma_state_names();
    assert forall|i: int| 0 <= i < n implies {
        let m = #[trigger] p.methods[i];
        let kind = ir.builder_fields[i].field_type;
        &&& m.index == i
        &&& m.kind == kind
        &&& m.operations == operations_of(ir.builder_fields[i])
        &&& patterns_of(m.before).len() == n
        &&& patterns_of(m.after).len() == n
        &&& state_of_type(patterns_of(m.before)[i]) == Some(starting_state(kind))
        &&& state_of_type(patterns_of(m.after)[i]) == Some(settled_state(kind))
        &&& forall|j: int|
            0 <= j < n && j != i ==> state_of_type(#[trigger] patterns_of(m.before)[j]) is None
    } by {
        let m = p.methods[i];
        let f = ir.builder_fields[i];
        let kind = f.field_type;
        assert(m == field_methods_of(ir, exit_generics_of(ir).where_clause, lifetime, i));
        lemma_state_names_of_kind(kind);
        let before = slot_states(ir, i, initial_state_name(kind));
        let after = slot_states(ir, i, state_after_name(kind));
        assert(patterns_of(m.before) == before.items);
        assert(patterns_of(m.after) == after.items);
        lemma_wrapped(f.ty, Seq::empty(), starting_state(kind));
        lemma_wrapped(f.ty, Seq::empty(), settled_state(kind));
        assert forall|j: int| 0 <= j < n && j != i implies state_of_type(
            #[trigger] patterns_of(m.before)[j],
        ) is None by {
            lemma_parameter_is_no_state(j as nat);
            assert(before.items[j] == tuple_type_of(ir.builder_type_generics()).items[j]);
        }
    }
    assert forall|i: int| 0 <= i < n implies #[trigger] started(p)[i] == (if ir.builder_fields[i].field_type
        == FieldType::Regular {
        Slot::Required
    } else {
        Slot::Optional(None)
    }) by {
        let kind = ir.builder_fields[i].field_type;
        assert(p.constructor.initial_state[i] == initial_state_expr(kind));
        if kind != FieldType::Regular {
            assert(ident_path("__optional"@).segments[0].ident == "__optional"@);
            assert(ident_path("__required"@).segments[0].ident == "__required"@);
        }
    }
    assert forall|i: int, slots: Seq<Slot>| 0 <= i < n && slots.len() == n implies #[trigger] argument_value(
        p,
        slots,
        p.exit.delegate_args[i],
    ) == Some(into_held(slots[i], ir.builder_fields[i].field_type)) by {
        assert(p.exit.delegate_args[i] == delegate_arg_expr(i as usize));
        assert(p.methods[i].kind == ir.builder_fields[i].field_type);
    }
}

/// The entry operation gives a builder with one slot for each parameter,
/// each in its starting state: required where the parameter is required,
/// and optional, holding nothing yet, where it is not. The type of the
/// builder records the same states.
pub proof fn law_entry_starts_every_slot(ir: IrView, i: int)
    requires
        countable(ir),
        0 <= i < ir.builder_fields.len(),
    ensures
        started(protocol_of(ir)).len() == ir.builder_fields.len(),
        patterns_of(protocol_of(ir).constructor.return_args).len() == ir.builder_fields.len(),
        started(protocol_of(ir))[i] == starting_slot(ir.builder_fields[i].field_type),
        state_of_type(patterns_of(protocol_of(ir).constructor.return_args)[i]) == Some(
            starting_state(ir.builder_fields[i].field_type),
        ),
        state_of_slot(started(protocol_of(ir))[i]) == starting_state(
            ir.builder_fields[i].field_type,
        ),
{
    lemma_protocol_shape(ir);
    let kind = ir.builder_fields[i].field_type;
    lemma_state_names_of_kind(kind);
    lemma_wrapped(ir.builder_fields[i].ty, ir.module_name, starting_state(kind));
    assert(patterns_of(protocol_of(ir).constructor.return_args)
        == ir.builder_state_type_initial()->Tuple_0.items);
}

/// The state of a slot of kind `kind` on which `count` calls were made.
pub open spec fn state_after_calls(kind: FieldType, count: nat) -> SlotState {
    if count == 0 {
        starting_state(kind)
    } else {
        settled_state(kind)
    }
}

/// An operation does to its slot what its type says, and nothing to any
/// other slot: after a call that is defined, the slot of the operation is
/// in its settled state, in which the type of the operation leaves it,
/// and every other slot is as it was.
pub proof fn law_types_follow_actions(ir: IrView, slots: Seq<Slot>, call: Call)
    requires
        countable(ir),
        slots.len() == ir.builder_fields.len(),
        call_defined(protocol_of(ir), slots, call),
    ensures
        slots_after(protocol_of(ir), slots, call).len() == slots.len(),
        state_of_slot(slots[call.slot]) == starting_state(
            ir.builder_fields[call.slot].field_type,
        ),
        state_of_slot(slots_after(protocol_of(ir), slots, call)[call.slot]) == settled_state(
            ir.builder_fields[call.slot].field_type,
        ),
        state_of_slot(slots_after(protocol_of(ir), slots, call)[call.slot]) == state_after(
            protocol_of(ir).methods[call.slot],
            protocol_of(ir).methods[call.slot].operations[call.operation],
            state_of_slot(slots[call.slot]),
        ),
        forall|j: int|
            0 <= j < slots.len() && j != call.slot ==> slots_after(protocol_of(ir), slots, call)[j]
                == slots[j],
{
    lemma_protocol_shape(ir);
    let p = protocol_of(ir);
    let i = call.slot;
    let m = p.methods[i];
    let f = ir.builder_fields[i];
    let op = m.operations[call.operation];
    assert(matches_state(patterns_of(m.before)[i], states_of(slots)[i]));
    assert(states_of(slots)[i] == state_of_slot(slots[i]));
    assert(op == operations_of(f)[call.operation]);
}

/// What holds after every chain of calls that type-checks: each slot is
/// what its own calls made of it, whatever was called on other slots in
/// between; it is in its starting state if nothing was called on it, and
/// in its settled state else; and on a required or an optional slot at
/// most one call was made.
pub proof fn lemma_run(ir: IrView, calls: Seq<Call>)
    requires
        countable(ir),
    ensures
        run(protocol_of(ir), started(protocol_of(ir)), calls) matches Some(slots) ==> {
            &&& slots.len() == ir.builder_fields.len()
            &&& forall|i: int|
                0 <= i < ir.builder_fields.len() ==> {
                    let kind = ir.builder_fields[i].field_type;
                    &&& #[trigger] slots[i] == slot_after_all(
                        protocol_of(ir).methods[i],
                        started(protocol_of(ir))[i],
                        calls_on(calls, i),
                    )
                    &&& state_of_slot(slots[i]) == state_after_calls(kind, calls_on(calls, i).len())
                    &&& (kind == FieldType::Regular || kind == FieldType::Optional) ==> calls_on(
                        calls,
                        i,
                    ).len() <= 1
                }
        },
    decreases calls.len(),
{
    let p = protocol_of(ir);
    let n = ir.builder_fields.len();
    lemma_protocol_shape(ir);
    if calls.len() == 0 {
    } else {
        let before = calls.drop_last();
        let call = calls.last();
        lemma_run(ir, before);
        match run(p, started(p), before) {
            Some(reached) => {
                if call_defined(p, reached, call) {
                    law_types_follow_actions(ir, reached, call);
                    let slots = slots_after(p, reached, call);
                    assert forall|i: int| 0 <= i < n implies {
                        let kind = ir.builder_fields[i].field_type;
                        &&& #[trigger] slots[i] == slot_after_all(
                            p.methods[i],
                            started(p)[i],
                            calls_on(calls, i),
                        )
                        &&& state_of_slot(slots[i]) == state_after_calls(
                            kind,
                            calls_on(calls, i).len(),
                        )
                        &&& (kind == FieldType::Regular || kind == FieldType::Optional)
                            ==> calls_on(calls, i).len() <= 1
                    } by {
                        let earlier = calls_on(before, i);
                        assert(reached[i] == slot_after_all(p.methods[i], started(p)[i], earlier));
                        if i == call.slot {
                            assert(calls_on(calls, i) == earlier.push(call));
                            assert(earlier.push(call).drop_last() =~= earlier);
                            assert(earlier.push(call).last() == call);
                        } else {
                            assert(calls_on(calls, i) == earlier);
                        }
                    }
                }
            },
            None => {},
        }
    }
}

/// Round trip. Where a use of the builder type-checks, the factory is
/// invoked with one value for each of its parameters, in their order, and
/// each value is what the calls on the slot of that parameter supplied,
/// whatever the order in which the slots were filled.
pub proof fn law_round_trip(ir: IrView, calls: Seq<Call>)
    requires
        countable(ir),
        built(protocol_of(ir), calls) is Some,
    ensures
        built(protocol_of(ir), calls)->0.len() == ir.builder_fields.len(),
        forall|i: int|
            0 <= i < ir.builder_fields.len() ==> #[trigger] built(protocol_of(ir), calls)->0[i]
                == supplied(protocol_of(ir).methods[i], calls_on(calls, i)),
{
    lemma_protocol_shape(ir);
    lemma_run(ir, calls);
    let p = protocol_of(ir);
    let slots = run(p, started(p), calls)->0;
    assert forall|i: int| 0 <= i < ir.builder_fields.len() implies #[trigger] built(p, calls)->0[i]
        == supplied(p.methods[i], calls_on(calls, i)) by {
        assert(argument_value(p, slots, p.exit.delegate_args[i]) == Some(
            into_held(slots[i], ir.builder_fields[i].field_type),
        ));
        assert(slots[i] == slot_after_all(p.methods[i], started(p)[i], calls_on(calls, i)));
    }
}

/// The value of a required parameter is the value that its setter took.
pub proof fn law_required_value(ir: IrView, calls: Seq<Call>, i: int, value: Value)
    requires
        countable(ir),
        built(protocol_of(ir), calls) is Some,
        0 <= i < ir.builder_fields.len(),
        ir.builder_fields[i].field_type == FieldType::Regular,
        calls_on(calls, i).len() == 1,
        calls_on(calls, i)[0].argument == Argument::Whole(value),
    ensures
        built(protocol_of(ir), calls)->0[i] == value,
{
    lemma_protocol_shape(ir);
    lemma_run(ir, calls);
    law_round_trip(ir, calls);
    let p = protocol_of(ir);
    let m = p.methods[i];
    let history = calls_on(calls, i);
    let slots = run(p, started(p), calls)->0;
    assert(history.drop_last().len() == 0);
    assert(history.last() == history[0]);
    assert(slot_after_all(m, starting_slot(m.kind), history.drop_last()) == starting_slot(m.kind));
    assert(state_of_slot(slots[i]) == SlotState::Held);
    assert(slots[i] == slot_after(m, starting_slot(m.kind), history[0]));
}

/// No second call. A chain of calls in which a setter of a required or of
/// an optional slot follows another call on the same slot does not
/// type-check.
pub proof fn law_no_second_call(ir: IrView, calls: Seq<Call>, i: int)
    requires
        countable(ir),
        0 <= i < ir.builder_fields.len(),
        ir.builder_fields[i].field_type == FieldType::Regular || ir.builder_fields[i].field_type
            == FieldType::Optional,
        calls_on(calls, i).len() >= 2,
    ensures
        run(protocol_of(ir), started(protocol_of(ir)), calls) is None,
        built(protocol_of(ir), calls) is None,
{
    lemma_run(ir, calls);
    let p = protocol_of(ir);
    match run(p, started(p), calls) {
        Some(slots) => {
            assert(slots[i] == slot_after_all(p.methods[i], started(p)[i], calls_on(calls, i)));
        },
        None => {},
    }
}

/// No omission. A use of the builder in which the setter of a required
/// slot is never called does not type-check.
pub proof fn law_no_omission(ir: IrView, calls: Seq<Call>, i: int)
    requires
        countable(ir),
        0 <= i < ir.builder_fields.len(),
        ir.builder_fields[i].field_type == FieldType::Regular,
        calls_on(calls, i).len() == 0,
    ensures
        built(protocol_of(ir), calls) is None,
{
    lemma_protocol_shape(ir);
    lemma_run(ir, calls);
    let p = protocol_of(ir);
    match run(p, started(p), calls) {
        Some(slots) => {
            assert(state_of_slot(slots[i]) == SlotState::Required);
            assert(!converts_into_held(state_of_slot(slots[i])));
        },
        None => {},
    }
}

/// Untouched slots. Where a use of the builder type-checks and never
/// touches the slot of an optional parameter, the factory gets the absent
/// value for it; for the untouched slot of a sequence, a set or a map it
/// gets the empty collection of that kind.
pub proof fn law_untouched_slot(ir: IrView, calls: Seq<Call>, i: int)
    requires
        countable(ir),
        built(protocol_of(ir), calls) is Some,
        0 <= i < ir.builder_fields.len(),
        calls_on(calls, i).len() == 0,
    ensures
        ir.builder_fields[i].field_type != FieldType::Regular,
        built(protocol_of(ir), calls)->0[i] == default_of(ir.builder_fields[i].field_type),
        default_of(FieldType::Optional) == Value::Absent,
        default_of(FieldType::Sequence) == Value::Sequence(Seq::empty()),
        default_of(FieldType::Unique) == Value::Unique(Set::empty()),
        default_of(FieldType::Keyed) == Value::Keyed(Map::empty()),
{
    lemma_protocol_shape(ir);
    lemma_run(ir, calls);
    law_round_trip(ir, calls);
    if ir.builder_fields[i].field_type == FieldType::Regular {
        law_no_omission(ir, calls, i);
    }
}

/// Whether the call is one of an operation of a slot of the plan, with an
/// argument that the operation takes.
pub open spec fn call_fits(ir: IrView, call: Call) -> bool {
    &&& 0 <= call.slot < ir.builder_fields.len()
    &&& 0 <= call.operation < operations_of(ir.builder_fields[call.slot]).len()
    &&& argument_fits(
        operations_of(ir.builder_fields[call.slot])[call.operation].action,
        ir.builder_fields[call.slot].field_type,
        call.argument,
    )
}

/// Whether the chain calls no setter of a required or of an optional slot
/// twice.
pub open spec fn orderly(ir: IrView, calls: Seq<Call>) -> bool {
    &&& forall|k: int| 0 <= k < calls.len() ==> call_fits(ir, #[trigger] calls[k])
    &&& forall|i: int|
        0 <= i < ir.builder_fields.len() && (ir.builder_fields[i].field_type == FieldType::Regular
            || ir.builder_fields[i].field_type == FieldType::Optional) ==> #[trigger] calls_on(
            calls,
            i,
        ).len() <= 1
}

/// Whether the chain is a proper use of the builder: it calls the setter
/// of every required slot exactly once, a setter of an optional slot at
/// most once, and the operations of collections any number of times, in
/// any order.
pub open spec fn proper_use(ir: IrView, calls: Seq<Call>) -> bool {
    &&& orderly(ir, calls)
    &&& forall|i: int|
        0 <= i < ir.builder_fields.len() && ir.builder_fields[i].field_type == FieldType::Regular
            ==> #[trigger] calls_on(calls, i).len() == 1
}

proof fn lemma_orderly_runs(ir: IrView, calls: Seq<Call>)
    requires
        countable(ir),
        orderly(ir, calls),
    ensures
        run(protocol_of(ir), started(protocol_of(ir)), calls) is Some,
    decreases calls.len(),
{
    let p = protocol_of(ir);
    let n = ir.builder_fields.len();
    lemma_protocol_shape(ir);
    if calls.len() > 0 {
        let before = calls.drop_last();
        let call = calls.last();
        assert(orderly(ir, before)) by {
            assert forall|k: int| 0 <= k < before.len() implies call_fits(
                ir,
                #[trigger] before[k],
            ) by {
                assert(before[k] == calls[k]);
            }
            assert forall|i: int|
                0 <= i < n && (ir.builder_fields[i].field_type == FieldType::Regular
                    || ir.builder_fields[i].field_type == FieldType::Optional) implies #[trigger] calls_on(
                before,
                i,
            ).len() <= 1 by {
                assert(calls_on(calls, i).len() <= 1);
            }
        }
        lemma_orderly_runs(ir, before);
        lemma_run(ir, before);
        let reached = run(p, started(p), before)->0;
        let i = call.slot;
        let m = p.methods[i];
        let kind = ir.builder_fields[i].field_type;
        assert(call_fits(ir, call));
        assert(reached[i] == slot_after_all(m, started(p)[i], calls_on(before, i)));
        assert(calls_on(calls, i) == calls_on(before, i).push(call));
        if kind == FieldType::Regular || kind == FieldType::Optional {
            assert(calls_on(calls, i).len() <= 1);
            assert(calls_on(before, i).len() == 0);
        }
        assert(state_of_slot(reached[i]) == starting_state(kind));
        assert(defined_on(m, states_of(reached))) by {
            let patterns = patterns_of(m.before);
            assert forall|j: int| 0 <= j < states_of(reached).len() implies matches_state(
                #[trigger] patterns[j],
                states_of(reached)[j],
            ) by {
                if j != i {
                    assert(state_of_type(patterns_of(m.before)[j]) is None);
                }
            }
        }
        assert(call_defined(p, reached, call));
    }
}

/// Every proper use type-checks: after the entry, the setter of every
/// required slot exactly once, in any order, and the other operations any
/// number of times (a setter of an optional slot at most once), the exit
/// operation is defined and the factory is invoked.
pub proof fn law_proper_use_builds(ir: IrView, calls: Seq<Call>)
    requires
        countable(ir),
        proper_use(ir, calls),
    ensures
        built(protocol_of(ir), calls) is Some,
{
    let p = protocol_of(ir);
    lemma_protocol_shape(ir);
    lemma_orderly_runs(ir, calls);
    lemma_run(ir, calls);
    let slots = run(p, started(p), calls)->0;
    assert forall|i: int| 0 <= i < slots.len() implies converts_into_held(
        state_of_slot(#[trigger] slots[i]),
    ) by {
        assert(slots[i] == slot_after_all(p.methods[i], started(p)[i], calls_on(calls, i)));
        if ir.builder_fields[i].field_type == FieldType::Regular {
            assert(calls_on(calls, i).len() == 1);
        }
    }
    assert(exit_defined(p, slots));
    assert forall|i: int| 0 <= i < p.exit.delegate_args.len() implies argument_value(
        p,
        slots,
        #[trigger] p.exit.delegate_args[i],
    ) is Some by {
        assert(argument_value(p, slots, p.exit.delegate_args[i]) == Some(
            into_held(slots[i], ir.builder_fields[i].field_type),
        ));
    }
}

/// The calls of the operation that takes one item, once for each of
/// `items`, in order.
pub open spec fn single_calls(slot: int, items: Seq<int>) -> Seq<Call> {
    Seq::new(
        items.len(),
        |k: int| Call { slot, operation: 1, argument: Argument::Item(items[k]) },
    )
}

/// The calls of the operation that takes one key with its value, once for
/// each of `entries`, in order.
pub open spec fn entry_calls(slot: int, entries: Seq<(int, int)>) -> Seq<Call> {
    Seq::new(
        entries.len(),
        |k: int| Call { slot, operation: 1, argument: Argument::Entry(entries[k].0, entries[k].1) },
    )
}

/// The call of the operation that takes a whole collection.
pub open spec fn bulk_call(slot: int, collection: Value) -> Call {
    Call { slot, operation: 0, argument: Argument::Whole(collection) }
}

/// The map that holds the entries, each put in over what was there under
/// its key.
pub open spec fn entries_map(entries: Seq<(int, int)>) -> Map<int, int>
    decreases entries.len(),
{
    if entries.len() == 0 {
        Map::empty()
    } else {
        entries_map(entries.drop_last()).insert(entries.last().0, entries.last().1)
    }
}

/// The last value wins: under a key, the map of the entries holds the
/// value of the last entry with that key.
pub proof fn law_last_value_wins(entries: Seq<(int, int)>, j: int)
    requires
        0 <= j < entries.len(),
        forall|k: int| j < k < entries.len() ==> entries[k].0 != entries[j].0,
    ensures
        entries_map(entries).dom().contains(entries[j].0),
        entries_map(entries)[entries[j].0] == entries[j].1,
    decreases entries.len(),
{
    if j < entries.len() - 1 {
        let before = entries.drop_last();
        assert(before[j] == entries[j]);
        assert forall|k: int| j < k < before.len() implies before[k].0 != before[j].0 by {
            assert(before[k] == entries[k]);
        }
        law_last_value_wins(before, j);
        assert(entries.last() == entries[entries.len() - 1]);
    }
}

proof fn lemma_single_calls(m: FieldMethodsView, slot: int, items: Seq<int>)
    requires
        m.kind == FieldType::Sequence || m.kind == FieldType::Unique,
        m.operations.len() == 2,
        m.operations[1].action == (if m.kind == FieldType::Sequence {
            Action::Push
        } else {
            Action::Insert
        }),
    ensures
        supplied(m, single_calls(slot, items)) == (if m.kind == FieldType::Sequence {
            Value::Sequence(items)
        } else {
            Value::Unique(items.to_set())
        }),
        items.len() > 0 ==> slot_after_all(m, starting_slot(m.kind), single_calls(slot, items))
            == Slot::Optional(Some(supplied(m, single_calls(slot, items)))),
        items.len() == 0 ==> slot_after_all(m, starting_slot(m.kind), single_calls(slot, items))
            == Slot::Optional(None),
    decreases items.len(),
{
    let calls = single_calls(slot, items);
    if items.len() == 0 {
        assert(items =~= Seq::empty());
        assert(items.to_set() =~= Set::empty());
    } else {
        let before = items.drop_last();
        lemma_single_calls(m, slot, before);
        assert(calls.drop_last() =~= single_calls(slot, before));
        assert(calls.last().argument == Argument::Item(items.last()));
        assert(before + seq![items.last()] =~= items);
        assert(before.to_set().union(set![items.last()]) =~= items.to_set()) by {
            assert(before.push(items.last()) =~= items);
            before.lemma_push_to_set_commute(items.last());
            assert(before.to_set().insert(items.last()) =~= before.to_set().union(
                set![items.last()],
            ));
        }
    }
}

/// One by one or all at once, for a sequence: the calls of the singular
/// operation with the items, in order, supply the sequence of the items in
/// that order, as one call of the bulk operation with that sequence does.
pub proof fn law_sequence_item_by_item(ir: IrView, i: int, items: Seq<int>)
    requires
        countable(ir),
        0 <= i < ir.builder_fields.len(),
        ir.builder_fields[i].field_type == FieldType::Sequence,
    ensures
        supplied(protocol_of(ir).methods[i], single_calls(i, items)) == Value::Sequence(items),
        supplied(protocol_of(ir).methods[i], seq![bulk_call(i, Value::Sequence(items))])
            == Value::Sequence(items),
{
    lemma_protocol_shape(ir);
    let m = protocol_of(ir).methods[i];
    lemma_single_calls(m, i, items);
    let bulk = seq![bulk_call(i, Value::Sequence(items))];
    assert(bulk.drop_last() =~= Seq::<Call>::empty());
    assert(slot_after_all(m, starting_slot(m.kind), bulk.drop_last()) == starting_slot(m.kind));
    assert(Seq::<int>::empty() + items =~= items);
}

/// One by one or all at once, for a set: the calls of the singular
/// operation with the items supply the set of the items, without
/// duplicates, as one call of the bulk operation with that set does.
pub proof fn law_set_item_by_item(ir: IrView, i: int, items: Seq<int>)
    requires
        countable(ir),
        0 <= i < ir.builder_fields.len(),
        ir.builder_fields[i].field_type == FieldType::Unique,
    ensures
        supplied(protocol_of(ir).methods[i], single_calls(i, items)) == Value::Unique(
            items.to_set(),
        ),
        supplied(protocol_of(ir).methods[i], seq![bulk_call(i, Value::Unique(items.to_set()))])
            == Value::Unique(items.to_set()),
{
    lemma_protocol_shape(ir);
    let m = protocol_of(ir).methods[i];
    lemma_single_calls(m, i, items);
    let bulk = seq![bulk_call(i, Value::Unique(items.to_set()))];
    assert(bulk.drop_last() =~= Seq::<Call>::empty());
    assert(slot_after_all(m, starting_slot(m.kind), bulk.drop_last()) == starting_slot(m.kind));
    assert(Set::<int>::empty().union(items.to_set()) =~= items.to_set());
}

proof fn lemma_entry_calls(m: FieldMethodsView, slot: int, entries: Seq<(int, int)>)
    requires
        m.kind == FieldType::Keyed,
        m.operations.len() == 2,
        m.operations[1].action == Action::InsertEntry,
    ensures
        supplied(m, entry_calls(slot, entries)) == Value::Keyed(entries_map(entries)),
        entries.len() > 0 ==> slot_after_all(m, starting_slot(m.kind), entry_calls(slot, entries))
            == Slot::Optional(Some(Value::Keyed(entries_map(entries)))),
        entries.len() == 0 ==> slot_after_all(m, starting_slot(m.kind), entry_calls(slot, entries))
            == Slot::Optional(None),
    decreases entries.len(),
{
    let calls = entry_calls(slot, entries);
    if entries.len() > 0 {
        let before = entries.drop_last();
        lemma_entry_calls(m, slot, before);
        assert(calls.drop_last() =~= entry_calls(slot, before));
        let (k, v) = entries.last();
        assert(calls.last().argument == Argument::Entry(k, v));
        assert(entries_map(before).union_prefer_right(map![k => v]) =~= entries_map(
            before,
        ).insert(k, v));
    }
}

/// One by one or all at once, for a map: the calls of the singular
/// operation with the entries, in order, supply the map in which the last
/// value under each key wins, as one call of the bulk operation with that
/// map does.
pub proof fn law_map_entry_by_entry(ir: IrView, i: int, entries: Seq<(int, int)>)
    requires
        countable(ir),
        0 <= i < ir.builder_fields.len(),
        ir.builder_fields[i].field_type == FieldType::Keyed,
    ensures
        supplied(protocol_of(ir).methods[i], entry_calls(i, entries)) == Value::Keyed(
            entries_map(entries),
        ),
        supplied(protocol_of(ir).methods[i], seq![bulk_call(i, Value::Keyed(entries_map(entries)))])
            == Value::Keyed(entries_map(entries)),
{
    lemma_protocol_shape(ir);
    let m = protocol_of(ir).methods[i];
    lemma_entry_calls(m, i, entries);
    let bulk = seq![bulk_call(i, Value::Keyed(entries_map(entries)))];
    assert(bulk.drop_last() =~= Seq::<Call>::empty());
    assert(slot_after_all(m, starting_slot(m.kind), bulk.drop_last()) == starting_slot(m.kind));
    assert(Map::<int, int>::empty().union_prefer_right(entries_map(entries)) =~= entries_map(
        entries,
    ));
}

/// The type parameters that stand for convertible arguments are the plain
/// names `__T`, `__K` and `__V`.
pub proof fn law_conversion_parameters()
    ensures
        parsed_type("__T"@) == ident_type("__T"@),
        parsed_type("__K"@) == ident_type("__K"@),
        parsed_type("__V"@) == ident_type("__V"@),
{
    reveal_strlit("__T");
    reveal_strlit("__K");
    reveal_strlit("__V");
    lemma_split_path_plain("__T"@);
    lemma_split_path_plain("__K"@);
    lemma_split_path_plain("__V"@);
    assert(parsed_type("__T"@)->Path_0.path.segments =~= ident_type(
        "__T"@,
    )->Path_0.path.segments);
    assert(parsed_type("__K"@)->Path_0.path.segments =~= ident_type(
        "__K"@,
    )->Path_0.path.segments);
    assert(parsed_type("__V"@)->Path_0.path.segments =~= ident_type(
        "__V"@,
    )->Path_0.path.segments);
}

/// Classification is by name alone: two types that are written as the
/// same single name are of the same kind, whatever their arguments and
/// whatever they are.
pub proof fn law_classification_is_by_name(a: TypeView, b: TypeView)
    requires
        raw_ident_of(a) == raw_ident_of(b),
    ensures
        field_type_of(a) == field_type_of(b),
{
}

/// Implicit conversion is offered for no type with generic arguments on
/// any segment of its path, for no primitive scalar and for none of the
/// enclosing type parameters, and for no type at all where the factory
/// switches it off.
pub proof fn law_conversion_is_restricted(model: BuilderModelView, t: TypeView)
    requires
        into_eligible(model, t),
    ensures
        model.config.with_into != Some(false),
        t is Path,
        forall|i: int|
            0 <= i < t->Path_0.path.segments.len() ==> (
            #[trigger] t->Path_0.path.segments[i]).arguments is Absent,
        generic_args_of(t) is None,
        raw_ident_of(t) matches Some(name) ==> !is_scalar(name)
            && !names_type_param(model.impl_generics.params, name)
            && !names_type_param(model.delegate_generics.params, name),
{
}

/// The names of the floating-point numbers and of `char` are names of
/// primitive scalars, as those of the integers and `bool` are: a type
/// written as one of them is never offered implicit conversion.
pub proof fn law_scalars_are_not_converted(model: BuilderModelView, name: Seq<char>)
    requires
        name == "f32"@ || name == "f64"@ || name == "char"@ || name == "bool"@
            || is_integer_name(name),
    ensures
        is_scalar(name),
        !into_eligible(model, ident_type(name)),
{
}

/// A type with generic arguments on any segment of its path is never
/// offered implicit conversion.
pub proof fn law_arguments_are_not_converted(model: BuilderModelView, t: TypeView, at: int)
    requires
        t is Path,
        0 <= at < t->Path_0.path.segments.len(),
        !(t->Path_0.path.segments[at].arguments is Absent),
    ensures
        !into_eligible(model, t),
{
}

/// The two accessors of a collection never have the same name.
pub proof fn law_accessor_names_differ(name: Seq<char>)
    ensures
        singular_name_of(name) != name,
{
    reveal_strlit("_entry");
    assert((name + "_entry"@).len() == name.len() + 6);
}

/// The exit operation mirrors the factory: it is asynchronous if and only
/// if the factory is, and it returns what the factory returns, with the
/// target type in place of `Self`. A type around the result, such as a
/// fallible or an optional one, is kept as it is: a return type that is a
/// path other than `Self` keeps its segments' names.
pub proof fn law_exit_mirrors_delegate(
    model: BuilderModelView,
    vis: VisibilityView,
    builder_vis: VisibilityView,
    entry: Seq<char>,
)
    ensures
        ({
            let exit = protocol_of(plan_of(model, vis, builder_vis, entry)).exit;
            &&& exit.is_async == model.is_async
            &&& exit.delegate_name == model.delegate_name
            &&& exit.return_type == return_type_of(
                model.delegate_return_type,
                model.self_ty,
            )
            &&& (exit.return_type is Default <==> model.delegate_return_type is Default)
            &&& (model.delegate_return_type is Type && model.delegate_return_type->Type_0 is Path
                && model.delegate_return_type->Type_0->Path_0 != ident_type_path(
                "Self"@,
            ) ==> {
                let declared = model.delegate_return_type->Type_0->Path_0;
                &&& exit.return_type matches ReturnTypeView::Type(TypeView::Path(out))
                &&& out.qself == declared.qself
                &&& out.path.leading_colon == declared.path.leading_colon
                &&& out.path.segments.len() == declared.path.segments.len()
                &&& forall|k: int|
                    0 <= k < declared.path.segments.len() ==> (#[trigger] out.path.segments[k]).ident
                        == declared.path.segments[k].ident
            })
        }),
{
}

proof fn lemma_combine_prefix(gs: Seq<GenericsView>)
    requires
        gs.len() > 0,
    ensures
        gs[0].params.len() <= combine_of(gs).params.len(),
        forall|k: int|
            0 <= k < gs[0].params.len() ==> combine_of(gs).params[k]
                == gs[0].params[k],
    decreases gs.len(),
{
    if gs.len() == 1 {
        assert(gs.drop_last().len() == 0);
        assert(gs.last() == gs[0]);
        assert(combine_of(gs.drop_last()).params =~= Seq::empty());
    } else {
        lemma_combine_prefix(gs.drop_last());
        assert(gs.drop_last()[0] == gs[0]);
    }
}

proof fn lemma_combine_four(a: GenericsView, b: GenericsView, c: GenericsView, d: GenericsView)
    ensures
        combine_of(seq![a, b, c, d]).params == a.params + b.params + c.params + d.params,
{
    let four = seq![a, b, c, d];
    let three = seq![a, b, c];
    let two = seq![a, b];
    let one = seq![a];
    assert(four.drop_last() =~= three);
    assert(three.drop_last() =~= two);
    assert(two.drop_last() =~= one);
    assert(one.drop_last() =~= Seq::<GenericsView>::empty());
    assert(combine_of(one.drop_last()) == GenericsView::empty());
    assert(combine_of(one).params =~= a.params);
    assert(combine_of(two).params =~= a.params + b.params);
    assert(combine_of(three).params =~= a.params + b.params + c.params);
    assert(combine_of(four).params =~= a.params + b.params + c.params + d.params);
}

/// What the exit operation demands. It is defined on the builder whose
/// slot `i` is in any state `__P<i>` that converts into `__Set<T>`, for
/// the type `T` of parameter `i`: the parameter `__P<i>` stands at the
/// place of slot `i` in the type of the builder, and it is declared, after
/// the parameters that the builder carries, with the bound
/// `Into<__Set<T>>`.
pub proof fn law_exit_demands_conversion(ir: IrView, i: int)
    requires
        countable(ir),
        0 <= i < ir.builder_fields.len(),
    ensures
        ({
            let exit = protocol_of(ir).exit;
            let carried = lifetime_generics_of(ir).params.len() + ir.impl_generics.params.len()
                + ir.delegate_generics.params.len();
            &&& patterns_of(exit.self_args).len() == ir.builder_fields.len()
            &&& patterns_of(exit.self_args)[i] == ident_type(state_param_name(i as nat))
            &&& exit.generics.params.len() == carried + ir.builder_fields.len()
            &&& exit.generics.params[carried + i] == generic_param_of(
                state_param_name(i as nat),
                Some(wrap_in_generic_of(wrap_in_generic_of(ir.builder_fields[i].ty, "__Set"@), "Into"@)),
            )
        }),
{
    lemma_protocol_shape(ir);
    lemma_all_type_params(ir.param_generics().params);
    lemma_combine_four(
        lifetime_generics_of(ir),
        ir.impl_generics,
        ir.delegate_generics,
        ir.param_generics(),
    );
    let names = type_param_names(ir.param_generics().params);
    assert(tuple_type_of(ir.param_generics()).items[i] == ident_type(names[i]));
}

/// How the receiver is captured. The entry operation takes the receiver
/// as the factory does. The builder holds a receiver that is taken by
/// value as a value; it holds a borrowed receiver as a borrow under the
/// lifetime `'__builder`, which is the first parameter of the builder
/// type and of its exit operation, so that no builder is typed to outlive
/// what it borrows. A factory without receiver has a builder without one.
pub proof fn law_receiver_capture(ir: IrView)
    ensures
        protocol_of(ir).entry.receiver == ir.receiver,
        ir.receiver is None <==> protocol_of(ir).receiver is None,
        ir.receiver matches Some(r) ==> {
            let held = protocol_of(ir).receiver->0;
            &&& held.mutability == r.mutability
            &&& held.reference == (r.reference is Some)
            &&& held.lifetime is Some == (r.reference is Some)
        },
        ir.receiver matches Some(r) && r.reference is Some ==> {
            let lifetime = GenericParamView::Lifetime(
                LifetimeParamView { lifetime: "'__builder"@, bounds: Seq::empty() },
            );
            &&& protocol_of(ir).receiver->0.lifetime == Some("'__builder"@)
            &&& protocol_of(ir).builder_generics.params.len() > 0
            &&& protocol_of(ir).builder_generics.params[0] == lifetime
            &&& protocol_of(ir).exit.generics.params.len() > 0
            &&& protocol_of(ir).exit.generics.params[0] == lifetime
        },
{
    let lifetime = lifetime_generics_of(ir);
    lemma_combine_prefix(
        seq![lifetime, ir.builder_generics, ir.impl_generics, ir.delegate_generics],
    );
    lemma_combine_prefix(
        seq![lifetime, ir.impl_generics, ir.delegate_generics, ir.param_generics()],
    );
}

} // verus!
