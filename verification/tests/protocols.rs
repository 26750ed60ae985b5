use buildstructor::analyze::{BuilderConfig, BuilderModel};
use buildstructor::codegen::codegen;
use buildstructor::generics::Generics;
use buildstructor::item::{FnArg, Pat, PatType, ReturnType, Visibility};
use buildstructor::lower::lower;
use buildstructor::protocol::Protocol;
use buildstructor::semantics::SlotState;
use buildstructor::simulate::{defined, perform, state_of, takes, Cell, Datum, Input, Invocation};
use buildstructor::lower::FieldType;
use buildstructor::protocol::Action;
use buildstructor::syntax::{
    AngleBracketedGenericArguments, GenericArgument, Path, PathArguments, PathSegment, Span, Type,
    TypePath,
};
use std::collections::{BTreeMap, BTreeSet};

fn generic(name: &str, args: Vec<Type>) -> Type {
    let arguments = if args.is_empty() {
        PathArguments::Absent
    } else {
        PathArguments::AngleBracketed(AngleBracketedGenericArguments {
            colon2_token: false,
            args: args.into_iter().map(GenericArgument::Type).collect(),
        })
    };
    Type::Path(TypePath {
        qself: None,
        path: Path {
            leading_colon: false,
            segments: vec![PathSegment { ident: name.to_string(), arguments }],
        },
    })
}

fn named(name: &str) -> Type {
    generic(name, vec![])
}

fn typed(name: &str, ty: Type) -> FnArg {
    FnArg::Typed(PatType { attrs: vec![], pat: Pat::Ident(name.to_string()), ty })
}

/// The protocol of
/// `fn new(id: u64, nick: Option<u64>, tags: Vec<u64>, groups: HashSet<u64>, ages: HashMap<u64, u64>)`.
fn protocol() -> Protocol {
    let model = BuilderModel {
        impl_name: "Person".to_string(),
        impl_generics: Generics { params: vec![], where_clause: None },
        delegate_name: "new".to_string(),
        delegate_span: Span { id: 0 },
        delegate_generics: Generics { params: vec![], where_clause: None },
        delegate_args: vec![
            typed("id", named("u64")),
            typed("nick", generic("Option", vec![named("u64")])),
            typed("tags", generic("Vec", vec![named("u64")])),
            typed("groups", generic("HashSet", vec![named("u64")])),
            typed("ages", generic("HashMap", vec![named("u64"), named("u64")])),
        ],
        delegate_return_type: ReturnType::Type(named("Person")),
        is_async: false,
        vis: Visibility::Public,
        config: BuilderConfig {
            entry: None,
            exit: None,
            span: None,
            visibility: None,
            with_into: None,
        },
        attributes: vec![],
        self_ty: named("Person"),
    };
    codegen(lower(model).unwrap()).unwrap()
}

const ID: usize = 0;
const NICK: usize = 1;
const TAGS: usize = 2;
const GROUPS: usize = 3;
const AGES: usize = 4;

fn whole(slot: usize, operation: usize, value: Datum) -> Invocation {
    Invocation { slot, operation, input: Input::Whole(value) }
}

fn item(slot: usize, operation: usize, value: i64) -> Invocation {
    Invocation { slot, operation, input: Input::Item(value) }
}

fn entry(slot: usize, key: i64, value: i64) -> Invocation {
    Invocation { slot, operation: 1, input: Input::Entry(key, value) }
}

fn id(value: i64) -> Invocation {
    whole(ID, 0, Datum::Item(value))
}

/// A value in which a set is a set and a map a map.
#[derive(Debug, PartialEq)]
enum Plain {
    Item(i64),
    Absent,
    Present(i64),
    Sequence(Vec<i64>),
    Unique(BTreeSet<i64>),
    Keyed(BTreeMap<i64, i64>),
}

fn plain(d: &Datum) -> Plain {
    match d {
        Datum::Item(x) => Plain::Item(*x),
        Datum::Absent => Plain::Absent,
        Datum::Present(x) => Plain::Present(*x),
        Datum::Sequence(v) => Plain::Sequence(v.clone()),
        Datum::Unique(v) => Plain::Unique(v.iter().copied().collect()),
        Datum::Keyed(v) => Plain::Keyed(v.iter().copied().collect()),
    }
}

fn build(calls: Vec<Invocation>) -> Option<Vec<Plain>> {
    protocol().simulate(calls).map(|values| values.iter().map(plain).collect())
}

fn set(items: &[i64]) -> Plain {
    Plain::Unique(items.iter().copied().collect())
}

fn map(entries: &[(i64, i64)]) -> Plain {
    Plain::Keyed(entries.iter().copied().collect())
}

#[test]
fn the_factory_gets_what_the_setters_took_in_the_order_of_its_parameters() {
    let expected = Some(vec![
        Plain::Item(7),
        Plain::Present(3),
        Plain::Sequence(vec![5, 6]),
        set(&[1, 2]),
        map(&[(10, 100)]),
    ]);
    assert_eq!(
        build(vec![
            id(7),
            item(NICK, 0, 3),
            item(TAGS, 1, 5),
            item(TAGS, 1, 6),
            item(GROUPS, 1, 1),
            item(GROUPS, 1, 2),
            entry(AGES, 10, 100),
        ]),
        expected
    );
    assert_eq!(
        build(vec![
            entry(AGES, 10, 100),
            item(TAGS, 1, 5),
            item(GROUPS, 1, 2),
            item(NICK, 0, 3),
            item(GROUPS, 1, 1),
            id(7),
            item(TAGS, 1, 6),
        ]),
        expected
    );
}

#[test]
fn a_use_without_the_required_setter_is_refused() {
    assert_eq!(build(vec![]), None);
    assert_eq!(build(vec![item(NICK, 0, 3), item(TAGS, 1, 5)]), None);
}

#[test]
fn a_second_call_of_a_setter_is_refused() {
    assert_eq!(build(vec![id(7), id(8)]), None);
    assert_eq!(build(vec![id(7), item(TAGS, 1, 5), id(7)]), None);
    assert_eq!(build(vec![id(7), item(NICK, 0, 3), item(NICK, 0, 4)]), None);
    assert_eq!(build(vec![id(7), item(NICK, 0, 3), whole(NICK, 1, Datum::Absent)]), None);

    let p = protocol();
    let cells = p.invoke(p.start(), id(7)).unwrap();
    assert_eq!(cells[ID], Cell::Held(Datum::Item(7)));
    assert_eq!(p.invoke(cells, id(8)), None);
}

#[test]
fn untouched_slots_give_the_absent_value_and_empty_collections() {
    assert_eq!(
        build(vec![id(7)]),
        Some(vec![Plain::Item(7), Plain::Absent, Plain::Sequence(vec![]), set(&[]), map(&[])])
    );
    let p = protocol();
    assert_eq!(
        p.start(),
        vec![
            Cell::Required,
            Cell::Optional(None),
            Cell::Optional(None),
            Cell::Optional(None),
            Cell::Optional(None)
        ]
    );
    assert_eq!(p.finish(&p.start()), None);
}

#[test]
fn an_optional_slot_takes_a_value_or_an_optional_value() {
    assert_eq!(build(vec![id(7), item(NICK, 0, 3)]).unwrap()[NICK], Plain::Present(3));
    assert_eq!(
        build(vec![id(7), whole(NICK, 1, Datum::Present(4))]).unwrap()[NICK],
        Plain::Present(4)
    );
    assert_eq!(build(vec![id(7), whole(NICK, 1, Datum::Absent)]).unwrap()[NICK], Plain::Absent);
}

#[test]
fn items_one_by_one_make_the_sequence_that_is_given_at_once() {
    let one_by_one = build(vec![id(7), item(TAGS, 1, 3), item(TAGS, 1, 1), item(TAGS, 1, 3)]);
    let at_once = build(vec![id(7), whole(TAGS, 0, Datum::Sequence(vec![3, 1, 3]))]);
    assert_eq!(one_by_one, at_once);
    assert_eq!(one_by_one.unwrap()[TAGS], Plain::Sequence(vec![3, 1, 3]));
}

#[test]
fn a_bulk_call_extends_what_was_collected() {
    let values = build(vec![
        id(7),
        item(TAGS, 1, 1),
        whole(TAGS, 0, Datum::Sequence(vec![2, 3])),
        item(TAGS, 1, 4),
        whole(TAGS, 0, Datum::Sequence(vec![])),
    ])
    .unwrap();
    assert_eq!(values[TAGS], Plain::Sequence(vec![1, 2, 3, 4]));
}

#[test]
fn items_one_by_one_make_the_set_without_duplicates() {
    let one_by_one = build(vec![id(7), item(GROUPS, 1, 3), item(GROUPS, 1, 1), item(GROUPS, 1, 3)]);
    let at_once = build(vec![id(7), whole(GROUPS, 0, Datum::Unique(vec![1, 3]))]);
    assert_eq!(one_by_one, at_once);
    assert_eq!(one_by_one.unwrap()[GROUPS], set(&[1, 3]));
}

#[test]
fn the_last_value_under_a_key_wins() {
    let one_by_one = build(vec![id(7), entry(AGES, 1, 10), entry(AGES, 2, 20), entry(AGES, 1, 11)]);
    let at_once = build(vec![id(7), whole(AGES, 0, Datum::Keyed(vec![(1, 11), (2, 20)]))]);
    assert_eq!(one_by_one, at_once);
    assert_eq!(one_by_one.unwrap()[AGES], map(&[(1, 11), (2, 20)]));
    let overwritten = build(vec![
        id(7),
        whole(AGES, 0, Datum::Keyed(vec![(1, 10), (2, 20)])),
        entry(AGES, 2, 21),
        whole(AGES, 0, Datum::Keyed(vec![(1, 12)])),
    ]);
    assert_eq!(overwritten.unwrap()[AGES], map(&[(1, 12), (2, 21)]));
}

#[test]
fn a_call_that_is_no_operation_of_the_protocol_is_refused() {
    assert_eq!(build(vec![id(7), item(5, 0, 1)]), None);
    assert_eq!(build(vec![id(7), item(ID, 1, 1)]), None);
    assert_eq!(build(vec![id(7), item(TAGS, 2, 1)]), None);
    assert_eq!(build(vec![item(ID, 0, 7)]), None);
    assert_eq!(build(vec![id(7), whole(TAGS, 0, Datum::Unique(vec![1]))]), None);
    assert_eq!(build(vec![id(7), whole(NICK, 1, Datum::Item(1))]), None);
    assert_eq!(build(vec![id(7), item(AGES, 1, 1)]), None);
    assert_eq!(build(vec![id(7), entry(TAGS, 1, 1)]), None);
}

#[test]
fn the_types_of_the_operations_say_where_they_are_defined() {
    let p = protocol();
    let fresh = p.start();
    for m in &p.methods {
        assert!(defined(m, &fresh));
    }
    let cells = p.invoke(fresh, id(7)).unwrap();
    assert!(!defined(&p.methods[ID], &cells));
    assert!(defined(&p.methods[NICK], &cells));
    assert!(defined(&p.methods[TAGS], &cells));
    let cells = p.invoke(cells, item(TAGS, 1, 1)).unwrap();
    assert!(defined(&p.methods[TAGS], &cells));
    assert!(!defined(&p.methods[TAGS], &vec![]));

    let state = |name: &str| state_of(&generic(name, vec![named("u64")]));
    assert_eq!(state("__Required"), Some(SlotState::Required));
    assert_eq!(state("__Optional"), Some(SlotState::Optional));
    assert_eq!(state("__Set"), Some(SlotState::Held));
    assert_eq!(state_of(&named("__0")), None);
    assert_eq!(state_of(&Type::Verbatim("!".to_string())), None);
}

#[test]
fn an_action_takes_the_input_of_its_shape() {
    assert!(takes(Action::Assign, FieldType::Regular, &Input::Whole(Datum::Sequence(vec![]))));
    assert!(!takes(Action::Assign, FieldType::Regular, &Input::Item(1)));
    assert!(takes(Action::AssignPresent, FieldType::Optional, &Input::Item(1)));
    assert!(takes(Action::AssignOptional, FieldType::Optional, &Input::Whole(Datum::Absent)));
    assert!(!takes(Action::AssignOptional, FieldType::Optional, &Input::Whole(Datum::Item(1))));
    assert!(takes(Action::Extend, FieldType::Keyed, &Input::Whole(Datum::Keyed(vec![]))));
    assert!(!takes(Action::Extend, FieldType::Keyed, &Input::Whole(Datum::Unique(vec![]))));
    assert!(takes(Action::Push, FieldType::Sequence, &Input::Item(1)));
    assert!(takes(Action::Insert, FieldType::Unique, &Input::Item(1)));
    assert!(takes(Action::InsertEntry, FieldType::Keyed, &Input::Entry(1, 2)));
    assert!(!takes(Action::InsertEntry, FieldType::Keyed, &Input::Item(1)));
}

#[test]
fn an_action_changes_the_cell() {
    assert_eq!(
        perform(Action::Assign, FieldType::Regular, Cell::Required, Input::Whole(Datum::Item(1))),
        Cell::Held(Datum::Item(1))
    );
    assert_eq!(
        perform(Action::AssignPresent, FieldType::Optional, Cell::Optional(None), Input::Item(1)),
        Cell::Held(Datum::Present(1))
    );
    assert_eq!(
        perform(Action::Push, FieldType::Sequence, Cell::Optional(None), Input::Item(1)),
        Cell::Optional(Some(Datum::Sequence(vec![1])))
    );
    assert_eq!(
        perform(
            Action::Push,
            FieldType::Sequence,
            Cell::Optional(Some(Datum::Sequence(vec![1]))),
            Input::Item(2)
        ),
        Cell::Optional(Some(Datum::Sequence(vec![1, 2])))
    );
    assert_eq!(
        perform(Action::Push, FieldType::Sequence, Cell::Required, Input::Entry(1, 2)),
        Cell::Required
    );
}
