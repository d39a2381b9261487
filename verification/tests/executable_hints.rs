use cairo_lang_casm::hints::{CoreHint, Hint};
use cairo_lang_casm::operand::{CellRef, Register};
use cairo_vm::Felt252;
use stwo_web_stark::executable::Arg;
use cairo_vm::serde::deserialize_program::ApTracking;
use stwo_web_stark::hints::{build_hints_dict, hint_to_hint_params, HintTable};

fn alloc_hint(offset: i16) -> Hint {
    Hint::from(CoreHint::AllocSegment { dst: CellRef { register: Register::AP, offset } })
}

#[test]
fn arg_sizes() {
    assert_eq!(Arg::Value(Felt252::from(100)).size(), 1);
    assert_eq!(Arg::Array(vec![]).size(), 2);
    assert_eq!(Arg::Array(vec![Arg::Value(Felt252::from(1)), Arg::Value(Felt252::from(2))]).size(), 2);
}

#[test]
fn arg_from_felt_is_a_value() {
    let arg = Arg::from(Felt252::from(100));
    assert_eq!(arg.size(), 1);
    match arg {
        Arg::Value(v) => assert_eq!(v, Felt252::from(100)),
        Arg::Array(_) => panic!("expected a value"),
    }
}

#[test]
fn hint_params_of_a_hint() {
    let hint = alloc_hint(0);
    let params = hint_to_hint_params(&hint);
    assert_eq!(params.code, hint.representing_string());
    assert_eq!(params.code, format!("{:?}", hint));
    assert!(params.accessible_scopes.is_empty());
    assert_eq!(params.flow_tracking_data.ap_tracking, ApTracking { group: 0, offset: 0 });
    assert!(params.flow_tracking_data.reference_ids.is_empty());
}

#[test]
fn ap_tracking_new_is_zero() {
    assert_eq!(ApTracking::new(), ApTracking { group: 0, offset: 0 });
}

#[test]
fn hints_dict_last_group_wins() {
    let groups = vec![
        (0, vec![alloc_hint(0)]),
        (3, vec![alloc_hint(1), alloc_hint(2)]),
        (0, vec![alloc_hint(4), alloc_hint(5)]),
    ];
    let (dict, table) = build_hints_dict(&groups);
    assert_eq!(dict.len(), 2);
    let at0: Vec<String> = dict[&0].iter().map(|p| p.code.clone()).collect();
    assert_eq!(at0, vec![alloc_hint(4).representing_string(), alloc_hint(5).representing_string()]);
    let at3: Vec<String> = dict[&3].iter().map(|p| p.code.clone()).collect();
    assert_eq!(at3, vec![alloc_hint(1).representing_string(), alloc_hint(2).representing_string()]);
    assert_eq!(table.len(), 5);
    for k in [0, 1, 2, 4, 5] {
        let code = alloc_hint(k).representing_string();
        assert_eq!(table.get(&code).unwrap().representing_string(), code);
    }
    assert!(table.get(&alloc_hint(3).representing_string()).is_none());
}

#[test]
fn hints_dict_of_nothing() {
    let (dict, table) = build_hints_dict(&vec![]);
    assert!(dict.is_empty());
    assert_eq!(table.len(), 0);
}

#[test]
fn hints_dict_keeps_empty_groups() {
    let groups = vec![(7, vec![])];
    let (dict, table) = build_hints_dict(&groups);
    assert_eq!(dict.len(), 1);
    assert!(dict[&7].is_empty());
    assert_eq!(table.len(), 0);
}

#[test]
fn repeated_hint_is_stored_once() {
    let groups = vec![
        (0, vec![alloc_hint(0)]),
        (1, vec![alloc_hint(0)]),
    ];
    let (dict, table) = build_hints_dict(&groups);
    assert_eq!(dict.len(), 2);
    assert_eq!(table.len(), 1);
}

#[test]
fn hint_table_insert_replaces() {
    let mut table = HintTable::new();
    table.insert("a".to_string(), alloc_hint(0));
    table.insert("b".to_string(), alloc_hint(1));
    table.insert("a".to_string(), alloc_hint(2));
    assert_eq!(table.len(), 2);
    assert_eq!(
        table.get(&"a".to_string()).unwrap().representing_string(),
        alloc_hint(2).representing_string()
    );
    assert!(table.get(&"c".to_string()).is_none());
}

#[test]
fn hint_params_follow_the_representing_string() {
    let a = hint_to_hint_params(&alloc_hint(1));
    let b = hint_to_hint_params(&alloc_hint(1));
    let c = hint_to_hint_params(&alloc_hint(2));
    assert_eq!(a, b);
    assert_ne!(a, c);
    assert_ne!(alloc_hint(1).representing_string(), alloc_hint(2).representing_string());
}
