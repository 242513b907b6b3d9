use ghaction_trigger::{
    assemble_env, effective_value, get_env_for_component, github_env, HostEnv,
};
use std::collections::HashMap;

fn host_of(pairs: &[(&str, &str)]) -> HostEnv {
    let mut host = HostEnv::new();
    for (name, value) in pairs {
        host.set(name.to_string(), value.to_string());
    }
    host
}

fn pair(name: &str, value: &str) -> (String, String) {
    (name.to_string(), value.to_string())
}

fn apply(table: &[(String, String)]) -> HashMap<String, String> {
    let mut applied = HashMap::new();
    for (name, value) in table {
        applied.insert(name.clone(), value.clone());
    }
    applied
}

#[test]
fn environment_table_round_trip() {
    let host = host_of(&[("A", "1"), ("B", "2")]);
    let table = assemble_env(&vec!["A"], &vec!["B".to_string(), "C".to_string()], &host);
    assert_eq!(
        table,
        vec![pair("A", "1"), pair("GITHUB_ACTIONS", "true"), pair("CI", "true"), pair("B", "2")]
    );
}

#[test]
fn absent_variables_are_passed_over() {
    let host = HostEnv::new();
    let table = assemble_env(&vec!["A", "B"], &vec!["C".to_string()], &host);
    assert_eq!(table, vec![pair("GITHUB_ACTIONS", "true"), pair("CI", "true")]);
}

#[test]
fn shadowing_keeps_the_host_value() {
    let host = host_of(&[("X", "host")]);
    let table = assemble_env(&vec!["X"], &vec!["X".to_string()], &host);
    assert_eq!(
        table,
        vec![pair("X", "host"), pair("GITHUB_ACTIONS", "true"), pair("CI", "true"), pair("X", "host")]
    );
    assert_eq!(apply(&table).get("X"), Some(&"host".to_string()));
    assert_eq!(effective_value(&table, "X"), Some("host".to_string()));
}

#[test]
fn requested_name_replaces_a_fixed_pair() {
    let host = host_of(&[("CI", "false")]);
    let table = assemble_env(&vec![], &vec!["CI".to_string()], &host);
    assert_eq!(
        table,
        vec![pair("GITHUB_ACTIONS", "true"), pair("CI", "true"), pair("CI", "false")]
    );
    assert_eq!(effective_value(&table, "CI"), Some("false".to_string()));
    assert_eq!(effective_value(&table, "GITHUB_ACTIONS"), Some("true".to_string()));
    assert_eq!(apply(&table).get("CI"), Some(&"false".to_string()));
}

#[test]
fn fixed_pair_replaces_a_well_known_name() {
    let host = host_of(&[("CI", "false")]);
    let table = assemble_env(&vec!["CI"], &vec![], &host);
    assert_eq!(
        table,
        vec![pair("CI", "false"), pair("GITHUB_ACTIONS", "true"), pair("CI", "true")]
    );
    assert_eq!(effective_value(&table, "CI"), Some("true".to_string()));
}

#[test]
fn requested_names_keep_their_order_and_repeats() {
    let host = host_of(&[("B", "2"), ("A", "1")]);
    let table = assemble_env(
        &vec![],
        &vec!["A".to_string(), "B".to_string(), "A".to_string()],
        &host,
    );
    assert_eq!(
        table,
        vec![
            pair("GITHUB_ACTIONS", "true"),
            pair("CI", "true"),
            pair("A", "1"),
            pair("B", "2"),
            pair("A", "1"),
        ]
    );
}

#[test]
fn component_environment_follows_the_runner_list() {
    let host = host_of(&[
        ("GITHUB_SHA", "abc"),
        ("HOME", "/home/runner"),
        ("UNRELATED", "x"),
        ("TOKEN", "t"),
    ]);
    let table = get_env_for_component(vec!["TOKEN".to_string(), "NOPE".to_string()], &host);
    assert_eq!(
        table,
        vec![
            pair("HOME", "/home/runner"),
            pair("GITHUB_SHA", "abc"),
            pair("GITHUB_ACTIONS", "true"),
            pair("CI", "true"),
            pair("TOKEN", "t"),
        ]
    );
}

#[test]
fn every_runner_variable_is_forwarded_when_defined() {
    let mut host = HostEnv::new();
    for name in github_env() {
        host.set(name.to_string(), format!("value of {}", name));
    }
    let table = get_env_for_component(vec![], &host);
    assert_eq!(table.len(), 52);
    for (at, name) in github_env().iter().enumerate() {
        assert_eq!(table[at], (name.to_string(), format!("value of {}", name)));
    }
    assert_eq!(table[50], pair("GITHUB_ACTIONS", "true"));
    assert_eq!(table[51], pair("CI", "true"));
}

#[test]
fn host_env_reads_by_name() {
    let mut host = HostEnv::new();
    assert_eq!(host.get("A"), None);
    host.set("A".to_string(), "1".to_string());
    host.set("B".to_string(), "2".to_string());
    assert_eq!(host.get("A"), Some("1".to_string()));
    assert_eq!(host.get("B"), Some("2".to_string()));
    assert_eq!(host.get("C"), None);
    assert_eq!(host.get(""), None);
}

#[test]
fn host_env_set_replaces() {
    let mut host = HostEnv::new();
    host.set("A".to_string(), "1".to_string());
    host.set("A".to_string(), "2".to_string());
    assert_eq!(host.get("A"), Some("2".to_string()));
}

#[test]
fn effective_value_takes_the_last_pair() {
    let table = vec![pair("A", "1"), pair("B", "2"), pair("A", "3")];
    assert_eq!(effective_value(&table, "A"), Some("3".to_string()));
    assert_eq!(effective_value(&table, "B"), Some("2".to_string()));
    assert_eq!(effective_value(&table, "C"), None);
    assert_eq!(effective_value(&Vec::new(), "A"), None);
}
