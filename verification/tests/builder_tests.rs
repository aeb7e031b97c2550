//! The generated builder's runtime behaviour, on the `Command` example.

use seq_builder::command::Command;

#[test]
fn builder_example_scenario() {
    let command = Command::builder()
        .executable("cargo".to_string())
        .arg("build".to_string())
        .arg("--release".to_string())
        .build()
        .unwrap();
    assert_eq!(command.executable, "cargo");
    assert_eq!(command.args, vec!["build".to_string(), "--release".to_string()]);
    assert_eq!(command.env, Vec::<String>::new());
    assert_eq!(command.current_dir, None);
}

#[test]
fn build_succeeds_with_every_plain_field_set_once() {
    let mut b = Command::builder();
    b.executable("ls".to_string());
    b.current_dir("/tmp".to_string());
    let c = b.build().unwrap();
    assert_eq!(c.executable, "ls");
    assert_eq!(c.current_dir, Some("/tmp".to_string()));
}

#[test]
fn chained_setters_overwrite_and_the_last_value_wins() {
    let c = Command::builder()
        .executable("first".to_string())
        .executable("second".to_string())
        .build()
        .unwrap();
    assert_eq!(c.executable, "second");
}

#[test]
fn missing_required_field_fails_naming_it() {
    let mut b = Command::builder();
    b.arg("x".to_string());
    b.env("PATH=/bin".to_string());
    b.current_dir("/".to_string());
    let r = b.build();
    assert_eq!(r.err(), Some("executable is not set"));
}

#[test]
fn untouched_optional_and_sequence_fields_never_fail() {
    let mut b = Command::builder();
    b.executable("true".to_string());
    let c = b.build().unwrap();
    assert_eq!(c.args, Vec::<String>::new());
    assert_eq!(c.env, Vec::<String>::new());
    assert_eq!(c.current_dir, None);
}

#[test]
fn appends_accumulate_in_call_order() {
    let mut b = Command::builder();
    b.executable("e".to_string());
    let n = 5;
    for i in 0..n {
        b.arg(format!("a{}", i));
    }
    let c = b.build().unwrap();
    assert_eq!(c.args, vec!["a0", "a1", "a2", "a3", "a4"]);
}

#[test]
fn replace_then_append_appends_to_the_replaced_sequence() {
    let mut b = Command::builder();
    b.executable("e".to_string());
    b.args(vec!["x".to_string(), "y".to_string()]);
    b.arg("z".to_string());
    let c = b.build().unwrap();
    assert_eq!(c.args, vec!["x", "y", "z"]);
}

#[test]
fn collision_rule_append_operation_replaces_the_setter() {
    // `env` is the append operation: it takes one element and pushes it.
    let mut b = Command::builder();
    b.executable("e".to_string());
    b.env("A=1".to_string());
    b.env("B=2".to_string());
    let c = b.build().unwrap();
    assert_eq!(c.env, vec!["A=1", "B=2"]);
}

#[test]
fn builder_stays_reusable_after_a_successful_build() {
    let mut b = Command::builder();
    b.executable("e".to_string());
    b.arg("one".to_string());
    let c1 = b.build().unwrap();
    let c2 = b.build().unwrap();
    assert_eq!(c1.args, c2.args);
    assert_eq!(c1.executable, c2.executable);
    b.arg("two".to_string());
    let c3 = b.build().unwrap();
    assert_eq!(c3.args, vec!["one", "two"]);
}
