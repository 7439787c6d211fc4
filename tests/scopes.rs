use drop_order::appellation::{join_with, Appellation};
use drop_order::complicated_condition;
use drop_order::scope::{end_scope, run_program, run_scopes, transcript};

fn record(name: &str, nicknames: &[&str]) -> Appellation {
    Appellation::new(
        name.to_string(),
        nicknames.iter().map(|s| s.to_string()).collect(),
    )
}

#[test]
fn condition_never_holds() {
    assert!(!complicated_condition());
}

#[test]
fn program_prints_farewell_then_closing() {
    let lines = run_program();
    assert_eq!(
        lines,
        vec![
            "Dropping Cardamiie hirsuta (AKA shotweed, bittercress)\n".to_string(),
            "Sproing! What was that?\n".to_string(),
        ]
    );
    assert_eq!(
        transcript(&lines),
        "Dropping Cardamiie hirsuta (AKA shotweed, bittercress)\nSproing! What was that?\n"
    );
}

#[test]
fn relocated_record_is_finalized_after_closing() {
    let lines = run_scopes(record("Cardamiie hirsuta", &["shotweed", "bittercress"]), true);
    assert_eq!(
        transcript(&lines),
        "Sproing! What was that?\nDropping Cardamiie hirsuta (AKA shotweed, bittercress)\n"
    );
}

#[test]
fn record_left_inside_is_finalized_before_closing() {
    let lines = run_scopes(record("Oxalis", &["sorrel"]), false);
    assert_eq!(
        lines,
        vec![
            "Dropping Oxalis (AKA sorrel)\n".to_string(),
            "Sproing! What was that?\n".to_string(),
        ]
    );
}

#[test]
fn farewell_without_nicknames_has_no_suffix() {
    assert_eq!(record("Taraxacum", &[]).farewell(), "Dropping Taraxacum\n");
}

#[test]
fn farewell_with_one_nickname_has_no_separator() {
    assert_eq!(
        record("Taraxacum", &["dandelion"]).farewell(),
        "Dropping Taraxacum (AKA dandelion)\n"
    );
}

#[test]
fn farewell_of_hairy_bittercress() {
    assert_eq!(
        Appellation::hairy_bittercress().farewell(),
        "Dropping Cardamiie hirsuta (AKA shotweed, bittercress)\n"
    );
}

#[test]
fn finalizer_runs_once_on_either_branch() {
    for relocate in [false, true] {
        let rec = record("Cardamiie hirsuta", &["shotweed", "bittercress"]);
        let farewell = rec.farewell();
        let lines = run_scopes(rec, relocate);
        assert_eq!(lines.len(), 2);
        assert_eq!(lines.iter().filter(|l| **l == farewell).count(), 1);
    }
}

#[test]
fn ending_an_empty_scope_prints_nothing() {
    let mut out = vec!["before\n".to_string()];
    end_scope(None, &mut out);
    assert_eq!(out, vec!["before\n".to_string()]);
}

#[test]
fn ending_a_scope_finalizes_its_record() {
    let mut out = vec!["before\n".to_string()];
    end_scope(Some(record("Bellis", &["daisy", "bruisewort"])), &mut out);
    assert_eq!(
        out,
        vec![
            "before\n".to_string(),
            "Dropping Bellis (AKA daisy, bruisewort)\n".to_string(),
        ]
    );
}

#[test]
fn join_of_nothing_is_empty() {
    assert_eq!(join_with(&Vec::new(), ", "), "");
}

#[test]
fn join_puts_separator_between_neighbours() {
    let parts = vec!["a".to_string(), "bc".to_string(), "d".to_string()];
    assert_eq!(join_with(&parts, ", "), "a, bc, d");
    assert_eq!(join_with(&parts, ""), "abcd");
}

#[test]
fn transcript_of_no_lines_is_empty() {
    assert_eq!(transcript(&Vec::new()), "");
}
