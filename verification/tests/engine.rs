//! The query, filter, selection and runner-resolution behaviour of
//! the library, exercised on concrete values.

use qtai::collections::Collection;
use qtai::config::Config;
use qtai::error::QtaiError;
use qtai::run::position_of;
use qtai::select::{
    all_candidates, choose_candidate, display_pairs, first_candidate, selection_state, SelectState,
};

fn coll(runner: Option<&str>, items: &[(&str, &str)]) -> Collection {
    let mut c = Collection::new();
    c.default_runner = runner.map(|r| r.to_string());
    for (k, v) in items {
        assert!(c.insert_item(k.to_string(), v.to_string()));
    }
    c
}

fn config(runner: &str, menu: &str, colls: Vec<(&str, Collection)>) -> Config {
    Config {
        default_runner: runner.to_string(),
        default_menu: menu.to_string(),
        collections: colls.into_iter().map(|(n, c)| (n.to_string(), c)).collect(),
    }
}

fn pairs(v: &[(String, String)]) -> Vec<(&str, &str)> {
    v.iter().map(|p| (p.0.as_str(), p.1.as_str())).collect()
}

#[test]
fn empty_query_returns_every_item_in_order() {
    let c = coll(None, &[("beta", "1"), ("alpha", "2"), ("gamma", "3")]);
    let r = c.query_items("");
    assert_eq!(pairs(&r), vec![("beta", "1"), ("alpha", "2"), ("gamma", "3")]);
}

#[test]
fn matching_is_case_insensitive() {
    let c = coll(None, &[("Build Web", "make"), ("deploy", "ship ABCx"), ("other", "x")]);
    let upper = c.query_items("ABC");
    let lower = c.query_items("abc");
    assert_eq!(pairs(&upper), pairs(&lower));
    assert_eq!(pairs(&upper), vec![("deploy", "ship ABCx")]);
    assert_eq!(pairs(&c.query_items("bUiLd")), vec![("Build Web", "make")]);
}

#[test]
fn query_matches_label_or_payload() {
    let c = coll(None, &[("key", "payload"), ("pay", "nothing")]);
    let r = c.query_items("pay");
    assert_eq!(pairs(&r), vec![("key", "payload"), ("pay", "nothing")]);
}

#[test]
fn filter_collections_empty_input_returns_all_unchanged() {
    let cfg = config("sh -c", "dmenu", vec![
        ("Web", coll(None, &[("a", "1")])),
        ("db", coll(None, &[("b", "2")])),
    ]);
    let r = cfg.filter_collections(&vec![], true);
    let names: Vec<&str> = r.iter().map(|c| c.0.as_str()).collect();
    assert_eq!(names, vec!["Web", "db"]);
    let r2 = cfg.filter_collections(&vec![], false);
    let names2: Vec<&str> = r2.iter().map(|c| c.0.as_str()).collect();
    assert_eq!(names2, vec!["Web", "db"]);
}

#[test]
fn filter_collections_selective_needs_exact_name() {
    let cfg = config("sh -c", "dmenu", vec![
        ("Web", coll(None, &[("a", "1")])),
        ("webserver", coll(None, &[("b", "2")])),
    ]);
    let r = cfg.filter_collections(&vec!["wEb".to_string()], true);
    let names: Vec<&str> = r.iter().map(|c| c.0.as_str()).collect();
    assert_eq!(names, vec!["Web"]);
}

#[test]
fn filter_collections_substring_match() {
    let cfg = config("sh -c", "dmenu", vec![
        ("Web", coll(None, &[("a", "1")])),
        ("webserver", coll(None, &[("b", "2")])),
        ("db", coll(None, &[("c", "3")])),
    ]);
    let r = cfg.filter_collections(&vec!["WEB".to_string()], false);
    let names: Vec<&str> = r.iter().map(|c| c.0.as_str()).collect();
    assert_eq!(names, vec!["Web", "webserver"]);
}

#[test]
fn filter_collections_no_duplicate_on_multiple_matching_inputs() {
    let cfg = config("sh -c", "dmenu", vec![("web", coll(None, &[("a", "1")]))]);
    let r = cfg.filter_collections(&vec!["we".to_string(), "eb".to_string()], false);
    let names: Vec<&str> = r.iter().map(|c| c.0.as_str()).collect();
    assert_eq!(names, vec!["web"]);
}

#[test]
fn query_collections_by_name_substring() {
    let cfg = config("", "dmenu", vec![
        ("alpha", coll(None, &[])),
        ("beta", coll(None, &[])),
        ("ALPine", coll(None, &[])),
    ]);
    let r = cfg.query_collections("alp");
    let names: Vec<&str> = r.iter().map(|c| c.0.as_str()).collect();
    assert_eq!(names, vec!["alpha", "ALPine"]);
}

#[test]
fn query_items_drops_collections_without_matches() {
    let cfg = config("", "dmenu", vec![
        ("web", coll(None, &[("deploy", "./deploy.sh"), ("lint", "x")])),
        ("db", coll(None, &[("migrate", "y")])),
    ]);
    let r = cfg.query_items("deploy");
    assert_eq!(r.len(), 1);
    assert_eq!(r[0].0, "web");
    assert_eq!(pairs(&r[0].1), vec![("deploy", "./deploy.sh")]);
}

#[test]
fn search_items_fails_with_not_found_on_no_match() {
    let cfg = config("", "dmenu", vec![("web", coll(None, &[("a", "1")]))]);
    assert_eq!(cfg.search_items("zzz").unwrap_err(), QtaiError::NotFound);
    assert!(cfg.search_items("a").is_ok());
}

#[test]
fn list_collections_fails_with_not_found_on_no_match() {
    let cfg = config("", "dmenu", vec![("web", coll(None, &[("a", "1")]))]);
    assert_eq!(
        cfg.list_collections(&vec!["zzz".to_string()], false).unwrap_err(),
        QtaiError::NotFound
    );
    assert!(cfg.list_collections(&vec![], false).is_ok());
}

#[test]
fn runner_precedence_override_wins() {
    let cfg = config("Z", "dmenu", vec![("a", coll(Some("Y"), &[]))]);
    let r = cfg.resolve_runner(&Some("X".to_string()), &Some("a".to_string()));
    assert_eq!(r, "X");
    let r2 = cfg.resolve_runner(&Some("X".to_string()), &None);
    assert_eq!(r2, "X");
}

#[test]
fn runner_precedence_collection_default_beats_global() {
    let cfg = config("Z", "dmenu", vec![("a", coll(Some("Y"), &[]))]);
    assert_eq!(cfg.resolve_runner(&None, &Some("a".to_string())), "Y");
}

#[test]
fn runner_precedence_falls_back_to_global() {
    let cfg = config("Z", "dmenu", vec![("a", coll(None, &[]))]);
    assert_eq!(cfg.resolve_runner(&None, &Some("a".to_string())), "Z");
    assert_eq!(cfg.resolve_runner(&None, &None), "Z");
    assert_eq!(cfg.resolve_runner(&None, &Some("missing".to_string())), "Z");
}

#[test]
fn runner_resolution_never_fails_even_when_global_is_empty() {
    let cfg = config("", "dmenu", vec![]);
    assert_eq!(cfg.resolve_runner(&None, &None), "");
}

#[test]
fn selection_state_counts_candidates() {
    let none: Vec<u32> = vec![];
    assert_eq!(selection_state(&none), SelectState::Empty);
    assert_eq!(selection_state(&vec![1u32]), SelectState::Single);
    assert_eq!(selection_state(&vec![1u32, 2u32]), SelectState::Multiple);
}

#[test]
fn first_candidate_not_found_on_empty() {
    let none: Vec<u32> = vec![];
    assert_eq!(first_candidate(none).unwrap_err(), QtaiError::NotFound);
    assert_eq!(first_candidate(vec![7u32]).unwrap(), 7);
}

#[test]
fn choose_candidate_returns_the_indexed_candidate_unmodified() {
    let v = vec!["a".to_string(), "b".to_string(), "c".to_string()];
    assert_eq!(choose_candidate(v, 2).unwrap(), "c");
}

#[test]
fn choose_candidate_rejects_out_of_range_index() {
    let v = vec!["a".to_string()];
    assert_eq!(choose_candidate(v, 1).unwrap_err(), QtaiError::IndexOutOfBounds);
}

#[test]
fn display_pairs_disambiguates_colliding_labels() {
    let cands = vec![
        ("A".to_string(), ("build".to_string(), "x".to_string())),
        ("B".to_string(), ("build".to_string(), "y".to_string())),
        ("A".to_string(), ("deploy".to_string(), "z".to_string())),
    ];
    let labels = display_pairs(&cands);
    assert_eq!(labels, vec![
        "build (from collection \"A\")".to_string(),
        "build (from collection \"B\")".to_string(),
        "deploy".to_string(),
    ]);
}

#[test]
fn position_of_finds_the_menu_line() {
    let display = vec!["alpha".to_string(), "beta".to_string()];
    assert_eq!(position_of(&display, "beta"), Some(1));
    assert_eq!(position_of(&display, "free text"), None);
}

#[test]
fn all_candidates_tags_each_item_with_its_collection() {
    let cfg = config("", "dmenu", vec![
        ("web", coll(None, &[("deploy", "./deploy.sh")])),
        ("db", coll(None, &[("deploy", "./db-deploy.sh"), ("migrate", "m")])),
    ]);
    let filtered = cfg.filter_collections(&vec![], false);
    let cands = all_candidates(&filtered, "");
    let flat: Vec<(&str, &str, &str)> =
        cands.iter().map(|c| (c.0.as_str(), c.1 .0.as_str(), c.1 .1.as_str())).collect();
    assert_eq!(flat, vec![
        ("web", "deploy", "./deploy.sh"),
        ("db", "deploy", "./db-deploy.sh"),
        ("db", "migrate", "m"),
    ]);
}

#[test]
fn end_to_end_search_and_disambiguated_terminal_run() {
    let cfg = config("sh -c", "dmenu", vec![
        ("web", coll(None, &[("deploy", "./deploy.sh")])),
        ("db", coll(Some("bash -c"), &[("deploy", "./db-deploy.sh")])),
    ]);

    let found = cfg.search_items("deploy").unwrap();
    assert_eq!(found.len(), 2);
    assert_eq!(found[0].0, "web");
    assert_eq!(found[1].0, "db");

    let cands = cfg.select_item_candidates("deploy");
    assert_eq!(selection_state(&cands), SelectState::Multiple);
    let labels = display_pairs(&cands);
    assert_eq!(labels, vec![
        "deploy (from collection \"web\")".to_string(),
        "deploy (from collection \"db\")".to_string(),
    ]);

    let chosen = choose_candidate(cands, 1).unwrap();
    assert_eq!(chosen.0, "db");
    assert_eq!(chosen.1 .1, "./db-deploy.sh");

    let runner = cfg.resolve_runner(&None, &Some(chosen.0.clone()));
    assert_eq!(runner, "bash -c");
}

#[test]
fn insert_item_refuses_duplicate_label() {
    let mut c = coll(None, &[("a", "1")]);
    assert!(!c.insert_item("a".to_string(), "2".to_string()));
    assert_eq!(pairs(&c.query_items("")), vec![("a", "1")]);
}

#[test]
fn templates_match_the_generated_document() {
    let c = Collection::template();
    assert_eq!(pairs(&c.query_items("")), vec![("example key", "example value")]);
    assert!(c.default_runner.is_none());
    let cfg = Config::template();
    assert_eq!(cfg.default_runner, "");
    assert_eq!(cfg.default_menu, "dmenu");
    assert!(cfg.collections.is_empty());
}

#[test]
fn get_collection_is_exact_and_case_sensitive() {
    let cfg = config("", "dmenu", vec![("Web", coll(None, &[("a", "1")]))]);
    assert!(cfg.get_collection("Web").is_some());
    assert!(cfg.get_collection("web").is_none());
}

#[test]
fn error_messages_name_the_kind() {
    assert!(QtaiError::NotFound.message().contains("no match"));
    assert!(QtaiError::DuplicateKey.message().contains("already exists"));
    assert!(QtaiError::StructureMismatch.message().contains("structure"));
    assert!(QtaiError::IndexOutOfBounds.message().contains("out of bounds"));
}

#[test]
fn query_longer_than_any_text_matches_nothing() {
    let c = coll(None, &[("a", "b")]);
    assert!(c.query_items("a very long query indeed").is_empty());
}

#[test]
fn matching_handles_non_ascii_case_folding() {
    let c = coll(None, &[("Über", "script"), ("plain", "x")]);
    assert_eq!(pairs(&c.query_items("über")), vec![("Über", "script")]);
}

#[test]
fn position_of_takes_the_first_of_equal_lines() {
    let display = vec!["same".to_string(), "same".to_string()];
    assert_eq!(position_of(&display, "same"), Some(0));
}
