//! Tests of the query builder: the exact wire-level parameter lists.

use lolesports::query::build_params;

fn pair(k: &str, v: &str) -> (String, String) {
    (k.to_string(), v.to_string())
}

#[test]
fn no_options_builds_exactly_four_pairs() {
    let p = build_params("Leagues=L", "L.League", None, None);
    assert_eq!(
        p,
        vec![
            pair("action", "cargoquery"),
            pair("tables", "Leagues=L"),
            pair("fields", "L.League"),
            pair("limit", "500"),
        ]
    );
    assert!(p.iter().all(|(k, _)| k != "where" && k != "join_on"));
}

#[test]
fn where_adds_exactly_one_pair() {
    let p = build_params("Leagues=L", "L.League", Some("L.Level=Primary"), None);
    assert_eq!(p.len(), 5);
    assert_eq!(p[4], pair("where", "L.Level=Primary"));
    assert_eq!(p.iter().filter(|(k, _)| k == "where").count(), 1);
    assert!(p.iter().all(|(k, _)| k != "join_on"));
}

#[test]
fn join_on_adds_exactly_one_pair() {
    let p = build_params("Leagues=L, Tournaments=T", "T.Name", None, Some("L.League=T.League"));
    assert_eq!(p.len(), 5);
    assert_eq!(p[4], pair("join_on", "L.League=T.League"));
    assert_eq!(p.iter().filter(|(k, _)| k == "join_on").count(), 1);
    assert!(p.iter().all(|(k, _)| k != "where"));
}

#[test]
fn both_options_add_both_pairs() {
    let p = build_params(
        "Leagues=L, Tournaments=T",
        "T.Name",
        Some("T.Year=2023"),
        Some("L.League=T.League"),
    );
    assert_eq!(p.len(), 6);
    assert_eq!(p[4], pair("where", "T.Year=2023"));
    assert_eq!(p[5], pair("join_on", "L.League=T.League"));
    assert_eq!(p.iter().filter(|(k, _)| k == "where").count(), 1);
    assert_eq!(p.iter().filter(|(k, _)| k == "join_on").count(), 1);
}

#[test]
fn required_pairs_do_not_depend_on_options() {
    let bare = build_params("T=T", "T.A", None, None);
    let full = build_params("T=T", "T.A", Some("w"), Some("j"));
    assert_eq!(&full[..4], &bare[..]);
}
