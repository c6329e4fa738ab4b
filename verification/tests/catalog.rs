//! Tests of the named query catalog: each entry yields the canonical
//! parameters for its fixed schema.

use lolesports::catalog::{catalog_params, CatalogEntry};

fn pair(k: &str, v: &str) -> (String, String) {
    (k.to_string(), v.to_string())
}

#[test]
fn leagues_with_filter_builds_the_documented_request() {
    let p = catalog_params(CatalogEntry::Leagues, Some("L.Level=Primary"));
    assert_eq!(
        p,
        vec![
            pair("action", "cargoquery"),
            pair("tables", "Leagues=L"),
            pair("fields", "L.League, L.League_Short, L.Region, L.Level, L.IsOfficial"),
            pair("limit", "500"),
            pair("where", "L.Level=Primary"),
        ]
    );
    assert!(p.iter().all(|(k, _)| k != "join_on"));
}

#[test]
fn tournaments_joins_leagues() {
    let p = catalog_params(CatalogEntry::Tournaments, None);
    assert_eq!(p[1], pair("tables", "Leagues=L, Tournaments=T"));
    assert_eq!(p.last().unwrap(), &pair("join_on", "L.League=T.League"));
    assert_eq!(p.iter().filter(|(k, _)| k == "join_on").count(), 1);
}

#[test]
fn scoreboard_games_joins_tournaments() {
    let p = catalog_params(CatalogEntry::ScoreboardGames, Some("T.Year=2023"));
    assert_eq!(p[1], pair("tables", "Tournaments=T, ScoreboardGames=SG"));
    assert_eq!(p[4], pair("where", "T.Year=2023"));
    assert_eq!(p.last().unwrap(), &pair("join_on", "T.OverviewPage=SG.OverviewPage"));
}

#[test]
fn scoreboard_players_joins_tournaments() {
    let p = catalog_params(CatalogEntry::ScoreboardPlayers, None);
    assert_eq!(p[1], pair("tables", "Tournaments=T, ScoreboardPlayers=SP"));
    assert_eq!(p.last().unwrap(), &pair("join_on", "T.OverviewPage=SP.OverviewPage"));
}

#[test]
fn tournament_rosters_joins_tournaments() {
    let p = catalog_params(CatalogEntry::TournamentRosters, None);
    assert_eq!(p[1], pair("tables", "Tournaments=T, TournamentRosters=TR"));
    assert_eq!(p.last().unwrap(), &pair("join_on", "T.OverviewPage=TR.OverviewPage"));
}

#[test]
fn unjoined_entries_have_no_join_condition() {
    for entry in [
        CatalogEntry::PlayerRedirects,
        CatalogEntry::Teams,
        CatalogEntry::TournamentResults,
    ] {
        let p = catalog_params(entry, None);
        assert_eq!(p.len(), 4);
        assert!(p.iter().all(|(k, _)| k != "join_on" && k != "where"));
    }
}

#[test]
fn player_redirects_fields() {
    let p = catalog_params(CatalogEntry::PlayerRedirects, None);
    assert_eq!(p[1], pair("tables", "PlayerRedirects=PR"));
    assert_eq!(p[2], pair("fields", "PR.AllName, PR.OverviewPage, PR.ID"));
}

#[test]
fn teams_table_alias() {
    let p = catalog_params(CatalogEntry::Teams, Some("T.Region=Korea"));
    assert_eq!(p[1], pair("tables", "Teams=T"));
    assert_eq!(p[4], pair("where", "T.Region=Korea"));
}

#[test]
fn tournament_results_table_alias() {
    let p = catalog_params(CatalogEntry::TournamentResults, None);
    assert_eq!(p[1], pair("tables", "TournamentResults=TR"));
}
