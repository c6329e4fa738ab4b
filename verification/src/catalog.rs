//! The named query catalog: a fixed registry of table/field/join
//! combinations against the known remote schema.
//!
//! Each entry is data, not logic: it binds the query builder to one table
//! expression, one field list and, for the joined schemas, one join
//! condition.  A caller picks an entry, supplies at most a filter, and gets
//! the canonical parameters of that query.

use vstd::prelude::*;

use crate::query::{build_params, opt_view, params_view, spec_params, Params};

verus! {

/// The known table/field combinations of the remote schema.
#[derive(Debug, Clone, Copy, PartialEq, Eq, Structural)]
pub enum CatalogEntry {
    Leagues,
    Tournaments,
    ScoreboardGames,
    ScoreboardPlayers,
    TournamentRosters,
    PlayerRedirects,
    Teams,
    TournamentResults,
}

impl CatalogEntry {
    /// The table expression of this entry.
    pub open spec fn spec_tables(self) -> Seq<char> {
        match self {
            CatalogEntry::Leagues => "Leagues=L"@,
            CatalogEntry::Tournaments => "Leagues=L, Tournaments=T"@,
            CatalogEntry::ScoreboardGames => "Tournaments=T, ScoreboardGames=SG"@,
            CatalogEntry::ScoreboardPlayers => "Tournaments=T, ScoreboardPlayers=SP"@,
            CatalogEntry::TournamentRosters => "Tournaments=T, TournamentRosters=TR"@,
            CatalogEntry::PlayerRedirects => "PlayerRedirects=PR"@,
            CatalogEntry::Teams => "Teams=T"@,
            CatalogEntry::TournamentResults => "TournamentResults=TR"@,
        }
    }

    /// The projected field list of this entry.
    pub open spec fn spec_fields(self) -> Seq<char> {
        match self {
            CatalogEntry::Leagues => "L.League, L.League_Short, L.Region, L.Level, L.IsOfficial"@,
            CatalogEntry::Tournaments => "T.Name, T.OverviewPage, T.DateStart, T.Date, T.League, T.Region, T.EventType, T.StandardName, T.Split, T.SplitNumber, T.TournamentLevel, T.IsQualifier, T.IsPlayoffs, T.IsOfficial, T.Year"@,
            CatalogEntry::ScoreboardGames => "SG.OverviewPage, SG.Team1, SG.Team2, SG.WinTeam, SG.LossTeam, SG.DateTime_UTC, SG.Team1Score, SG.Team2Score, SG.Winner, SG.Gamelength, SG.Gamelength_Number, SG.Team1Bans, SG.Team2Bans, SG.Team1Picks, SG.Team2Picks, SG.Team1Players, SG.Team2Players, SG.Team1Dragons, SG.Team2Dragons, SG.Team1Barons, SG.Team2Barons, 'SG.Team1Towers, SG.Team2Towers, SG.Team1Gold, SG.Team2Gold, SG.Team1Kills, SG.Team2Kills, SG.Team1RiftHeralds, SG.Team2RiftHeralds, SG.Team1Inhibitors, SG.Team2Inhibitors, SG.Patch, SG.GameId, SG.MatchId, SG.RiotGameId"@,
            CatalogEntry::ScoreboardPlayers => "SP.OverviewPage, SP.Name, SP.Link, SP.Champion, SP.Kills, SP.Deaths, SP.Assists, SP.SummonerSpells, SP.Gold, SP.CS, SP.DamageToChampions, SP.VisionScore, SP.Items, SP.Trinket, SP.KeystoneMastery, SP.KeystoneRune, SP.PrimaryTree, SP.SecondaryTree, SP.Runes, SP.TeamKills, SP.TeamGold, SP.Team, SP.TeamVs, SP.Time, SP.PlayerWin, SP.DateTime_UTC, SP.DST, SP.Tournament, SP.Role, SP.Role_Number, SP.IngameRole, SP.Side, SP.UniqueLine, SP.UniqueLineVs, SP.UniqueRole, SP.UniqueRoleVs, SP.GameId, SP.MatchId, SP.GameTeamId, SP.GameRoleId, SP.GameRoleIdVs, SP.StatsPage"@,
            CatalogEntry::TournamentRosters => "TR.Team, TR.OverviewPage, TR.Region, TR.RosterLinks, TR.Roles, TR.Flags, TR.Footnotes, TR.IsUsed, TR.Tournament, TR.Short, TR.IsComplete, TR.PageAndTeam, TR.UniqueLine"@,
            CatalogEntry::PlayerRedirects => "PR.AllName, PR.OverviewPage, PR.ID"@,
            CatalogEntry::Teams => "T.Name, T.OverviewPage, T.Short, T.Location, T.TeamLocation, T.Region, T.OrganizationPage, T.Image, T.Twitter, T.Youtube, T.Facebook, T.Instagram, T.Discord, T.Snapchat, T.Vk, T.Subreddit, T.Website, T.RosterPhoto, T.IsDisbanded, T.RenamedTo, T.IsLowercase"@,
            CatalogEntry::TournamentResults => "TR.Event, TR.Tier, TR.Date, TR.RosterPage, TR.Place, TR.ForceNewPlace, TR.Place_Number, TR.Qualified, TR.Prize, TR.Prize_USD, TR.Prize_Euro, TR.PrizeUnit, TR.Prize_Markup, TR.PrizeOther, TR.Phase, TR.Team, TR.IsAchievement, TR.LastResult, TR.LastTeam, TR.LastOpponent_Markup, TR.GroupName, TR.LastOutcome, TR.PageAndTeam, TR.OverviewPage, TR.UniqueLine"@,
        }
    }

    /// The join condition of this entry, for the joined schemas.
    pub open spec fn spec_join(self) -> Option<Seq<char>> {
        match self {
            CatalogEntry::Leagues => None,
            CatalogEntry::Tournaments => Some("L.League=T.League"@),
            CatalogEntry::ScoreboardGames => Some("T.OverviewPage=SG.OverviewPage"@),
            CatalogEntry::ScoreboardPlayers => Some("T.OverviewPage=SP.OverviewPage"@),
            CatalogEntry::TournamentRosters => Some("T.OverviewPage=TR.OverviewPage"@),
            CatalogEntry::PlayerRedirects => None,
            CatalogEntry::Teams => None,
            CatalogEntry::TournamentResults => None,
        }
    }

    /// The table expression of this entry.
    pub fn tables(self) -> (r: &'static str)
        ensures
            r@ == self.spec_tables(),
    {
        match self {
            CatalogEntry::Leagues => "Leagues=L",
            CatalogEntry::Tournaments => "Leagues=L, Tournaments=T",
            CatalogEntry::ScoreboardGames => "Tournaments=T, ScoreboardGames=SG",
            CatalogEntry::ScoreboardPlayers => "Tournaments=T, ScoreboardPlayers=SP",
            CatalogEntry::TournamentRosters => "Tournaments=T, TournamentRosters=TR",
            CatalogEntry::PlayerRedirects => "PlayerRedirects=PR",
            CatalogEntry::Teams => "Teams=T",
            CatalogEntry::TournamentResults => "TournamentResults=TR",
        }
    }

    /// The projected field list of this entry.
    pub fn fields(self) -> (r: &'static str)
        ensures
            r@ == self.spec_fields(),
    {
        match self {
            CatalogEntry::Leagues => "L.League, L.League_Short, L.Region, L.Level, L.IsOfficial",
            CatalogEntry::Tournaments => "T.Name, T.OverviewPage, T.DateStart, T.Date, T.League, T.Region, T.EventType, T.StandardName, T.Split, T.SplitNumber, T.TournamentLevel, T.IsQualifier, T.IsPlayoffs, T.IsOfficial, T.Year",
            CatalogEntry::ScoreboardGames => "SG.OverviewPage, SG.Team1, SG.Team2, SG.WinTeam, SG.LossTeam, SG.DateTime_UTC, SG.Team1Score, SG.Team2Score, SG.Winner, SG.Gamelength, SG.Gamelength_Number, SG.Team1Bans, SG.Team2Bans, SG.Team1Picks, SG.Team2Picks, SG.Team1Players, SG.Team2Players, SG.Team1Dragons, SG.Team2Dragons, SG.Team1Barons, SG.Team2Barons, 'SG.Team1Towers, SG.Team2Towers, SG.Team1Gold, SG.Team2Gold, SG.Team1Kills, SG.Team2Kills, SG.Team1RiftHeralds, SG.Team2RiftHeralds, SG.Team1Inhibitors, SG.Team2Inhibitors, SG.Patch, SG.GameId, SG.MatchId, SG.RiotGameId",
            CatalogEntry::ScoreboardPlayers => "SP.OverviewPage, SP.Name, SP.Link, SP.Champion, SP.Kills, SP.Deaths, SP.Assists, SP.SummonerSpells, SP.Gold, SP.CS, SP.DamageToChampions, SP.VisionScore, SP.Items, SP.Trinket, SP.KeystoneMastery, SP.KeystoneRune, SP.PrimaryTree, SP.SecondaryTree, SP.Runes, SP.TeamKills, SP.TeamGold, SP.Team, SP.TeamVs, SP.Time, SP.PlayerWin, SP.DateTime_UTC, SP.DST, SP.Tournament, SP.Role, SP.Role_Number, SP.IngameRole, SP.Side, SP.UniqueLine, SP.UniqueLineVs, SP.UniqueRole, SP.UniqueRoleVs, SP.GameId, SP.MatchId, SP.GameTeamId, SP.GameRoleId, SP.GameRoleIdVs, SP.StatsPage",
            CatalogEntry::TournamentRosters => "TR.Team, TR.OverviewPage, TR.Region, TR.RosterLinks, TR.Roles, TR.Flags, TR.Footnotes, TR.IsUsed, TR.Tournament, TR.Short, TR.IsComplete, TR.PageAndTeam, TR.UniqueLine",
            CatalogEntry::PlayerRedirects => "PR.AllName, PR.OverviewPage, PR.ID",
            CatalogEntry::Teams => "T.Name, T.OverviewPage, T.Short, T.Location, T.TeamLocation, T.Region, T.OrganizationPage, T.Image, T.Twitter, T.Youtube, T.Facebook, T.Instagram, T.Discord, T.Snapchat, T.Vk, T.Subreddit, T.Website, T.RosterPhoto, T.IsDisbanded, T.RenamedTo, T.IsLowercase",
            CatalogEntry::TournamentResults => "TR.Event, TR.Tier, TR.Date, TR.RosterPage, TR.Place, TR.ForceNewPlace, TR.Place_Number, TR.Qualified, TR.Prize, TR.Prize_USD, TR.Prize_Euro, TR.PrizeUnit, TR.Prize_Markup, TR.PrizeOther, TR.Phase, TR.Team, TR.IsAchievement, TR.LastResult, TR.LastTeam, TR.LastOpponent_Markup, TR.GroupName, TR.LastOutcome, TR.PageAndTeam, TR.OverviewPage, TR.UniqueLine",
        }
    }

    /// The join condition of this entry, for the joined schemas.
    pub fn join_on(self) -> (r: Option<&'static str>)
        ensures
            opt_view(r) == self.spec_join(),
    {
        match self {
            CatalogEntry::Leagues => None,
            CatalogEntry::Tournaments => Some("L.League=T.League"),
            CatalogEntry::ScoreboardGames => Some("T.OverviewPage=SG.OverviewPage"),
            CatalogEntry::ScoreboardPlayers => Some("T.OverviewPage=SP.OverviewPage"),
            CatalogEntry::TournamentRosters => Some("T.OverviewPage=TR.OverviewPage"),
            CatalogEntry::PlayerRedirects => None,
            CatalogEntry::Teams => None,
            CatalogEntry::TournamentResults => None,
        }
    }
}

/// The wire-level parameters of one catalog entry with an optional filter:
/// exactly the canonical parameters for the entry's tables, fields and join
/// condition.
pub fn catalog_params(entry: CatalogEntry, where_condition: Option<&str>) -> (r: Params)
    ensures
        params_view(r) == spec_params(
            entry.spec_tables(),
            entry.spec_fields(),
            opt_view(where_condition),
            entry.spec_join(),
        ),
{
    build_params(entry.tables(), entry.fields(), where_condition, entry.join_on())
}

/// Law: the leagues entry with a filter queries exactly
/// `action=cargoquery`, its table alias, its five fields, `limit=500` and
/// the given filter, with no join condition.
pub proof fn lemma_leagues_params(w: Seq<char>)
    ensures
        ({
            let p = spec_params(
                CatalogEntry::Leagues.spec_tables(),
                CatalogEntry::Leagues.spec_fields(),
                Some(w),
                CatalogEntry::Leagues.spec_join(),
            );
            &&& p.len() == 5
            &&& p[0] == ("action"@, "cargoquery"@)
            &&& p[1] == ("tables"@, "Leagues=L"@)
            &&& p[2] == ("fields"@, "L.League, L.League_Short, L.Region, L.Level, L.IsOfficial"@)
            &&& p[3] == ("limit"@, "500"@)
            &&& p[4] == ("where"@, w)
            &&& forall|i: int| 0 <= i < p.len() ==> (#[trigger] p[i].0) != "join_on"@
        }),
{
    crate::query::lemma_params_options(
        CatalogEntry::Leagues.spec_tables(),
        CatalogEntry::Leagues.spec_fields(),
        w,
        "L.League=T.League"@,
    );
}

/// Law: the tournaments entry joins the leagues and tournaments tables and
/// always carries the join condition `L.League=T.League` as its last
/// parameter.
pub proof fn lemma_tournaments_params(where_condition: Option<Seq<char>>)
    ensures
        ({
            let p = spec_params(
                CatalogEntry::Tournaments.spec_tables(),
                CatalogEntry::Tournaments.spec_fields(),
                where_condition,
                CatalogEntry::Tournaments.spec_join(),
            );
            &&& p.len() == if where_condition is Some { 6int } else { 5int }
            &&& p[1] == ("tables"@, "Leagues=L, Tournaments=T"@)
            &&& p[p.len() - 1] == ("join_on"@, "L.League=T.League"@)
        }),
{
}

} // verus!
