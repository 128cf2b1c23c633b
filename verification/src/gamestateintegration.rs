//! Snapshot types for the game-state reports pushed by the game client.
//!
//! One [`Payload`] is one partial report: any sub-report may be absent, and an
//! absent sub-report leaves the corresponding tracker state untouched. The
//! detector interprets only the provider identity, the map phase, the round
//! phase and the player identity/health/armor/kills/deaths; the remaining
//! fields are carried but not read.

use vstd::prelude::*;

use crate::PlayerState as TrackedPlayerState;

verus! {

/// Map sub-report: mode and name are carried but not interpreted.
#[derive(Debug, Clone)]
pub struct MapReport {
    pub mode: String,
    pub name: String,
    pub phase: MapPhase,
}

/// Phase of the match as a whole, as reported by the game client.
#[derive(Debug, Clone, Copy, PartialEq, Eq, Structural)]
pub enum MapPhase {
    Warmup,
    Intermission,
    GameOver,
    Live,
    Unknown,
}

/// Round sub-report.
#[derive(Debug, Clone)]
pub struct Round {
    pub phase: RoundPhase,
}

/// Phase of the current round, as reported by the game client.
#[derive(Debug, Clone, Copy, PartialEq, Eq, Structural)]
pub enum RoundPhase {
    Freezetime,
    Live,
    Over,
    Unknown,
}

/// Live statistics of the reported player; only health and armor are
/// interpreted by the detector.
#[derive(Debug, Clone, Copy)]
pub struct PlayerState {
    pub health: i32,
    pub armor: i32,
    pub helmet: bool,
    pub flashed: i32,
    pub smoked: i32,
    pub burning: i32,
    pub money: i32,
    pub round_kills: i32,
    pub round_killhs: i32,
    pub equip_value: i32,
}

/// Whole-match totals of the reported player; only kills and deaths are
/// interpreted by the detector.
#[derive(Debug, Clone, Copy)]
pub struct PlayerMatchStats {
    pub kills: i32,
    pub assists: i32,
    pub deaths: i32,
    pub mvps: i32,
    pub score: i32,
}

/// Player sub-report: identity plus live and whole-match statistics.
#[derive(Debug, Clone)]
pub struct Player {
    pub steamid: String,
    pub name: String,
    pub state: PlayerState,
    pub match_stats: PlayerMatchStats,
}

/// Provider sub-report: names the identity the tracker is to monitor.
#[derive(Debug, Clone)]
pub struct Provider {
    pub name: String,
    pub appid: i32,
    pub version: i32,
    pub steamid: String,
    pub timestamp: i32,
}

/// One inbound snapshot: four independent, optional sub-reports.
#[derive(Debug, Clone)]
pub struct Payload {
    pub provider: Option<Provider>,
    pub map: Option<MapReport>,
    pub round: Option<Round>,
    pub player: Option<Player>,
}

/// The part of a player sub-report that the detector reads.
pub struct PlayerReportModel {
    pub steamid: Seq<char>,
    pub state: TrackedPlayerState,
}

/// Mathematical view of a snapshot: exactly the fields the detector interprets.
#[verifier::ext_equal]
pub struct PayloadModel {
    pub provider: Option<Seq<char>>,
    pub map: Option<MapPhase>,
    pub round: Option<RoundPhase>,
    pub player: Option<PlayerReportModel>,
}

impl View for Payload {
    type V = PayloadModel;

    open spec fn view(&self) -> PayloadModel {
        PayloadModel {
            provider: match self.provider {
                Some(pr) => Some(pr.steamid@),
                None => None,
            },
            map: match self.map {
                Some(m) => Some(m.phase),
                None => None,
            },
            round: match self.round {
                Some(r) => Some(r.phase),
                None => None,
            },
            player: match self.player {
                Some(pl) => Some(
                    PlayerReportModel {
                        steamid: pl.steamid@,
                        state: TrackedPlayerState {
                            health: pl.state.health,
                            armor: pl.state.armor,
                            kills: pl.match_stats.kills,
                            deaths: pl.match_stats.deaths,
                        },
                    },
                ),
                None => None,
            },
        }
    }
}

impl PayloadModel {
    /// A snapshot is well formed when any player sub-report carries the field
    /// ranges the data model gives: health within 0..=100 and non-negative
    /// armor, kills and deaths.
    pub open spec fn wf(self) -> bool {
        self.player matches Some(pl) ==> pl.state.wf()
    }
}

impl Payload {
    /// Runtime check matching [`PayloadModel::wf`], for callers outside the
    /// verified library.
    pub fn is_well_formed(&self) -> (b: bool)
        ensures
            b == self@.wf(),
    {
        match &self.player {
            Some(pl) => {
                0 <= pl.state.health && pl.state.health <= 100 && pl.state.armor >= 0
                    && pl.match_stats.kills >= 0 && pl.match_stats.deaths >= 0
            },
            None => true,
        }
    }
}

} // verus!
