//! Match-state tracker and actuation policy for game-client state reports.
//!
//! The game client pushes periodic, partial snapshots of the running match.
//! This library merges each snapshot into a durable [`GameState`], detects the
//! edge-triggered transitions that matter (match start, round start, damage
//! survived, death), and computes the device command each transition calls
//! for. Transport of snapshots and of commands stays outside the library.

use vstd::prelude::*;

pub mod config;
pub mod gamestateintegration;
pub mod pishock;
pub mod policy;
pub mod tracker;

use crate::gamestateintegration::{MapPhase, RoundPhase};

verus! {

/// Live statistics retained for the tracked player between snapshots.
#[derive(Debug, Clone, Copy, PartialEq, Eq, Structural)]
pub struct PlayerState {
    pub health: i32,
    pub armor: i32,
    pub kills: i32,
    pub deaths: i32,
}

impl PlayerState {
    /// Field ranges of the data model: health within 0..=100, the counters
    /// non-negative.
    pub open spec fn wf(self) -> bool {
        &&& 0 <= self.health <= 100
        &&& self.armor >= 0
        &&& self.kills >= 0
        &&& self.deaths >= 0
    }
}

/// Durable view of the running match, owned by the tracker and mutated only
/// by [`tracker::apply_snapshot`].
#[derive(Debug, Clone)]
pub struct GameState {
    pub round_phase: RoundPhase,
    pub map_phase: MapPhase,
    pub steam_id: String,
    pub player_state: Option<PlayerState>,
}

/// Mathematical view of the tracker state, used by the contracts.
#[verifier::ext_equal]
pub struct StateModel {
    pub round_phase: RoundPhase,
    pub map_phase: MapPhase,
    pub steam_id: Seq<char>,
    pub player_state: Option<PlayerState>,
}

impl StateModel {
    /// Any retained player record keeps the field ranges of the data model.
    pub open spec fn wf(self) -> bool {
        self.player_state matches Some(ps) ==> ps.wf()
    }
}

impl View for GameState {
    type V = StateModel;

    open spec fn view(&self) -> StateModel {
        StateModel {
            round_phase: self.round_phase,
            map_phase: self.map_phase,
            steam_id: self.steam_id@,
            player_state: self.player_state,
        }
    }
}

impl Default for GameState {
    /// The tracker starts with both phases unknown, no tracked identity and
    /// no player record.
    fn default() -> (s: Self)
        ensures
            s@.round_phase is Unknown,
            s@.map_phase is Unknown,
            s@.steam_id == Seq::<char>::empty(),
            s@.player_state is None,
            s@.wf(),
    {
        GameState {
            round_phase: RoundPhase::Unknown,
            map_phase: MapPhase::Unknown,
            steam_id: String::new(),
            player_state: None,
        }
    }
}

impl GameState {
    /// Forget everything the tracker learned about the current match except
    /// the tracked identity, which the provider sub-report owns.
    pub fn reset(&mut self)
        ensures
            final(self)@.round_phase is Unknown,
            final(self)@.map_phase is Unknown,
            final(self)@.player_state is None,
            final(self)@.steam_id == old(self)@.steam_id,
    {
        self.round_phase = RoundPhase::Unknown;
        self.map_phase = MapPhase::Unknown;
        self.player_state = None;
    }
}

} // verus!
