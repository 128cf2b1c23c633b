//! The transition detector: merges one partial snapshot into the tracker
//! state and reports the edge-triggered transitions the merge revealed.
//!
//! Detection for a call is evaluated entirely against the state *before* the
//! call's own field updates, in a fixed order: identity update, match start
//! (with its reset), map phase update, round start, round phase update, then
//! the player rules behind the Live gate and the identity gate. The spec
//! functions below mirror those rules one for one and the contract of
//! [`apply_snapshot`] ties the executable merge to them exactly.

use vstd::prelude::*;

use crate::gamestateintegration::{MapPhase, Payload, PayloadModel, RoundPhase};
use crate::{GameState, PlayerState, StateModel};

verus! {

/// A detected, edge-triggered event, derived by comparing the state before
/// the snapshot with the snapshot's content.
#[derive(Debug, Clone, Copy, PartialEq, Eq, Structural)]
pub enum Transition {
    MatchStarted,
    RoundStarted,
    DamageSurvived { delta: i32 },
    Death { old_health: i32 },
}

impl Transition {
    /// Ranges every transition reported by the detector keeps: a damage delta
    /// is positive and at most 100, a health at death lies within 0..=100.
    pub open spec fn valid(self) -> bool {
        match self {
            Transition::MatchStarted => true,
            Transition::RoundStarted => true,
            Transition::DamageSurvived { delta } => 0 < delta <= 100,
            Transition::Death { old_health } => 0 <= old_health <= 100,
        }
    }
}

/// The identity the player rules compare against: the provider sub-report,
/// when present, overwrites the tracked identity before anything else.
pub open spec fn tracked_id_after(s: StateModel, p: PayloadModel) -> Seq<char> {
    match p.provider {
        Some(id) => id,
        None => s.steam_id,
    }
}

/// Match start fires exactly on a map report taking the phase from Warmup to
/// Live.
pub open spec fn match_start_fires(s: StateModel, p: PayloadModel) -> bool {
    &&& p.map matches Some(phase)
    &&& s.map_phase is Warmup
    &&& phase is Live
}

/// The map phase after the call: the report's phase when one is present.
pub open spec fn map_phase_after(s: StateModel, p: PayloadModel) -> MapPhase {
    match p.map {
        Some(phase) => phase,
        None => s.map_phase,
    }
}

/// The round phase the round-start rule reads: the match-start reset, when it
/// fires, has already discarded the old phase.
pub open spec fn round_phase_seen(s: StateModel, p: PayloadModel) -> RoundPhase {
    if match_start_fires(s, p) {
        RoundPhase::Unknown
    } else {
        s.round_phase
    }
}

/// Round start fires exactly on a round report taking the phase from
/// Freezetime to Live, judged on the phase before this call's update.
pub open spec fn round_start_fires(s: StateModel, p: PayloadModel) -> bool {
    &&& p.round matches Some(phase)
    &&& round_phase_seen(s, p) is Freezetime
    &&& phase is Live
}

/// The round phase after the call.
pub open spec fn round_phase_after(s: StateModel, p: PayloadModel) -> RoundPhase {
    match p.round {
        Some(phase) => phase,
        None => round_phase_seen(s, p),
    }
}

/// The player record the player rules read: the match-start reset, when it
/// fires, has already discarded the old record.
pub open spec fn player_state_seen(s: StateModel, p: PayloadModel) -> Option<PlayerState> {
    if match_start_fires(s, p) {
        None
    } else {
        s.player_state
    }
}

/// The player sub-report takes effect only while the map phase (after this
/// call's update) is Live and the report is about the tracked identity.
pub open spec fn player_merge_applies(s: StateModel, p: PayloadModel) -> bool {
    &&& map_phase_after(s, p) is Live
    &&& p.player matches Some(pl)
    &&& pl.steamid == tracked_id_after(s, p)
}

/// Damage survived fires exactly when a merged report strictly lowers the
/// health of an already-observed player to a value still above zero.
pub open spec fn damage_survived_fires(s: StateModel, p: PayloadModel) -> bool {
    &&& player_merge_applies(s, p)
    &&& player_state_seen(s, p) matches Some(ps)
    &&& p.player matches Some(pl)
    &&& ps.health > pl.state.health
    &&& pl.state.health > 0
}

/// Death fires exactly when a merged report strictly raises the deaths
/// counter of an already-observed player.
pub open spec fn death_fires(s: StateModel, p: PayloadModel) -> bool {
    &&& player_merge_applies(s, p)
    &&& player_state_seen(s, p) matches Some(ps)
    &&& p.player matches Some(pl)
    &&& pl.state.deaths > ps.deaths
}

/// Health lost by a surviving player, judged against the pre-merge record.
pub open spec fn damage_delta(s: StateModel, p: PayloadModel) -> int {
    player_state_seen(s, p)->Some_0.health - p.player->Some_0.state.health
}

/// Health the player had before the snapshot that reported the death.
pub open spec fn death_old_health(s: StateModel, p: PayloadModel) -> int {
    player_state_seen(s, p)->Some_0.health as int
}

/// The player record after the call: a merged report overwrites (or first
/// fills) the record with its own values; otherwise the record is left as
/// the match-start rule left it.
pub open spec fn player_state_after(s: StateModel, p: PayloadModel) -> Option<PlayerState> {
    if player_merge_applies(s, p) {
        Some(p.player->Some_0.state)
    } else {
        player_state_seen(s, p)
    }
}

/// The whole state after the call.
pub open spec fn state_after(s: StateModel, p: PayloadModel) -> StateModel {
    StateModel {
        round_phase: round_phase_after(s, p),
        map_phase: map_phase_after(s, p),
        steam_id: tracked_id_after(s, p),
        player_state: player_state_after(s, p),
    }
}

/// The transitions one call reports, in evaluation order: match start, round
/// start, damage survived, death. Each fires at most once per call.
pub open spec fn transitions_of(s: StateModel, p: PayloadModel) -> Seq<Transition> {
    (if match_start_fires(s, p) {
        seq![Transition::MatchStarted]
    } else {
        Seq::<Transition>::empty()
    }) + (if round_start_fires(s, p) {
        seq![Transition::RoundStarted]
    } else {
        Seq::<Transition>::empty()
    }) + (if damage_survived_fires(s, p) {
        seq![Transition::DamageSurvived { delta: damage_delta(s, p) as i32 }]
    } else {
        Seq::<Transition>::empty()
    }) + (if death_fires(s, p) {
        seq![Transition::Death { old_health: death_old_health(s, p) as i32 }]
    } else {
        Seq::<Transition>::empty()
    })
}

/// Merge one snapshot into the tracker state and report the transitions the
/// merge revealed, in evaluation order. Absent sub-reports leave their state
/// untouched; this call never fails.
pub fn apply_snapshot(state: &mut GameState, payload: &Payload) -> (transitions: Vec<Transition>)
    requires
        old(state)@.wf(),
        payload@.wf(),
    ensures
        final(state)@ == state_after(old(state)@, payload@),
        transitions@ == transitions_of(old(state)@, payload@),
        final(state)@.wf(),
        forall|i: int|
            0 <= i < transitions@.len() ==> (#[trigger] transitions@[i]).valid(),
{
    let mut transitions: Vec<Transition> = Vec::new();

    if let Some(provider) = &payload.provider {
        state.steam_id = provider.steamid.clone();
    }

    if let Some(map) = &payload.map {
        if state.map_phase == MapPhase::Warmup && map.phase == MapPhase::Live {
            transitions.push(Transition::MatchStarted);
            state.reset();
        }
        state.map_phase = map.phase;
    }

    if let Some(round) = &payload.round {
        if state.round_phase == RoundPhase::Freezetime && round.phase == RoundPhase::Live {
            transitions.push(Transition::RoundStarted);
        }
        state.round_phase = round.phase;
    }

    if !(state.map_phase == MapPhase::Live) {
        return transitions;
    }

    if let Some(player) = &payload.player {
        if !(player.steamid == state.steam_id) {
            return transitions;
        }

        if let Some(ps) = &state.player_state {
            if ps.health > player.state.health && player.state.health > 0 {
                transitions.push(
                    Transition::DamageSurvived { delta: ps.health - player.state.health },
                );
            }

            if player.match_stats.deaths > ps.deaths {
                transitions.push(Transition::Death { old_health: ps.health });
            }
        }

        state.player_state = Some(
            PlayerState {
                health: player.state.health,
                armor: player.state.armor,
                kills: player.match_stats.kills,
                deaths: player.match_stats.deaths,
            },
        );
    }

    transitions
}

/// The state after a whole sequence of snapshots, merged in arrival order.
pub open spec fn state_after_seq(s: StateModel, ps: Seq<PayloadModel>) -> StateModel
    decreases ps.len(),
{
    if ps.len() == 0 {
        s
    } else {
        state_after_seq(state_after(s, ps[0]), ps.drop_first())
    }
}

/// An absent player record flips to present in one merge exactly when that
/// merge carries a player sub-report about the tracked identity while the map
/// phase is Live.
pub proof fn lemma_player_state_absent_step(s: StateModel, p: PayloadModel)
    requires
        s.player_state is None,
    ensures
        state_after(s, p).player_state is Some <==> player_merge_applies(s, p),
{
}

/// Over any sequence of snapshots, the player record stays absent until the
/// first snapshot whose player sub-report matches the then-tracked identity
/// and is merged while the map phase is Live.
pub proof fn lemma_player_absent_until_merge(s: StateModel, ps: Seq<PayloadModel>)
    requires
        s.player_state is None,
        state_after_seq(s, ps).player_state is Some,
    ensures
        exists|i: int|
            0 <= i < ps.len() && player_merge_applies(state_after_seq(s, ps.take(i)), ps[i]),
    decreases ps.len(),
{
    let s1 = state_after(s, ps[0]);
    if player_merge_applies(s, ps[0]) {
        assert(ps.take(0) =~= Seq::<PayloadModel>::empty());
        assert(player_merge_applies(state_after_seq(s, ps.take(0)), ps[0]));
    } else {
        lemma_player_absent_until_merge(s1, ps.drop_first());
        let j = choose|j: int|
            0 <= j < ps.drop_first().len() && player_merge_applies(
                state_after_seq(s1, ps.drop_first().take(j)),
                ps.drop_first()[j],
            );
        assert(ps.drop_first().take(j) =~= ps.take(j + 1).drop_first());
        assert(ps.take(j + 1)[0] == ps[0]);
        assert(state_after_seq(s, ps.take(j + 1)) == state_after_seq(s1, ps.drop_first().take(j)));
        assert(player_merge_applies(state_after_seq(s, ps.take(j + 1)), ps[j + 1]));
    }
}

/// A map report taking the phase from Warmup to Live reports match start
/// first and exactly once, and the reset it triggers discards the round phase
/// and the player record before any later rule of the same call runs,
/// whatever else the snapshot carries.
pub proof fn lemma_match_start(s: StateModel, p: PayloadModel)
    requires
        match_start_fires(s, p),
    ensures
        transitions_of(s, p)[0] == Transition::MatchStarted,
        forall|i: int|
            1 <= i < transitions_of(s, p).len() ==> transitions_of(s, p)[i]
                != Transition::MatchStarted,
        round_phase_seen(s, p) is Unknown,
        player_state_seen(s, p) is None,
        !damage_survived_fires(s, p),
        !death_fires(s, p),
        state_after(s, p).map_phase is Live,
        p.round is None ==> state_after(s, p).round_phase is Unknown,
        !player_merge_applies(s, p) ==> state_after(s, p).player_state is None,
{
}

/// Without a Warmup-to-Live map report, no call reports a match start.
pub proof fn lemma_no_match_start(s: StateModel, p: PayloadModel)
    requires
        !match_start_fires(s, p),
    ensures
        forall|i: int|
            0 <= i < transitions_of(s, p).len() ==> transitions_of(s, p)[i]
                != Transition::MatchStarted,
{
}

/// A round report taking the pre-call phase from Freezetime to Live reports
/// round start exactly once.
pub proof fn lemma_round_start(s: StateModel, p: PayloadModel)
    requires
        round_start_fires(s, p),
    ensures
        transitions_of(s, p)[if match_start_fires(s, p) {
            1int
        } else {
            0int
        }] == Transition::RoundStarted,
        forall|i: int, j: int|
            0 <= i < transitions_of(s, p).len() && 0 <= j < transitions_of(s, p).len()
                && transitions_of(s, p)[i] == Transition::RoundStarted && transitions_of(s, p)[j]
                == Transition::RoundStarted ==> i == j,
{
}

/// Without a Freezetime-to-Live round report, no call reports a round start.
pub proof fn lemma_no_round_start(s: StateModel, p: PayloadModel)
    requires
        !round_start_fires(s, p),
    ensures
        forall|i: int|
            0 <= i < transitions_of(s, p).len() ==> transitions_of(s, p)[i]
                != Transition::RoundStarted,
{
}

/// Within one call every transition fires at most once: the reported
/// sequence never holds the same transition at two positions.
pub proof fn lemma_each_transition_at_most_once(s: StateModel, p: PayloadModel)
    ensures
        forall|i: int, j: int|
            0 <= i < transitions_of(s, p).len() && 0 <= j < transitions_of(s, p).len()
                && transitions_of(s, p)[i] == transitions_of(s, p)[j] ==> i == j,
{
}

/// Merging the identical snapshot a second time, immediately, reports no
/// transition at all: every transition is edge-triggered, and the first merge
/// consumed every edge the snapshot carried.
pub proof fn lemma_resend_refires_nothing(s: StateModel, p: PayloadModel)
    ensures
        transitions_of(state_after(s, p), p) =~= Seq::<Transition>::empty(),
{
}

/// A player sub-report about an identity other than the tracked one leaves
/// the player record as the map rules left it and fires neither damage
/// survived nor death.
pub proof fn lemma_untracked_player_ignored(s: StateModel, p: PayloadModel)
    requires
        p.player is Some,
        p.player->Some_0.steamid != tracked_id_after(s, p),
    ensures
        state_after(s, p).player_state == player_state_seen(s, p),
        !damage_survived_fires(s, p),
        !death_fires(s, p),
{
}

/// Against an already-observed player record, death fires exactly when the
/// deaths counter strictly increases and damage survived exactly when health
/// strictly decreases to a value above zero, both judged on the pre-merge
/// record of the same call; when they fire, the matching transitions are
/// reported with the pre-merge values.
pub proof fn lemma_player_edges(s: StateModel, p: PayloadModel)
    requires
        player_merge_applies(s, p),
        player_state_seen(s, p) is Some,
    ensures
        death_fires(s, p) <==> p.player->Some_0.state.deaths > player_state_seen(
            s,
            p,
        )->Some_0.deaths,
        damage_survived_fires(s, p) <==> (player_state_seen(s, p)->Some_0.health
            > p.player->Some_0.state.health && p.player->Some_0.state.health > 0),
        death_fires(s, p) ==> transitions_of(s, p).last() == (Transition::Death {
            old_health: death_old_health(s, p) as i32,
        }),
        damage_survived_fires(s, p) ==> transitions_of(s, p).contains(
            Transition::DamageSurvived { delta: damage_delta(s, p) as i32 },
        ),
{
    if damage_survived_fires(s, p) {
        let k: int = (if match_start_fires(s, p) {
            1int
        } else {
            0int
        }) + (if round_start_fires(s, p) {
            1int
        } else {
            0int
        });
        assert(transitions_of(s, p)[k] == (Transition::DamageSurvived {
            delta: damage_delta(s, p) as i32,
        }));
    }
}

} // verus!
