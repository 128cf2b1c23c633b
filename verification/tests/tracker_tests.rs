use cs2_shocker::gamestateintegration::{
    MapPhase, MapReport, Payload, Player, PlayerMatchStats, PlayerState, Provider, Round,
    RoundPhase,
};
use cs2_shocker::tracker::{apply_snapshot, Transition};
use cs2_shocker::GameState;
use cs2_shocker::PlayerState as TrackedPlayerState;

fn empty_payload() -> Payload {
    Payload { provider: None, map: None, round: None, player: None }
}

fn map_report(phase: MapPhase) -> MapReport {
    MapReport { mode: "competitive".to_string(), name: "training_map".to_string(), phase }
}

fn provider(steamid: &str) -> Provider {
    Provider {
        name: "game".to_string(),
        appid: 1,
        version: 1,
        steamid: steamid.to_string(),
        timestamp: 0,
    }
}

fn player(steamid: &str, health: i32, armor: i32, kills: i32, deaths: i32) -> Player {
    Player {
        steamid: steamid.to_string(),
        name: "tracked player".to_string(),
        state: PlayerState {
            health,
            armor,
            helmet: false,
            flashed: 0,
            smoked: 0,
            burning: 0,
            money: 0,
            round_kills: 0,
            round_killhs: 0,
            equip_value: 0,
        },
        match_stats: PlayerMatchStats { kills, assists: 0, deaths, mvps: 0, score: 0 },
    }
}

#[test]
fn match_start_emits_and_resets() {
    let mut state = GameState::default();
    state.map_phase = MapPhase::Warmup;
    state.round_phase = RoundPhase::Freezetime;
    state.player_state = Some(TrackedPlayerState { health: 50, armor: 10, kills: 3, deaths: 2 });

    let mut payload = empty_payload();
    payload.map = Some(map_report(MapPhase::Live));
    let transitions = apply_snapshot(&mut state, &payload);

    assert_eq!(transitions, vec![Transition::MatchStarted]);
    assert_eq!(state.map_phase, MapPhase::Live);
    assert_eq!(state.round_phase, RoundPhase::Unknown);
    assert!(state.player_state.is_none());
}

#[test]
fn match_start_needs_warmup_before() {
    let mut state = GameState::default();
    let mut payload = empty_payload();
    payload.map = Some(map_report(MapPhase::Live));
    let transitions = apply_snapshot(&mut state, &payload);

    assert!(transitions.is_empty());
    assert_eq!(state.map_phase, MapPhase::Live);
}

#[test]
fn round_start_fires_once_and_not_on_resend() {
    let mut state = GameState::default();
    state.round_phase = RoundPhase::Freezetime;

    let mut payload = empty_payload();
    payload.round = Some(Round { phase: RoundPhase::Live });
    let first = apply_snapshot(&mut state, &payload);
    let second = apply_snapshot(&mut state, &payload);

    assert_eq!(first, vec![Transition::RoundStarted]);
    assert!(second.is_empty());
    assert_eq!(state.round_phase, RoundPhase::Live);
}

#[test]
fn round_start_reads_phase_after_match_reset() {
    let mut state = GameState::default();
    state.map_phase = MapPhase::Warmup;
    state.round_phase = RoundPhase::Freezetime;

    let mut payload = empty_payload();
    payload.map = Some(map_report(MapPhase::Live));
    payload.round = Some(Round { phase: RoundPhase::Live });
    let transitions = apply_snapshot(&mut state, &payload);

    assert_eq!(transitions, vec![Transition::MatchStarted]);
    assert_eq!(state.round_phase, RoundPhase::Live);
}

#[test]
fn untracked_player_is_ignored() {
    let mut state = GameState::default();
    state.map_phase = MapPhase::Live;
    state.steam_id = "S1".to_string();

    let mut payload = empty_payload();
    payload.player = Some(player("S2", 10, 0, 0, 5));
    let transitions = apply_snapshot(&mut state, &payload);

    assert!(transitions.is_empty());
    assert!(state.player_state.is_none());
    assert_eq!(state.steam_id, "S1");
}

#[test]
fn player_ignored_while_map_not_live() {
    let mut state = GameState::default();
    state.steam_id = "S1".to_string();

    let mut payload = empty_payload();
    payload.player = Some(player("S1", 100, 0, 0, 0));
    let transitions = apply_snapshot(&mut state, &payload);

    assert!(transitions.is_empty());
    assert!(state.player_state.is_none());
}

#[test]
fn first_observation_emits_nothing() {
    let mut state = GameState::default();
    state.map_phase = MapPhase::Live;
    state.steam_id = "S1".to_string();

    let mut payload = empty_payload();
    payload.player = Some(player("S1", 100, 50, 0, 0));
    let transitions = apply_snapshot(&mut state, &payload);

    assert!(transitions.is_empty());
    assert_eq!(
        state.player_state,
        Some(TrackedPlayerState { health: 100, armor: 50, kills: 0, deaths: 0 })
    );
}

#[test]
fn provider_report_updates_tracked_identity_first() {
    let mut state = GameState::default();
    state.map_phase = MapPhase::Live;
    state.steam_id = "S1".to_string();

    let mut payload = empty_payload();
    payload.provider = Some(provider("S2"));
    payload.player = Some(player("S2", 80, 0, 0, 0));
    let transitions = apply_snapshot(&mut state, &payload);

    assert!(transitions.is_empty());
    assert_eq!(state.steam_id, "S2");
    assert_eq!(
        state.player_state,
        Some(TrackedPlayerState { health: 80, armor: 0, kills: 0, deaths: 0 })
    );
}

#[test]
fn damage_survived_reports_health_lost() {
    let mut state = GameState::default();
    state.map_phase = MapPhase::Live;
    state.steam_id = "S1".to_string();
    state.player_state = Some(TrackedPlayerState { health: 100, armor: 0, kills: 0, deaths: 0 });

    let mut payload = empty_payload();
    payload.player = Some(player("S1", 60, 0, 0, 0));
    let transitions = apply_snapshot(&mut state, &payload);

    assert_eq!(transitions, vec![Transition::DamageSurvived { delta: 40 }]);
    assert_eq!(
        state.player_state,
        Some(TrackedPlayerState { health: 60, armor: 0, kills: 0, deaths: 0 })
    );
}

#[test]
fn damage_to_zero_fires_nothing_without_death() {
    let mut state = GameState::default();
    state.map_phase = MapPhase::Live;
    state.steam_id = "S1".to_string();
    state.player_state = Some(TrackedPlayerState { health: 60, armor: 0, kills: 0, deaths: 0 });

    let mut payload = empty_payload();
    payload.player = Some(player("S1", 0, 0, 0, 0));
    let transitions = apply_snapshot(&mut state, &payload);

    assert!(transitions.is_empty());
    assert_eq!(
        state.player_state,
        Some(TrackedPlayerState { health: 0, armor: 0, kills: 0, deaths: 0 })
    );
}

#[test]
fn death_reports_pre_update_health() {
    let mut state = GameState::default();
    state.map_phase = MapPhase::Live;
    state.steam_id = "S1".to_string();
    state.player_state = Some(TrackedPlayerState { health: 60, armor: 0, kills: 0, deaths: 0 });

    let mut payload = empty_payload();
    payload.player = Some(player("S1", 0, 0, 0, 1));
    let transitions = apply_snapshot(&mut state, &payload);

    assert_eq!(transitions, vec![Transition::Death { old_health: 60 }]);
    assert_eq!(
        state.player_state,
        Some(TrackedPlayerState { health: 0, armor: 0, kills: 0, deaths: 1 })
    );
}

#[test]
fn death_with_rising_health_fires_death_only() {
    let mut state = GameState::default();
    state.map_phase = MapPhase::Live;
    state.steam_id = "S1".to_string();
    state.player_state = Some(TrackedPlayerState { health: 20, armor: 0, kills: 0, deaths: 3 });

    let mut payload = empty_payload();
    payload.player = Some(player("S1", 100, 0, 0, 4));
    let transitions = apply_snapshot(&mut state, &payload);

    assert_eq!(transitions, vec![Transition::Death { old_health: 20 }]);
}

#[test]
fn damage_and_death_both_fire_in_order() {
    let mut state = GameState::default();
    state.map_phase = MapPhase::Live;
    state.steam_id = "S1".to_string();
    state.player_state = Some(TrackedPlayerState { health: 90, armor: 0, kills: 0, deaths: 0 });

    let mut payload = empty_payload();
    payload.player = Some(player("S1", 30, 0, 0, 1));
    let transitions = apply_snapshot(&mut state, &payload);

    assert_eq!(
        transitions,
        vec![Transition::DamageSurvived { delta: 60 }, Transition::Death { old_health: 90 }]
    );
}

#[test]
fn match_start_needs_live_after() {
    let mut state = GameState::default();
    state.map_phase = MapPhase::Intermission;

    let mut payload = empty_payload();
    payload.map = Some(map_report(MapPhase::Live));
    let transitions = apply_snapshot(&mut state, &payload);

    assert!(transitions.is_empty());
    assert_eq!(state.map_phase, MapPhase::Live);
}

#[test]
fn resending_identical_player_snapshot_fires_nothing() {
    let mut state = GameState::default();
    state.map_phase = MapPhase::Live;
    state.steam_id = "S1".to_string();
    state.player_state = Some(TrackedPlayerState { health: 100, armor: 0, kills: 0, deaths: 0 });

    let mut payload = empty_payload();
    payload.player = Some(player("S1", 40, 0, 1, 2));
    let first = apply_snapshot(&mut state, &payload);
    let second = apply_snapshot(&mut state, &payload);

    assert_eq!(
        first,
        vec![Transition::DamageSurvived { delta: 60 }, Transition::Death { old_health: 100 }]
    );
    assert!(second.is_empty());
}

#[test]
fn reset_keeps_tracked_identity() {
    let mut state = GameState::default();
    state.steam_id = "S1".to_string();
    state.map_phase = MapPhase::Live;
    state.round_phase = RoundPhase::Over;
    state.player_state = Some(TrackedPlayerState { health: 1, armor: 0, kills: 0, deaths: 9 });

    state.reset();

    assert_eq!(state.steam_id, "S1");
    assert_eq!(state.map_phase, MapPhase::Unknown);
    assert_eq!(state.round_phase, RoundPhase::Unknown);
    assert!(state.player_state.is_none());
}

#[test]
fn payload_well_formedness_checks_player_ranges() {
    let mut payload = empty_payload();
    assert!(payload.is_well_formed());

    payload.player = Some(player("S1", 100, 0, 0, 0));
    assert!(payload.is_well_formed());

    payload.player = Some(player("S1", 101, 0, 0, 0));
    assert!(!payload.is_well_formed());

    payload.player = Some(player("S1", 50, -1, 0, 0));
    assert!(!payload.is_well_formed());

    payload.player = Some(player("S1", 50, 0, 0, -2));
    assert!(!payload.is_well_formed());
}
