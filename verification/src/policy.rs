//! The actuation policy: maps one detected transition and the current
//! configuration to at most one device command.
//!
//! Match start and round start beep when the matching flag is set; damage
//! survived is detectable but deliberately actuates nothing; a death always
//! yields exactly one shock, parameterized by the configured mode.

use vstd::prelude::*;

use crate::config::{Config, ShockMode};
use crate::gamestateintegration::Payload;
use crate::pishock::PiShockOp;
use crate::tracker::{apply_snapshot, state_after, transitions_of, Transition};
use crate::GameState;

verus! {

/// Declares rand's `StdRng` so a generator can pass through verified code.
#[verifier::external_type_specification]
#[verifier::external_body]
pub struct ExStdRng(rand::rngs::StdRng);

/// Relies on rand's `StdRng::from_entropy` (via `SeedableRng`) to build a
/// freshly OS-seeded generator; nothing is claimed about its output.
#[verifier::external_body]
fn fresh_rng() -> (rng: rand::rngs::StdRng) {
    <rand::rngs::StdRng as rand::SeedableRng>::from_entropy()
}

/// Relies on rand's `Rng::gen_range` over an inclusive `i32` range: the
/// sample lies within the bounds. The call panics on an empty range, which
/// the precondition rules out; which value comes back is left open.
#[verifier::external_body]
fn draw_in_range(rng: &mut rand::rngs::StdRng, lo: i32, hi: i32) -> (n: i32)
    requires
        lo <= hi,
    ensures
        lo <= n <= hi,
{
    rand::Rng::gen_range(rng, lo..=hi)
}

/// Share of `maximum` that `health` out of 100 selects, truncated toward
/// zero: the parameter formula of a last-hit-percentage shock.
pub open spec fn last_hit_share(health: int, maximum: int) -> int {
    health * maximum / 100
}

/// Everything the policy promises of a decision `command` for transition `t`
/// under configuration `c`: beeps exactly on the configured flags, nothing
/// for damage survived, and for a death one shock whose parameters are either
/// within the configured bounds (random mode) or the exact last-hit shares.
pub open spec fn decision_ok(t: Transition, c: Config, command: Option<PiShockOp>) -> bool {
    match t {
        Transition::MatchStarted => command == (if c.beep_on_match_start {
            Some(PiShockOp::Beep { duration: 2 })
        } else {
            None
        }),
        Transition::RoundStarted => command == (if c.beep_on_round_start {
            Some(PiShockOp::Beep { duration: 1 })
        } else {
            None
        }),
        Transition::DamageSurvived { .. } => command is None,
        Transition::Death { old_health } => match c.shock_mode {
            ShockMode::Random => {
                &&& command matches Some(op)
                &&& op matches PiShockOp::Shock { intensity, duration }
                &&& c.min_intensity <= intensity <= c.max_intensity
                &&& c.min_duration <= duration <= c.max_duration
            },
            ShockMode::LastHitPercentage => command == Some(
                PiShockOp::Shock {
                    intensity: last_hit_share(old_health as int, c.max_intensity as int) as i32,
                    duration: last_hit_share(old_health as int, c.max_duration as int) as i32,
                },
            ),
        },
    }
}

/// Decide the device command, if any, for one detected transition.
pub fn decide(transition: &Transition, config: &Config) -> (command: Option<PiShockOp>)
    requires
        config.valid(),
        transition.valid(),
    ensures
        decision_ok(*transition, *config, command),
{
    match transition {
        Transition::MatchStarted => {
            if config.beep_on_match_start {
                Some(PiShockOp::Beep { duration: 2 })
            } else {
                None
            }
        },
        Transition::RoundStarted => {
            if config.beep_on_round_start {
                Some(PiShockOp::Beep { duration: 1 })
            } else {
                None
            }
        },
        Transition::DamageSurvived { delta: _ } => None,
        Transition::Death { old_health } => {
            match config.shock_mode {
                ShockMode::Random => {
                    let mut rng = fresh_rng();
                    let intensity = draw_in_range(&mut rng, config.min_intensity, config.max_intensity);
                    let duration = draw_in_range(&mut rng, config.min_duration, config.max_duration);
                    Some(PiShockOp::Shock { intensity, duration })
                },
                ShockMode::LastHitPercentage => {
                    proof {
                        assert(0 <= *old_health * config.max_intensity <= 10000)
                            by (nonlinear_arith)
                            requires
                                0 <= *old_health <= 100,
                                0 <= config.max_intensity <= 100,
                        ;
                        assert(0 <= *old_health * config.max_duration <= 1500)
                            by (nonlinear_arith)
                            requires
                                0 <= *old_health <= 100,
                                0 <= config.max_duration <= 15,
                        ;
                    }
                    let intensity = *old_health * config.max_intensity / 100;
                    let duration = *old_health * config.max_duration / 100;
                    Some(PiShockOp::Shock { intensity, duration })
                },
            }
        },
    }
}

/// The commands present in a list of per-transition decisions, kept in
/// decision order.
pub open spec fn somes_of(rs: Seq<Option<PiShockOp>>) -> Seq<PiShockOp>
    decreases rs.len(),
{
    if rs.len() == 0 {
        Seq::<PiShockOp>::empty()
    } else {
        somes_of(rs.drop_last()) + (match rs.last() {
            Some(command) => seq![command],
            None => Seq::<PiShockOp>::empty(),
        })
    }
}

/// `commands` holds, in detection order, one decision allowed by
/// [`decision_ok`] for each transition of `ts`, with the withheld (`None`)
/// decisions dropped: dispatch order matches detection order.
pub open spec fn decisions_for(ts: Seq<Transition>, c: Config, commands: Seq<PiShockOp>) -> bool {
    exists|rs: Seq<Option<PiShockOp>>|
        #![trigger somes_of(rs)]
        {
            &&& rs.len() == ts.len()
            &&& (forall|i: int| 0 <= i < ts.len() ==> decision_ok(ts[i], c, rs[i]))
            &&& commands == somes_of(rs)
        }
}

/// The whole core flow for one inbound snapshot: merge it into the tracker
/// state, decide each detected transition in order, and hand back the
/// commands to dispatch, in detection order. The caller dispatches them
/// fire-and-forget; this call itself never fails.
pub fn process_snapshot(
    state: &mut GameState,
    payload: &Payload,
    config: &Config,
) -> (commands: Vec<PiShockOp>)
    requires
        old(state)@.wf(),
        payload@.wf(),
        config.valid(),
    ensures
        final(state)@ == state_after(old(state)@, payload@),
        final(state)@.wf(),
        decisions_for(transitions_of(old(state)@, payload@), *config, commands@),
{
    let transitions = apply_snapshot(state, payload);

    let mut commands: Vec<PiShockOp> = Vec::new();
    let ghost mut rs: Seq<Option<PiShockOp>> = Seq::<Option<PiShockOp>>::empty();
    let mut idx: usize = 0;
    while idx < transitions.len()
        invariant
            idx <= transitions@.len(),
            rs.len() == idx,
            forall|i: int| 0 <= i < idx ==> decision_ok(transitions@[i], *config, rs[i]),
            commands@ == somes_of(rs),
            config.valid(),
            forall|i: int|
                0 <= i < transitions@.len() ==> (#[trigger] transitions@[i]).valid(),
        decreases transitions@.len() - idx,
    {
        let command = decide(&transitions[idx], config);
        proof {
            assert(rs.push(command).drop_last() =~= rs);
        }
        if let Some(op) = command {
            commands.push(op);
        }
        proof {
            rs = rs.push(command);
        }
        idx += 1;
    }

    proof {
        assert(rs.len() == transitions@.len() && (forall|i: int|
            0 <= i < transitions@.len() ==> decision_ok(transitions@[i], *config, rs[i]))
            && commands@ == somes_of(rs));
        assert(decisions_for(transitions@, *config, commands@));
    }
    commands
}

} // verus!
