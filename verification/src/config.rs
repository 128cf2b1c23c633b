//! Configuration consumed by the actuation policy.
//!
//! The configuration is supplied externally and validated before the tracker
//! runs; the policy assumes [`Config::valid`] for its whole lifetime.

use vstd::prelude::*;

verus! {

/// How the parameters of a death-triggered shock are chosen.
#[derive(Debug, Clone, Copy, PartialEq, Eq, Structural)]
pub enum ShockMode {
    Random,
    LastHitPercentage,
}

/// Policy configuration plus the credentials the device API needs.
#[derive(Debug, Clone)]
pub struct Config {
    pub shock_mode: ShockMode,
    pub min_duration: i32,
    pub max_duration: i32,
    pub min_intensity: i32,
    pub max_intensity: i32,
    pub beep_on_match_start: bool,
    pub beep_on_round_start: bool,
    pub username: String,
    pub code: String,
    pub apikey: String,
}

impl Config {
    /// The ranges the policy relies on: durations within 1..=15, intensities
    /// within 0..=100, and each minimum at most its maximum.
    pub open spec fn valid(self) -> bool {
        &&& 1 <= self.min_duration <= 15
        &&& 1 <= self.max_duration <= 15
        &&& self.min_duration <= self.max_duration
        &&& 0 <= self.min_intensity <= 100
        &&& 0 <= self.max_intensity <= 100
        &&& self.min_intensity <= self.max_intensity
    }

    /// Check the configured ranges before the tracker is constructed.
    pub fn validate(&self) -> (ok: bool)
        ensures
            ok == self.valid(),
    {
        if self.min_duration < 1 || self.min_duration > 15 {
            return false;
        }

        if self.max_duration < 1 || self.max_duration > 15 {
            return false;
        }

        if self.min_duration > self.max_duration {
            return false;
        }

        if self.min_intensity < 0 || self.min_intensity > 100 {
            return false;
        }

        if self.max_intensity < 0 || self.max_intensity > 100 {
            return false;
        }

        if self.min_intensity > self.max_intensity {
            return false;
        }

        true
    }
}

impl Default for Config {
    /// The default configuration is valid and actuates nothing audible: both
    /// beeps off, every range collapsed to 1.
    fn default() -> (c: Self)
        ensures
            c.shock_mode is Random,
            c.min_duration == 1,
            c.max_duration == 1,
            c.min_intensity == 1,
            c.max_intensity == 1,
            !c.beep_on_match_start,
            !c.beep_on_round_start,
            c.username@ == Seq::<char>::empty(),
            c.code@ == Seq::<char>::empty(),
            c.apikey@ == Seq::<char>::empty(),
            c.valid(),
    {
        Config {
            shock_mode: ShockMode::Random,
            min_duration: 1,
            max_duration: 1,
            min_intensity: 1,
            max_intensity: 1,
            beep_on_match_start: false,
            beep_on_round_start: false,
            username: String::new(),
            code: String::new(),
            apikey: String::new(),
        }
    }
}

} // verus!
