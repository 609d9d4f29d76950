//! The policy that a scheduler runs with: the target, the margin and the
//! period.

use crate::tracker::DEFAULT_MARGIN_PERCENT;
use vstd::prelude::*;

verus! {

/// The word count that counts as the goal, by default.
pub const DEFAULT_TARGET: u32 = 2500;

/// The time between two samples, in seconds, by default: eight hours.
pub const DEFAULT_PERIOD_SECS: u64 = 28800;

/// The policy of a scheduler. The target is never zero.
#[derive(Clone, Copy, Debug, PartialEq, Eq)]
pub struct Settings {
    target: u32,
    margin_percent: u32,
    period_secs: u64,
}

/// Settings as plain values.
pub struct SettingsModel {
    pub target: nat,
    pub margin_percent: nat,
    pub period_secs: nat,
}

/// The settings that are used where nothing else is configured.
pub open spec fn default_settings() -> SettingsModel {
    SettingsModel {
        target: DEFAULT_TARGET as nat,
        margin_percent: DEFAULT_MARGIN_PERCENT as nat,
        period_secs: DEFAULT_PERIOD_SECS as nat,
    }
}

impl View for Settings {
    type V = SettingsModel;

    closed spec fn view(&self) -> SettingsModel {
        SettingsModel {
            target: self.target as nat,
            margin_percent: self.margin_percent as nat,
            period_secs: self.period_secs as nat,
        }
    }
}

impl Settings {
    #[verifier::type_invariant]
    spec fn has_target(self) -> bool {
        self.target > 0
    }

    /// Settings with the given target, margin in percent and period in
    /// seconds; none where the target is zero, of which no share can be taken.
    pub fn new(target: u32, margin_percent: u32, period_secs: u64) -> (settings: Option<Settings>)
        ensures
            settings is None <==> target == 0,
            settings matches Some(made) ==> made@ == (SettingsModel {
                target: target as nat,
                margin_percent: margin_percent as nat,
                period_secs: period_secs as nat,
            }),
    {
        if target == 0 {
            None
        } else {
            Some(Settings { target, margin_percent, period_secs })
        }
    }

    /// The default settings.
    pub fn standard() -> (settings: Settings)
        ensures
            settings@ == default_settings(),
    {
        Settings {
            target: DEFAULT_TARGET,
            margin_percent: DEFAULT_MARGIN_PERCENT,
            period_secs: DEFAULT_PERIOD_SECS,
        }
    }

    /// The word count that counts as the goal.
    pub fn target(&self) -> (target: u32)
        ensures
            target == self@.target,
            target > 0,
    {
        proof {
            use_type_invariant(self);
        }
        self.target
    }

    /// The relative increase, in percent, that a sample has to exceed.
    pub fn margin_percent(&self) -> (margin_percent: u32)
        ensures
            margin_percent == self@.margin_percent,
    {
        self.margin_percent
    }

    /// The time between two samples, in seconds.
    pub fn period_secs(&self) -> (period_secs: u64)
        ensures
            period_secs == self@.period_secs,
    {
        self.period_secs
    }
}

} // verus!
