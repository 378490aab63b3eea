//! Cost parameters handed to the engine's key derivation, and the choice of
//! a preset tier.
use vstd::prelude::*;
use vstd::string::*;
use crate::outcome::{RunOutcome, message_of};

verus! {

/// Memory-hardness, time-hardness and mixing degree of the key derivation.
/// The field values are those of the engine's own settings type.
#[derive(Debug, Clone, Copy, PartialEq, Eq, Structural)]
pub struct CryptSettings {
    pub s_cost: usize,
    pub t_cost: usize,
    pub step_delta: usize,
}

impl CryptSettings {
    /// All three cost parameters are positive.
    pub open spec fn wf(&self) -> bool {
        self.s_cost > 0 && self.t_cost > 0 && self.step_delta > 0
    }

    /// The engine's light preset, meant for testing rather than secure use.
    pub fn default_for_testing() -> (r: CryptSettings)
        ensures
            r == testing_settings(),
            r.wf(),
    {
        engine_testing_settings()
    }
}

impl Default for CryptSettings {
    /// The engine's baseline preset for interactive use.
    fn default() -> (r: CryptSettings)
        ensures
            r == default_settings(),
            r.wf(),
    {
        engine_default_settings()
    }
}

pub open spec fn testing_settings() -> CryptSettings {
    CryptSettings { s_cost: 1000, t_cost: 2, step_delta: 3 }
}

pub open spec fn default_settings() -> CryptSettings {
    CryptSettings { s_cost: 468750, t_cost: 2, step_delta: 3 }
}

/// Ten times the baseline space cost, a larger time cost and a larger mixing
/// degree.
pub open spec fn strong_settings() -> CryptSettings {
    CryptSettings { s_cost: 4687500, t_cost: 3, step_delta: 4 }
}

/// Relies on `zeppelin_core::cipher::CryptSettings::default`, which returns
/// the literal fields 468750, 2 and 3.
#[verifier::external_body]
fn engine_default_settings() -> (r: CryptSettings)
    ensures
        r == default_settings(),
{
    let s: zeppelin_core::cipher::CryptSettings = Default::default();
    CryptSettings { s_cost: s.s_cost, t_cost: s.t_cost, step_delta: s.step_delta }
}

/// Relies on `zeppelin_core::cipher::CryptSettings::default_for_testing`,
/// which returns the literal fields 1000, 2 and 3.
#[verifier::external_body]
fn engine_testing_settings() -> (r: CryptSettings)
    ensures
        r == testing_settings(),
{
    let s = zeppelin_core::cipher::CryptSettings::default_for_testing();
    CryptSettings { s_cost: s.s_cost, t_cost: s.t_cost, step_delta: s.step_delta }
}

/// The tiers offered to the user, in menu order.
#[derive(Debug, Clone, Copy, PartialEq, Eq, Structural)]
pub enum Tier {
    Weak,
    Standard,
    Strong,
    Custom,
}

/// Menu entries, indexed as [`tier_from_index`] reads them.
pub const TIER_NAMES: [&'static str; 4] = ["Weak", "Default", "Strong", "Custom"];

/// Menu entry selected when the user picks nothing else.
pub const DEFAULT_TIER_INDEX: usize = 1;

pub open spec fn tier_of_index(index: usize) -> Option<Tier> {
    if index == 0 {
        Some(Tier::Weak)
    } else if index == 1 {
        Some(Tier::Standard)
    } else if index == 2 {
        Some(Tier::Strong)
    } else if index == 3 {
        Some(Tier::Custom)
    } else {
        None
    }
}

/// Settings of a preset tier; `None` for the custom tier, whose fields the
/// user enters.
pub open spec fn preset_of(tier: Tier) -> Option<CryptSettings> {
    match tier {
        Tier::Weak => Some(testing_settings()),
        Tier::Standard => Some(default_settings()),
        Tier::Strong => Some(strong_settings()),
        Tier::Custom => None,
    }
}

/// The tier at a menu index.
pub fn tier_from_index(index: usize) -> (r: Option<Tier>)
    ensures
        r == tier_of_index(index),
{
    match index {
        0 => Some(Tier::Weak),
        1 => Some(Tier::Standard),
        2 => Some(Tier::Strong),
        3 => Some(Tier::Custom),
        _ => None,
    }
}

/// Settings of a preset tier; `None` for the custom tier.
pub fn preset(tier: Tier) -> (r: Option<CryptSettings>)
    ensures
        r == preset_of(tier),
{
    match tier {
        Tier::Weak => Some(CryptSettings::default_for_testing()),
        Tier::Standard => Some(CryptSettings::default()),
        Tier::Strong => Some(CryptSettings { s_cost: 468750 * 10, t_cost: 3, step_delta: 4 }),
        Tier::Custom => None,
    }
}

/// Settings for a menu choice: `Ok(Some(..))` for a preset, `Ok(None)` for
/// the custom tier, whose fields are asked for next, and a prompt failure
/// for an index outside the menu.
pub fn select_settings(choice: usize) -> (r: Result<Option<CryptSettings>, RunOutcome>)
    ensures
        tier_of_index(choice) matches Some(tier) ==> r == Ok::<_, RunOutcome>(preset_of(tier)),
        tier_of_index(choice) is None ==> (r matches Err(o) && o is PromptFailure && message_of(o)
            == "Invalid Choice"@),
{
    match tier_from_index(choice) {
        Some(tier) => Ok(preset(tier)),
        None => Err(RunOutcome::PromptFailure(String::from_str("Invalid Choice"))),
    }
}

/// Custom settings from the three values entered by the user; a prompt that
/// could not be read (`None`) aborts the run rather than falling back to a
/// default.
pub fn custom_settings(
    s_cost: Option<usize>,
    t_cost: Option<usize>,
    step_delta: Option<usize>,
) -> (r: Result<CryptSettings, RunOutcome>)
    ensures
        s_cost is Some && t_cost is Some && step_delta is Some ==> r == Ok::<_, RunOutcome>(
            (CryptSettings { s_cost: s_cost->0, t_cost: t_cost->0, step_delta: step_delta->0 }),
        ),
        s_cost is None || t_cost is None || step_delta is None ==> (r matches Err(o)
            && o is PromptFailure && message_of(o) == "Unable to get user prompt!"@),
{
    match (s_cost, t_cost, step_delta) {
        (Some(s), Some(t), Some(d)) => Ok(CryptSettings { s_cost: s, t_cost: t, step_delta: d }),
        _ => Err(crate::outcome::prompt_unavailable()),
    }
}

/// The baseline tier gives exactly the settings of the zero-argument
/// constructor, and the strong tier gives the fixed strong parameters, whose
/// space cost is ten times the baseline one.
pub proof fn lemma_preset_tiers()
    ensures
        select_preset_of(DEFAULT_TIER_INDEX) == Some(default_settings()),
        select_preset_of(2) == Some(strong_settings()),
        strong_settings().s_cost == 10 * default_settings().s_cost,
{
}

/// Settings of the preset at a menu index, if that index names a preset.
pub open spec fn select_preset_of(index: usize) -> Option<CryptSettings> {
    match tier_of_index(index) {
        Some(tier) => preset_of(tier),
        None => None,
    }
}

} // verus!
