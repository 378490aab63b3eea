use zeppelin_cli::outcome::RunOutcome;
use zeppelin_cli::settings::{
    custom_settings, preset, select_settings, tier_from_index, CryptSettings, Tier,
    DEFAULT_TIER_INDEX, TIER_NAMES,
};

#[test]
fn default_tier_matches_default_constructor() {
    assert_eq!(TIER_NAMES[DEFAULT_TIER_INDEX], "Default");
    assert_eq!(select_settings(DEFAULT_TIER_INDEX), Ok(Some(CryptSettings::default())));
    let d = CryptSettings::default();
    assert_eq!((d.s_cost, d.t_cost, d.step_delta), (468750, 2, 3));
}

#[test]
fn strong_tier_is_fixed() {
    let expected = CryptSettings { s_cost: 4_687_500, t_cost: 3, step_delta: 4 };
    assert_eq!(select_settings(2), Ok(Some(expected)));
    assert_eq!(expected.s_cost, 10 * CryptSettings::default().s_cost);
}

#[test]
fn weak_tier_is_testing_preset() {
    let w = CryptSettings::default_for_testing();
    assert_eq!((w.s_cost, w.t_cost, w.step_delta), (1000, 2, 3));
    assert_eq!(select_settings(0), Ok(Some(w)));
    assert_eq!(preset(Tier::Weak), Some(w));
}

#[test]
fn custom_tier_asks_for_fields() {
    assert_eq!(tier_from_index(3), Some(Tier::Custom));
    assert_eq!(select_settings(3), Ok(None));
    assert_eq!(preset(Tier::Custom), None);
}

#[test]
fn out_of_range_choice_fails() {
    assert_eq!(tier_from_index(4), None);
    assert_eq!(select_settings(4), Err(RunOutcome::PromptFailure(String::from("Invalid Choice"))));
    assert_eq!(select_settings(usize::MAX).unwrap_err().exit_code(), 1);
}

#[test]
fn custom_fields_are_kept() {
    assert_eq!(
        custom_settings(Some(7), Some(5), Some(9)),
        Ok(CryptSettings { s_cost: 7, t_cost: 5, step_delta: 9 })
    );
}

#[test]
fn custom_prompt_failure_aborts() {
    let failure = Err(RunOutcome::PromptFailure(String::from("Unable to get user prompt!")));
    assert_eq!(custom_settings(None, Some(5), Some(9)), failure);
    assert_eq!(custom_settings(Some(7), None, Some(9)), failure);
    assert_eq!(custom_settings(Some(7), Some(5), None), failure);
}
