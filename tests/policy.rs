use server::autorun::determine_autorun_status;
use server::state::UserChatPreferences;

fn prefs(depth: u16, autorun_readonly: bool, autorun_all: bool) -> UserChatPreferences {
    UserChatPreferences { depth, autorun_readonly, autorun_all }
}

#[test]
fn default_preferences_values() {
    let p = UserChatPreferences::default();
    assert_eq!(p.depth, 5);
    assert!(p.autorun_readonly);
    assert!(!p.autorun_all);
}

#[test]
fn autorun_boundary_at_ceiling() {
    for &(ro, all) in &[(true, false), (false, true), (true, true)] {
        let p = prefs(5, ro, all);
        assert!(determine_autorun_status(p, 5));
        assert!(!determine_autorun_status(p, 6));
    }
}

#[test]
fn autorun_false_past_ceiling_for_every_combination() {
    for &(ro, all) in &[(false, false), (true, false), (false, true), (true, true)] {
        for depth in [0u16, 3, 10, 65534] {
            let p = prefs(depth, ro, all);
            assert!(!determine_autorun_status(p, depth + 1));
        }
    }
}

#[test]
fn autorun_manual_mode_never_runs() {
    let p = prefs(5, false, false);
    for depth in 0u16..=5 {
        assert!(!determine_autorun_status(p, depth));
    }
}

#[test]
fn autorun_zero_ceiling() {
    let p = prefs(0, false, true);
    assert!(determine_autorun_status(p, 0));
    assert!(!determine_autorun_status(p, 1));
}
