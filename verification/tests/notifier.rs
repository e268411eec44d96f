use sutra::notifier::{Notifier, Outcome, transition_cue};
use sutra::sound::{Sound, higher_priority_sound, sound_priority};
use sutra::state::{Environment, State, UnitStatus, state_variant_eq};
use sutra::text::{join_strings, unit_key};

fn unit(name: &str, state: State) -> UnitStatus {
    UnitStatus { name: name.to_string(), state, detail: None }
}

fn unit_with_detail(name: &str, state: State, detail: &str) -> UnitStatus {
    UnitStatus { name: name.to_string(), state, detail: Some(detail.to_string()) }
}

fn env(id: &str, units: Vec<UnitStatus>) -> Environment {
    Environment { id: id.to_string(), units, pid: 1, alive: true, ports: Vec::new(), dir: "/p".to_string(), started: None }
}

fn titles(out: &Outcome) -> Vec<(String, String)> {
    out.notices.iter().map(|n| (n.title.clone(), n.body.clone())).collect()
}

fn announced(out: &Outcome) -> Option<(Sound, String)> {
    out.announcement.as_ref().map(|a| (a.sound, a.text.clone()))
}

#[test]
fn first_load_is_silent() {
    let mut n = Notifier::new();
    let out = n.process(&[env("e1", vec![unit("server", State::Failed)])]);
    assert!(out.notices.is_empty());
    assert!(out.announcement.is_none());
}

#[test]
fn transitions_notify_and_batch() {
    let mut n = Notifier::new();
    n.process(&[env("e1", vec![unit("server", State::Building), unit("vite", State::Starting)])]);
    let out = n.process(&[env(
        "e1",
        vec![unit("server", State::Ready), unit("vite", State::Failed), unit("wasm", State::Building)],
    )]);
    assert_eq!(
        titles(&out),
        vec![
            ("sutra \u{2014} server".to_string(), "ready".to_string()),
            ("sutra \u{2014} vite".to_string(), "failed".to_string()),
            ("sutra \u{2014} wasm".to_string(), "building".to_string()),
        ]
    );
    assert_eq!(
        announced(&out),
        Some((Sound::Basso, "server ready, vite failed, wasm building".to_string()))
    );
}

#[test]
fn unchanged_states_are_silent() {
    let mut n = Notifier::new();
    let envs = vec![env("e1", vec![unit("server", State::Running)])];
    n.process(&envs);
    let out = n.process(&envs);
    assert!(out.notices.is_empty());
    assert!(out.announcement.is_none());
}

#[test]
fn detail_only_changes_are_silent() {
    let mut n = Notifier::new();
    n.process(&[env("e1", vec![unit_with_detail("server", State::Building, "cargo")])]);
    let out = n.process(&[env("e1", vec![unit_with_detail("server", State::Building, "wasm-pack")])]);
    assert!(out.notices.is_empty());
    assert!(out.announcement.is_none());
}

#[test]
fn quiet_states_are_silent() {
    let mut n = Notifier::new();
    n.process(&[env("e1", vec![unit("server", State::Ready), unit("metro", State::Ready)])]);
    let out = n.process(&[env(
        "e1",
        vec![unit("server", State::Stopped), unit("metro", State::Other("paused".to_string())), unit("x", State::Unset)],
    )]);
    assert!(out.notices.is_empty());
    assert!(out.announcement.is_none());
}

#[test]
fn other_state_text_matters() {
    assert!(state_variant_eq(&State::Other("a".to_string()), &State::Other("a".to_string())));
    assert!(!state_variant_eq(&State::Other("a".to_string()), &State::Other("b".to_string())));
    assert!(state_variant_eq(&State::Ready, &State::Ready));
    assert!(!state_variant_eq(&State::Ready, &State::Running));
    assert!(!state_variant_eq(&State::Unset, &State::Other(String::new())));
}

#[test]
fn new_unit_appearing_fires() {
    let mut n = Notifier::new();
    n.process(&[]);
    let out = n.process(&[env("e2", vec![unit("seed", State::Running)])]);
    assert_eq!(titles(&out), vec![("sutra \u{2014} seed".to_string(), "running".to_string())]);
    assert_eq!(announced(&out), Some((Sound::Ping, "seed running".to_string())));
}

#[test]
fn sound_mute_keeps_notifications() {
    let mut n = Notifier::new();
    n.process(&[env("e1", vec![unit("server", State::Building)])]);
    n.toggle_global_mute();
    assert!(n.global_mute());
    let out = n.process(&[env("e1", vec![unit("server", State::Failed)])]);
    assert_eq!(titles(&out), vec![("sutra \u{2014} server".to_string(), "failed".to_string())]);
    assert!(out.announcement.is_none());
}

#[test]
fn unit_mute_drops_only_that_unit() {
    let mut n = Notifier::new();
    n.process(&[env("e1", vec![unit("server", State::Building), unit("vite", State::Building)])]);
    n.toggle_unit_mute("e1", "vite");
    assert!(n.is_unit_muted("e1", "vite"));
    assert!(!n.is_unit_muted("e1", "server"));
    let out = n.process(&[env("e1", vec![unit("server", State::Ready), unit("vite", State::Failed)])]);
    assert_eq!(titles(&out).len(), 2);
    assert_eq!(announced(&out), Some((Sound::Ping, "server ready".to_string())));
}

#[test]
fn notifications_off_keeps_sound() {
    let mut n = Notifier::new();
    n.process(&[env("e1", vec![unit("server", State::Building)])]);
    n.toggle_global_notifications();
    assert!(n.global_notifications_off());
    let out = n.process(&[env("e1", vec![unit("server", State::Running)])]);
    assert!(out.notices.is_empty());
    assert_eq!(announced(&out), Some((Sound::Ping, "server running".to_string())));
}

#[test]
fn unit_notifications_off_drops_only_that_unit() {
    let mut n = Notifier::new();
    n.process(&[env("e1", vec![unit("a", State::Building), unit("b", State::Building)])]);
    n.toggle_unit_notifications("e1", "a");
    assert!(n.is_unit_notifications_off("e1", "a"));
    assert!(!n.is_unit_notifications_off("e1", "b"));
    let out = n.process(&[env("e1", vec![unit("a", State::Ready), unit("b", State::Ready)])]);
    assert_eq!(titles(&out), vec![("sutra \u{2014} b".to_string(), "ready".to_string())]);
    assert_eq!(announced(&out), Some((Sound::Ping, "a ready, b ready".to_string())));
}

#[test]
fn toggles_twice_restore() {
    let mut n = Notifier::new();
    n.toggle_unit_mute("e1", "a");
    n.toggle_unit_mute("e1", "a");
    assert!(!n.is_unit_muted("e1", "a"));
    n.toggle_global_mute();
    n.toggle_global_mute();
    assert!(!n.global_mute());
    n.toggle_unit_notifications("e1", "a");
    n.toggle_unit_notifications("e1", "a");
    assert!(!n.is_unit_notifications_off("e1", "a"));
    n.toggle_global_notifications();
    n.toggle_global_notifications();
    assert!(!n.global_notifications_off());
}

#[test]
fn repeated_unit_keeps_last_listing() {
    let mut n = Notifier::new();
    n.process(&[env("e1", vec![unit("server", State::Building)])]);
    let out = n.process(&[
        env("e1", vec![unit("server", State::Failed)]),
        env("e1", vec![unit("server", State::Building)]),
    ]);
    assert!(out.notices.is_empty());
    assert!(out.announcement.is_none());
}

#[test]
fn same_unit_name_in_two_environments_is_two_units() {
    let mut n = Notifier::new();
    n.process(&[env("e1", vec![unit("server", State::Building)]), env("e2", vec![unit("server", State::Building)])]);
    n.toggle_unit_mute("e2", "server");
    let out = n.process(&[env("e1", vec![unit("server", State::Ready)]), env("e2", vec![unit("server", State::Starting)])]);
    assert_eq!(titles(&out).len(), 2);
    assert_eq!(announced(&out), Some((Sound::Ping, "server ready".to_string())));
}

#[test]
fn priority_order_of_sounds() {
    assert_eq!(higher_priority_sound(Sound::Submarine, Sound::Ping), Sound::Ping);
    assert_eq!(higher_priority_sound(Sound::Ping, Sound::Submarine), Sound::Ping);
    assert_eq!(higher_priority_sound(Sound::Ping, Sound::Basso), Sound::Basso);
    assert_eq!(higher_priority_sound(Sound::Basso, Sound::Submarine), Sound::Basso);
    assert_eq!(higher_priority_sound(Sound::Submarine, Sound::Submarine), Sound::Submarine);
    assert_eq!(sound_priority(Sound::Basso), 2);
    assert_eq!(sound_priority(Sound::Ping), 1);
    assert_eq!(sound_priority(Sound::Submarine), 0);
    assert_eq!(Sound::Basso.name(), "Basso");
    assert_eq!(Sound::Ping.name(), "Ping");
    assert_eq!(Sound::Submarine.name(), "Submarine");
}

#[test]
fn cues_per_state() {
    assert_eq!(transition_cue(&State::Building), Some((Sound::Submarine, "building")));
    assert_eq!(transition_cue(&State::Starting), Some((Sound::Submarine, "starting")));
    assert_eq!(transition_cue(&State::Ready), Some((Sound::Ping, "ready")));
    assert_eq!(transition_cue(&State::Running), Some((Sound::Ping, "running")));
    assert_eq!(transition_cue(&State::Failed), Some((Sound::Basso, "failed")));
    assert_eq!(transition_cue(&State::Stopped), None);
    assert_eq!(transition_cue(&State::Unset), None);
    assert_eq!(transition_cue(&State::Other("x".to_string())), None);
}

#[test]
fn unit_key_joins_with_nul() {
    assert_eq!(unit_key("abc", "server"), "abc\u{0}server");
    assert_eq!(unit_key("", ""), "\u{0}");
}

#[test]
fn join_with_separator() {
    assert_eq!(join_strings(&vec![], ", "), "");
    assert_eq!(join_strings(&vec!["a".to_string()], ", "), "a");
    assert_eq!(join_strings(&vec!["a".to_string(), "b".to_string(), "c".to_string()], ", "), "a, b, c");
}

#[test]
fn default_is_a_fresh_notifier() {
    let mut n = Notifier::default();
    assert!(!n.global_mute());
    assert!(!n.global_notifications_off());
    let out = n.process(&[env("e1", vec![unit("server", State::Failed)])]);
    assert!(out.notices.is_empty() && out.announcement.is_none());
    let out = n.process(&[env("e1", vec![unit("server", State::Starting)])]);
    assert_eq!(announced(&out), Some((Sound::Submarine, "server starting".to_string())));
}
