use sutra::dashboard::{Dashboard, Effect, Key, Message, Tone, key_message, state_tone};
use sutra::notifier::Notifier;
use sutra::state::{Environment, State, UnitStatus};

fn dash() -> Dashboard {
    Dashboard::new(Notifier::new())
}

fn is_nothing(e: &Effect) -> bool {
    matches!(e, Effect::Nothing)
}

#[test]
fn tick_reloads_and_clears_flash() {
    let mut d = dash();
    let e = d.update(Message::CopyToClipboard("prompt".to_string()));
    assert!(matches!(e, Effect::WriteClipboard(ref s) if s == "prompt"));
    assert!(d.copied_flash);
    let e = d.update(Message::WatchEvent);
    assert!(matches!(e, Effect::Reload));
    assert!(d.copied_flash);
    let e = d.update(Message::Tick);
    assert!(matches!(e, Effect::Reload));
    assert!(!d.copied_flash);
}

#[test]
fn help_open_close() {
    let mut d = dash();
    d.update(Message::OpenHelp);
    assert!(d.show_help);
    d.update(Message::OpenHelp);
    assert!(d.show_help);
    d.update(Message::CloseHelp);
    assert!(!d.show_help);
    d.update(Message::CloseHelp);
    assert!(!d.show_help);
    d.update(Message::ToggleHelp);
    assert!(d.show_help);
    assert_eq!(d.toolbar().help, "Hide integration help");
}

#[test]
fn toggles_reach_the_notifier() {
    let mut d = dash();
    assert!(is_nothing(&d.update(Message::ToggleGlobalMute)));
    assert!(d.notifier.global_mute());
    d.update(Message::ToggleGlobalNotifications);
    assert!(d.notifier.global_notifications_off());
    d.update(Message::ToggleUnitMute { env_id: "e".to_string(), unit_name: "u".to_string() });
    assert!(d.notifier.is_unit_muted("e", "u"));
    d.update(Message::ToggleUnitNotifications { env_id: "e".to_string(), unit_name: "u".to_string() });
    assert!(d.notifier.is_unit_notifications_off("e", "u"));
    let tips = d.toolbar();
    assert_eq!(tips.mute, "Unmute all sounds");
    assert_eq!(tips.notifications, "Enable notifications");
    let (m, n) = d.unit_tips("e", "u");
    assert_eq!(m, "Unmute u");
    assert_eq!(n, "Enable notifications for u");
    let (m, n) = d.unit_tips("e", "v");
    assert_eq!(m, "Mute v");
    assert_eq!(n, "Disable notifications for v");
}

#[test]
fn theme_toggle() {
    let mut d = dash();
    assert!(!d.is_dark());
    assert_eq!(d.toolbar().theme, "Switch to dark mode");
    d.update(Message::ToggleTheme);
    assert!(d.is_dark());
    assert_eq!(d.toolbar().theme, "Switch to light mode");
    assert_eq!(d.toolbar().mute, "Mute all sounds");
    assert_eq!(d.toolbar().notifications, "Disable notifications");
    assert_eq!(d.toolbar().help, "Integration help");
}

#[test]
fn terminate_only_valid_pids() {
    let mut d = dash();
    assert!(matches!(d.update(Message::TerminateEnv { pid: 4242 }), Effect::Terminate { pid: 4242 }));
    assert!(matches!(
        d.update(Message::TerminateEnv { pid: 2147483647 }),
        Effect::Terminate { pid: 2147483647 }
    ));
    assert!(is_nothing(&d.update(Message::TerminateEnv { pid: 2147483648 })));
}

#[test]
fn prompt_edits_are_dropped() {
    let mut d = dash();
    assert!(is_nothing(&d.update(Message::PromptAction { is_edit: true })));
    assert!(matches!(d.update(Message::PromptAction { is_edit: false }), Effect::PerformPromptAction));
}

#[test]
fn hover_and_links() {
    let mut d = dash();
    d.update(Message::HoverUnit { env_id: "e".to_string(), unit_name: "u".to_string() });
    assert_eq!(d.hovered_unit, Some(("e".to_string(), "u".to_string())));
    d.update(Message::UnhoverUnit);
    assert_eq!(d.hovered_unit, None);
    assert!(matches!(d.update(Message::OpenBrowser { port: 3000 }), Effect::OpenBrowser { port: 3000 }));
    assert!(matches!(d.update(Message::OpenUrl("u".to_string())), Effect::OpenUrl(ref s) if s == "u"));
    assert!(matches!(d.update(Message::Quit), Effect::CloseWindow));
}

#[test]
fn refresh_processes_environments() {
    let mut d = dash();
    let envs = vec![Environment {
        id: "e".to_string(),
        units: vec![UnitStatus { name: "server".to_string(), state: State::Building, detail: None }],
        pid: 10,
        alive: true,
        ports: Vec::new(),
        dir: "/p".to_string(),
        started: None,
    }];
    let out = d.refresh(&envs);
    assert!(out.notices.is_empty() && out.announcement.is_none());
    let envs = vec![Environment {
        id: "e".to_string(),
        units: vec![UnitStatus { name: "server".to_string(), state: State::Failed, detail: None }],
        pid: 10,
        alive: true,
        ports: Vec::new(),
        dir: "/p".to_string(),
        started: None,
    }];
    let out = d.refresh(&envs);
    assert_eq!(out.notices.len(), 1);
    assert_eq!(out.announcement.unwrap().text, "server failed");
}

#[test]
fn key_bindings() {
    assert!(matches!(key_message(true, &Key::Character('q')), Some(Message::Quit)));
    assert!(key_message(false, &Key::Character('q')).is_none());
    assert!(matches!(key_message(false, &Key::Character('?')), Some(Message::OpenHelp)));
    assert!(matches!(key_message(true, &Key::Character('?')), Some(Message::OpenHelp)));
    assert!(matches!(key_message(false, &Key::Escape), Some(Message::CloseHelp)));
    assert!(key_message(true, &Key::Other).is_none());
    assert!(key_message(true, &Key::Character('x')).is_none());
}

#[test]
fn tones_of_states() {
    assert_eq!(state_tone(&State::Running), Tone::Green);
    assert_eq!(state_tone(&State::Ready), Tone::Green);
    assert_eq!(state_tone(&State::Building), Tone::Yellow);
    assert_eq!(state_tone(&State::Starting), Tone::Yellow);
    assert_eq!(state_tone(&State::Failed), Tone::Red);
    assert_eq!(state_tone(&State::Stopped), Tone::Gray);
    assert_eq!(state_tone(&State::Unset), Tone::Gray);
    assert_eq!(state_tone(&State::Other("x".to_string())), Tone::Gray);
}

use sutra::cli::{Launch, MonOptions, foreground_args, is_app_bundle_path, launch};

fn strings(v: &[&str]) -> Vec<String> {
    v.iter().map(|s| s.to_string()).collect()
}

#[test]
fn launch_modes() {
    assert_eq!(launch(None, false), Launch::Gui { background: true });
    assert_eq!(launch(None, true), Launch::Gui { background: false });
    assert_eq!(launch(Some(MonOptions { tui: true, foreground: false }), false), Launch::Tui);
    assert_eq!(launch(Some(MonOptions { tui: false, foreground: true }), false), Launch::Gui { background: false });
    assert_eq!(launch(Some(MonOptions { tui: false, foreground: false }), false), Launch::Gui { background: true });
}

#[test]
fn backgrounded_arguments() {
    assert_eq!(foreground_args(&strings(&[])), strings(&["mon", "--foreground"]));
    assert_eq!(foreground_args(&strings(&["mon"])), strings(&["mon", "--foreground"]));
    assert_eq!(foreground_args(&strings(&["--help"])), strings(&["mon", "--help", "--foreground"]));
    assert_eq!(foreground_args(&strings(&["mon", "--tui"])), strings(&["mon", "--tui", "--foreground"]));
}

#[test]
fn app_bundle_paths() {
    assert!(is_app_bundle_path("/Applications/Sutra.app/Contents/MacOS/sutra"));
    assert!(!is_app_bundle_path("/usr/local/bin/sutra"));
    assert!(!is_app_bundle_path(""));
    assert!(!is_app_bundle_path("/x/Sutra.app/Contents/sutra"));
}
