use sutra::cards::{
    Screen, card, cards, copy_button, display_name, elapsed, empty_screen_text, help_copy_message,
    help_link, help_link_message, help_prompt, port_for, screen,
};
use sutra::dashboard::browser_address;
use sutra::dashboard::{Dashboard, Message, Tone};
use sutra::notifier::Notifier;
use sutra::state::{Environment, State, UnitStatus};

fn unit(name: &str, state: State, detail: Option<&str>) -> UnitStatus {
    UnitStatus { name: name.to_string(), state, detail: detail.map(|d| d.to_string()) }
}

fn sample(alive: bool) -> Environment {
    Environment {
        id: "abc1".to_string(),
        units: vec![
            unit("server", State::Ready, None),
            unit("wasm", State::Building, Some("wasm-pack")),
        ],
        pid: 4242,
        alive,
        ports: vec![("SERVER".to_string(), 3000), ("FRONTEND".to_string(), 5173)],
        dir: "/home/me/code/myapp/".to_string(),
        started: Some(1_700_000_000),
    }
}

#[test]
fn server_port_goes_to_server_row() {
    let env = sample(true);
    assert_eq!(port_for(&env, &"server".to_string()), Some(3000));
    assert_eq!(port_for(&env, &"frontend".to_string()), Some(5173));
    assert_eq!(port_for(&env, &"wasm".to_string()), None);
    assert_eq!(port_for(&env, &"SERVER".to_string()), None);
}

#[test]
fn first_matching_port_wins() {
    let mut env = sample(true);
    env.ports = vec![("Server".to_string(), 1), ("SERVER".to_string(), 2)];
    assert_eq!(port_for(&env, &"server".to_string()), Some(1));
}

#[test]
fn card_of_live_environment() {
    let mut d = Dashboard::new(Notifier::new());
    d.update(Message::ToggleUnitMute { env_id: "abc1".to_string(), unit_name: "wasm".to_string() });
    d.update(Message::HoverUnit { env_id: "abc1".to_string(), unit_name: "server".to_string() });
    let c = card(&d, &sample(true), 1_700_000_090);
    assert_eq!(c.terminate, Some(4242));
    assert_eq!(c.terminate_tip, "Terminate environment");
    assert_eq!(c.live_tone, Tone::Green);
    assert_eq!(c.name, "myapp");
    assert_eq!(c.elapsed, Some(90));
    assert!(c.has_any_port);
    assert_eq!(c.rows.len(), 2);
    let r0 = &c.rows[0];
    assert_eq!(r0.name, "server");
    assert_eq!(r0.label, "ready");
    assert_eq!(r0.tone, Tone::Green);
    assert_eq!(r0.port, Some(3000));
    assert!(r0.hovered);
    assert!(!r0.muted);
    assert_eq!(r0.mute_tip, "Mute server");
    assert_eq!(r0.detail, None);
    let r1 = &c.rows[1];
    assert_eq!(r1.name, "wasm");
    assert_eq!(r1.tone, Tone::Yellow);
    assert_eq!(r1.port, None);
    assert!(!r1.hovered);
    assert!(r1.muted);
    assert_eq!(r1.mute_tip, "Unmute wasm");
    assert_eq!(r1.notifications_tip, "Disable notifications for wasm");
    assert_eq!(r1.detail, Some("wasm-pack".to_string()));
}

#[test]
fn card_of_dead_environment_has_no_stop() {
    let d = Dashboard::new(Notifier::new());
    let mut env = sample(false);
    env.ports = Vec::new();
    let c = card(&d, &env, 0);
    assert_eq!(c.terminate, None);
    assert_eq!(c.live_tone, Tone::Gray);
    assert_eq!(c.elapsed, Some(0));
    assert!(!c.has_any_port);
}

#[test]
fn screens() {
    let mut d = Dashboard::new(Notifier::new());
    assert_eq!(screen(&d, 0), Screen::Empty);
    assert_eq!(screen(&d, 3), Screen::Cards);
    d.update(Message::OpenHelp);
    assert_eq!(screen(&d, 3), Screen::Help);
    assert_eq!(screen(&d, 0), Screen::Help);
}

#[test]
fn copy_label() {
    let mut d = Dashboard::new(Notifier::new());
    assert_eq!(copy_button(&d), ("Copy", false));
    d.update(Message::CopyToClipboard("x".to_string()));
    assert_eq!(copy_button(&d), ("Copied!", true));
    d.update(Message::Tick);
    assert_eq!(copy_button(&d), ("Copy", false));
}

#[test]
fn toolbar_icons() {
    let mut d = Dashboard::new(Notifier::new());
    let t = d.toolbar();
    assert!(!t.muted_icon && !t.bell_off_icon && !t.sun_icon && !t.help_highlighted);
    d.update(Message::ToggleGlobalMute);
    d.update(Message::ToggleGlobalNotifications);
    d.update(Message::ToggleTheme);
    d.update(Message::ToggleHelp);
    let t = d.toolbar();
    assert!(t.muted_icon && t.bell_off_icon && t.sun_icon && t.help_highlighted);
}

#[test]
fn names_of_environments() {
    let mut env = sample(true);
    assert_eq!(display_name(&env), "myapp");
    env.dir = "/srv/api".to_string();
    assert_eq!(display_name(&env), "api");
    env.dir = "plain".to_string();
    assert_eq!(display_name(&env), "plain");
    env.dir = "/".to_string();
    assert_eq!(display_name(&env), "abc1");
    env.dir = String::new();
    assert_eq!(display_name(&env), "abc1");
}

#[test]
fn elapsed_seconds() {
    assert_eq!(elapsed(Some(100), 160), Some(60));
    assert_eq!(elapsed(Some(200), 160), Some(0));
    assert_eq!(elapsed(None, 160), None);
}

#[test]
fn one_card_per_environment_in_order() {
    let d = Dashboard::new(Notifier::new());
    let mut second = sample(false);
    second.id = "ff".to_string();
    second.dir = "/w/other".to_string();
    let list = cards(&d, &[sample(true), second], 5);
    assert_eq!(list.len(), 2);
    assert_eq!(list[0].name, "myapp");
    assert_eq!(list[1].name, "other");
    assert!(cards(&d, &[], 5).is_empty());
}

#[test]
fn empty_screen_lines() {
    assert_eq!(
        empty_screen_text(Some("/home/me/.dev-runner")),
        ("No environments found.", "Watching /home/me/.dev-runner for environments".to_string())
    );
    assert_eq!(
        empty_screen_text(None),
        ("No environments found.", "Watching ~/.dev-runner/ for environments".to_string())
    );
}

#[test]
fn help_panel_actions() {
    assert!(help_prompt().starts_with("Make my project's dev script sutra-compatible"));
    assert!(help_prompt().ends_with("Otherwise create one.\n"));
    assert_eq!(help_link(), "https://github.com/synestheticsystems/sutra/blob/main/docs/INTEGRATION.md");
    assert!(matches!(help_copy_message(), Message::CopyToClipboard(ref p) if p == help_prompt()));
    assert!(matches!(help_link_message(), Message::OpenUrl(ref u) if u == help_link()));
}

#[test]
fn browser_addresses() {
    assert_eq!(browser_address(3000), "http://localhost:3000");
    assert_eq!(browser_address(0), "http://localhost:0");
    assert_eq!(browser_address(65535), "http://localhost:65535");
    assert_eq!(browser_address(7), "http://localhost:7");
}

#[test]
fn state_labels() {
    assert_eq!(State::Unset.label(), "");
    assert_eq!(State::Stopped.label(), "stopped");
    assert_eq!(State::Building.label(), "building");
    assert_eq!(State::Other("paused".to_string()).label(), "paused");
}

#[test]
fn port_names_lowercase_beyond_ascii() {
    let mut env = sample(true);
    env.ports = vec![("ÄPP".to_string(), 8080)];
    assert_eq!(port_for(&env, &"äpp".to_string()), Some(8080));
    assert_eq!(port_for(&env, &"ÄPP".to_string()), None);
}
