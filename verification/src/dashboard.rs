//! The dashboard's decisions: how each user or timer event changes the
//! view state and the notifier, which outside action it calls for, and
//! which labels the toolbar and unit rows show.
use vstd::prelude::*;
use vstd::string::StringExecFns;
use crate::state::{Environment, State, StateView};
use crate::notifier::{Notifier, NotifierModel, Outcome, after_process, outcome_for, toggled};
use crate::snapshot::snapshot;
use crate::text::unit_key_view;

verus! {

/// An event handled by the dashboard.
pub enum Message {
    /// The periodic refresh.
    Tick,
    /// A change in the watched state folder.
    WatchEvent,
    ToggleGlobalMute,
    ToggleUnitMute { env_id: String, unit_name: String },
    ToggleGlobalNotifications,
    ToggleUnitNotifications { env_id: String, unit_name: String },
    ToggleTheme,
    ToggleHelp,
    OpenHelp,
    CloseHelp,
    CopyToClipboard(String),
    OpenBrowser { port: u16 },
    OpenUrl(String),
    /// An action on the read-only help prompt; `is_edit` tells whether it
    /// would change the text.
    PromptAction { is_edit: bool },
    TerminateEnv { pid: u32 },
    HoverUnit { env_id: String, unit_name: String },
    UnhoverUnit,
    Quit,
}

/// An outside action that an event calls for.
pub enum Effect {
    /// Nothing to do outside.
    Nothing,
    /// Reload every environment and hand them to [`Dashboard::refresh`].
    Reload,
    /// Put the text on the clipboard.
    WriteClipboard(String),
    /// Perform the pending action on the help prompt.
    PerformPromptAction,
    /// Open `http://localhost:<port>` in the browser.
    OpenBrowser { port: u16 },
    /// Open the address in the browser.
    OpenUrl(String),
    /// Send SIGTERM to the process.
    Terminate { pid: i32 },
    /// Close the window.
    CloseWindow,
}

/// The value of an [`Effect`].
pub ghost enum EffectView {
    Nothing,
    Reload,
    WriteClipboard(Seq<char>),
    PerformPromptAction,
    OpenBrowser { port: u16 },
    OpenUrl(Seq<char>),
    Terminate { pid: i32 },
    CloseWindow,
}

impl View for Effect {
    type V = EffectView;

    open spec fn view(&self) -> EffectView {
        match self {
            Effect::Nothing => EffectView::Nothing,
            Effect::Reload => EffectView::Reload,
            Effect::WriteClipboard(s) => EffectView::WriteClipboard(s@),
            Effect::PerformPromptAction => EffectView::PerformPromptAction,
            Effect::OpenBrowser { port } => EffectView::OpenBrowser { port: *port },
            Effect::OpenUrl(s) => EffectView::OpenUrl(s@),
            Effect::Terminate { pid } => EffectView::Terminate { pid: *pid },
            Effect::CloseWindow => EffectView::CloseWindow,
        }
    }
}

/// The value of a [`Message`].
pub ghost enum MessageView {
    Tick,
    WatchEvent,
    ToggleGlobalMute,
    ToggleUnitMute { env_id: Seq<char>, unit_name: Seq<char> },
    ToggleGlobalNotifications,
    ToggleUnitNotifications { env_id: Seq<char>, unit_name: Seq<char> },
    ToggleTheme,
    ToggleHelp,
    OpenHelp,
    CloseHelp,
    CopyToClipboard(Seq<char>),
    OpenBrowser { port: u16 },
    OpenUrl(Seq<char>),
    PromptAction { is_edit: bool },
    TerminateEnv { pid: u32 },
    HoverUnit { env_id: Seq<char>, unit_name: Seq<char> },
    UnhoverUnit,
    Quit,
}

impl View for Message {
    type V = MessageView;

    open spec fn view(&self) -> MessageView {
        match self {
            Message::Tick => MessageView::Tick,
            Message::WatchEvent => MessageView::WatchEvent,
            Message::ToggleGlobalMute => MessageView::ToggleGlobalMute,
            Message::ToggleUnitMute { env_id, unit_name } => MessageView::ToggleUnitMute {
                env_id: env_id@,
                unit_name: unit_name@,
            },
            Message::ToggleGlobalNotifications => MessageView::ToggleGlobalNotifications,
            Message::ToggleUnitNotifications { env_id, unit_name } =>
                MessageView::ToggleUnitNotifications { env_id: env_id@, unit_name: unit_name@ },
            Message::ToggleTheme => MessageView::ToggleTheme,
            Message::ToggleHelp => MessageView::ToggleHelp,
            Message::OpenHelp => MessageView::OpenHelp,
            Message::CloseHelp => MessageView::CloseHelp,
            Message::CopyToClipboard(s) => MessageView::CopyToClipboard(s@),
            Message::OpenBrowser { port } => MessageView::OpenBrowser { port: *port },
            Message::OpenUrl(s) => MessageView::OpenUrl(s@),
            Message::PromptAction { is_edit } => MessageView::PromptAction { is_edit: *is_edit },
            Message::TerminateEnv { pid } => MessageView::TerminateEnv { pid: *pid },
            Message::HoverUnit { env_id, unit_name } => MessageView::HoverUnit {
                env_id: env_id@,
                unit_name: unit_name@,
            },
            Message::UnhoverUnit => MessageView::UnhoverUnit,
            Message::Quit => MessageView::Quit,
        }
    }
}

/// The dashboard's state apart from the loaded environments.
pub struct Dashboard {
    pub notifier: Notifier,
    pub dark_mode: bool,
    pub hovered_unit: Option<(String, String)>,
    pub show_help: bool,
    /// Set when the help prompt was copied; cleared on the next periodic
    /// refresh.
    pub copied_flash: bool,
}

/// The value of a [`Dashboard`].
pub ghost struct DashboardView {
    pub notifier: NotifierModel,
    pub dark_mode: bool,
    pub hovered_unit: Option<(Seq<char>, Seq<char>)>,
    pub show_help: bool,
    pub copied_flash: bool,
}

impl View for Dashboard {
    type V = DashboardView;

    open spec fn view(&self) -> DashboardView {
        DashboardView {
            notifier: self.notifier@,
            dark_mode: self.dark_mode,
            hovered_unit: match self.hovered_unit {
                Some((e, u)) => Some((e@, u@)),
                None => None,
            },
            show_help: self.show_help,
            copied_flash: self.copied_flash,
        }
    }
}

/// The largest process identifier that a signal can be sent to.
pub open spec fn max_signal_pid() -> int {
    0x7fff_ffff
}

/// The state after the event `msg`, and the outside action it calls for.
pub open spec fn step(d: DashboardView, msg: MessageView) -> (DashboardView, EffectView) {
    let n = d.notifier;
    match msg {
        MessageView::Tick => (DashboardView { copied_flash: false, ..d }, EffectView::Reload),
        MessageView::WatchEvent => (d, EffectView::Reload),
        MessageView::ToggleGlobalMute => (
            DashboardView { notifier: NotifierModel { global_mute: !n.global_mute, ..n }, ..d },
            EffectView::Nothing,
        ),
        MessageView::ToggleUnitMute { env_id, unit_name } => (
            DashboardView {
                notifier: NotifierModel {
                    muted_units: toggled(n.muted_units, unit_key_view(env_id, unit_name)),
                    ..n
                },
                ..d
            },
            EffectView::Nothing,
        ),
        MessageView::ToggleGlobalNotifications => (
            DashboardView {
                notifier: NotifierModel {
                    global_notifications_off: !n.global_notifications_off,
                    ..n
                },
                ..d
            },
            EffectView::Nothing,
        ),
        MessageView::ToggleUnitNotifications { env_id, unit_name } => (
            DashboardView {
                notifier: NotifierModel {
                    notifications_off_units: toggled(
                        n.notifications_off_units,
                        unit_key_view(env_id, unit_name),
                    ),
                    ..n
                },
                ..d
            },
            EffectView::Nothing,
        ),
        MessageView::ToggleTheme => (DashboardView { dark_mode: !d.dark_mode, ..d }, EffectView::Nothing),
        MessageView::ToggleHelp => (DashboardView { show_help: !d.show_help, ..d }, EffectView::Nothing),
        MessageView::OpenHelp => (DashboardView { show_help: true, ..d }, EffectView::Nothing),
        MessageView::CloseHelp => (DashboardView { show_help: false, ..d }, EffectView::Nothing),
        MessageView::CopyToClipboard(s) => (
            DashboardView { copied_flash: true, ..d },
            EffectView::WriteClipboard(s),
        ),
        MessageView::OpenBrowser { port } => (d, EffectView::OpenBrowser { port }),
        MessageView::OpenUrl(s) => (d, EffectView::OpenUrl(s)),
        MessageView::PromptAction { is_edit } => (
            d,
            if is_edit {
                EffectView::Nothing
            } else {
                EffectView::PerformPromptAction
            },
        ),
        MessageView::TerminateEnv { pid } => (
            d,
            if pid <= max_signal_pid() {
                EffectView::Terminate { pid: pid as i32 }
            } else {
                EffectView::Nothing
            },
        ),
        MessageView::HoverUnit { env_id, unit_name } => (
            DashboardView { hovered_unit: Some((env_id, unit_name)), ..d },
            EffectView::Nothing,
        ),
        MessageView::UnhoverUnit => (DashboardView { hovered_unit: None, ..d }, EffectView::Nothing),
        MessageView::Quit => (d, EffectView::CloseWindow),
    }
}

impl Dashboard {
    /// A dashboard in light mode, help closed, nothing hovered, around the
    /// given notifier.
    pub fn new(notifier: Notifier) -> (r: Dashboard)
        ensures
            r.notifier == notifier,
            !r.dark_mode,
            r.hovered_unit is None,
            !r.show_help,
            !r.copied_flash,
    {
        Dashboard { notifier, dark_mode: false, hovered_unit: None, show_help: false, copied_flash: false }
    }

    /// Applies the event and returns the outside action it calls for.
    pub fn update(&mut self, msg: Message) -> (e: Effect)
        ensures
            (final(self)@, e@) == step(old(self)@, msg@),
    {
        match msg {
            Message::Tick => {
                self.copied_flash = false;
                Effect::Reload
            },
            Message::WatchEvent => Effect::Reload,
            Message::ToggleGlobalMute => {
                self.notifier.toggle_global_mute();
                Effect::Nothing
            },
            Message::ToggleUnitMute { env_id, unit_name } => {
                self.notifier.toggle_unit_mute(env_id.as_str(), unit_name.as_str());
                Effect::Nothing
            },
            Message::ToggleGlobalNotifications => {
                self.notifier.toggle_global_notifications();
                Effect::Nothing
            },
            Message::ToggleUnitNotifications { env_id, unit_name } => {
                self.notifier.toggle_unit_notifications(env_id.as_str(), unit_name.as_str());
                Effect::Nothing
            },
            Message::ToggleTheme => {
                self.dark_mode = !self.dark_mode;
                Effect::Nothing
            },
            Message::ToggleHelp => {
                self.show_help = !self.show_help;
                Effect::Nothing
            },
            Message::OpenHelp => {
                self.show_help = true;
                Effect::Nothing
            },
            Message::CloseHelp => {
                self.show_help = false;
                Effect::Nothing
            },
            Message::CopyToClipboard(content) => {
                self.copied_flash = true;
                Effect::WriteClipboard(content)
            },
            Message::OpenBrowser { port } => Effect::OpenBrowser { port },
            Message::OpenUrl(url) => Effect::OpenUrl(url),
            Message::PromptAction { is_edit } => {
                if is_edit {
                    Effect::Nothing
                } else {
                    Effect::PerformPromptAction
                }
            },
            Message::TerminateEnv { pid } => {
                if pid <= 0x7fff_ffff {
                    Effect::Terminate { pid: pid as i32 }
                } else {
                    Effect::Nothing
                }
            },
            Message::HoverUnit { env_id, unit_name } => {
                self.hovered_unit = Some((env_id, unit_name));
                Effect::Nothing
            },
            Message::UnhoverUnit => {
                self.hovered_unit = None;
                Effect::Nothing
            },
            Message::Quit => Effect::CloseWindow,
        }
    }

    /// Hands freshly loaded environments to the notifier; see
    /// [`Notifier::process`].
    pub fn refresh(&mut self, envs: &[Environment]) -> (out: Outcome)
        ensures
            out@ == outcome_for(old(self)@.notifier, snapshot(envs@)),
            final(self)@ == (DashboardView {
                notifier: after_process(old(self)@.notifier, snapshot(envs@)),
                ..old(self)@
            }),
    {
        self.notifier.process(envs)
    }
}

/// A key press, as far as the dashboard's bindings tell keys apart.
pub enum Key {
    /// A key that types one character.
    Character(char),
    Escape,
    Other,
}

/// The event bound to a key press: command-Q quits, `?` opens the help
/// panel, Escape closes it; other keys are not bound.
pub open spec fn key_binding(command: bool, key: Key) -> Option<MessageView> {
    match key {
        Key::Character(c) => if command && c == 'q' {
            Some(MessageView::Quit)
        } else if c == '?' {
            Some(MessageView::OpenHelp)
        } else {
            None
        },
        Key::Escape => Some(MessageView::CloseHelp),
        Key::Other => None,
    }
}

/// The event bound to a key press, if any.
pub fn key_message(command: bool, key: &Key) -> (r: Option<Message>)
    ensures
        key_binding(command, *key) == match r {
            Some(m) => Some(m@),
            None => None::<MessageView>,
        },
{
    match key {
        Key::Character(c) => {
            if command && *c == 'q' {
                Some(Message::Quit)
            } else if *c == '?' {
                Some(Message::OpenHelp)
            } else {
                None
            }
        },
        Key::Escape => Some(Message::CloseHelp),
        Key::Other => None,
    }
}

/// The colour family in which a unit's state is drawn.
#[derive(Clone, Copy, Debug, PartialEq, Eq, Structural)]
pub enum Tone {
    Green,
    Yellow,
    Red,
    Gray,
}

/// Running and ready are green, building and starting yellow, failed red,
/// and every other state gray.
pub open spec fn tone_of(s: StateView) -> Tone {
    match s {
        StateView::Running | StateView::Ready => Tone::Green,
        StateView::Building | StateView::Starting => Tone::Yellow,
        StateView::Failed => Tone::Red,
        _ => Tone::Gray,
    }
}

/// The colour family in which a unit's state is drawn.
pub fn state_tone(state: &State) -> (r: Tone)
    ensures
        r == tone_of(state@),
{
    match state {
        State::Running | State::Ready => Tone::Green,
        State::Building | State::Starting => Tone::Yellow,
        State::Failed => Tone::Red,
        _ => Tone::Gray,
    }
}

/// What the toolbar's four controls show: their tooltips, and which icon
/// each control draws.
pub struct Toolbar {
    pub help: &'static str,
    pub mute: &'static str,
    pub notifications: &'static str,
    pub theme: &'static str,
    /// The help control is drawn highlighted.
    pub help_highlighted: bool,
    /// The sound control draws the muted speaker, else the speaker.
    pub muted_icon: bool,
    /// The notifications control draws the struck-out bell, else the bell.
    pub bell_off_icon: bool,
    /// The theme control draws the sun, else the moon.
    pub sun_icon: bool,
}

/// The tooltip of the help control.
pub open spec fn help_tip(show_help: bool) -> Seq<char> {
    if show_help { "Hide integration help"@ } else { "Integration help"@ }
}

/// The tooltip of the global mute control.
pub open spec fn mute_tip(global_mute: bool) -> Seq<char> {
    if global_mute { "Unmute all sounds"@ } else { "Mute all sounds"@ }
}

/// The tooltip of the global notifications control.
pub open spec fn notifications_tip(off: bool) -> Seq<char> {
    if off { "Enable notifications"@ } else { "Disable notifications"@ }
}

/// The tooltip of the theme control.
pub open spec fn theme_tip(dark_mode: bool) -> Seq<char> {
    if dark_mode { "Switch to light mode"@ } else { "Switch to dark mode"@ }
}

/// The tooltip of a unit's mute control.
pub open spec fn unit_mute_tip(unit_name: Seq<char>, muted: bool) -> Seq<char> {
    if muted { "Unmute "@ + unit_name } else { "Mute "@ + unit_name }
}

/// The tooltip of a unit's notifications control.
pub open spec fn unit_notifications_tip(unit_name: Seq<char>, off: bool) -> Seq<char> {
    if off {
        "Enable notifications for "@ + unit_name
    } else {
        "Disable notifications for "@ + unit_name
    }
}

impl Dashboard {
    /// Whether the dark theme is on.
    pub fn is_dark(&self) -> (r: bool)
        ensures
            r == self.dark_mode,
    {
        self.dark_mode
    }

    /// The toolbar: each tooltip names what its control would do, and each
    /// icon shows the current setting.
    pub fn toolbar(&self) -> (r: Toolbar)
        ensures
            r.help_highlighted == self.show_help,
            r.muted_icon == self@.notifier.global_mute,
            r.bell_off_icon == self@.notifier.global_notifications_off,
            r.sun_icon == self.dark_mode,
            r.help@ == help_tip(self.show_help),
            r.mute@ == mute_tip(self@.notifier.global_mute),
            r.notifications@ == notifications_tip(self@.notifier.global_notifications_off),
            r.theme@ == theme_tip(self.dark_mode),
    {
        Toolbar {
            help_highlighted: self.show_help,
            muted_icon: self.notifier.global_mute(),
            bell_off_icon: self.notifier.global_notifications_off(),
            sun_icon: self.dark_mode,
            help: if self.show_help { "Hide integration help" } else { "Integration help" },
            mute: if self.notifier.global_mute() { "Unmute all sounds" } else { "Mute all sounds" },
            notifications: if self.notifier.global_notifications_off() {
                "Enable notifications"
            } else {
                "Disable notifications"
            },
            theme: if self.dark_mode { "Switch to light mode" } else { "Switch to dark mode" },
        }
    }

    /// The tooltips of a unit's mute and notifications controls, each
    /// naming what the control would do for that unit.
    pub fn unit_tips(&self, env_id: &str, unit_name: &str) -> (r: (String, String))
        ensures
            r.0@ == unit_mute_tip(
                unit_name@,
                self@.notifier.muted_units.contains(unit_key_view(env_id@, unit_name@)),
            ),
            r.1@ == unit_notifications_tip(
                unit_name@,
                self@.notifier.notifications_off_units.contains(unit_key_view(env_id@, unit_name@)),
            ),
    {
        let mut mute = String::new();
        if self.notifier.is_unit_muted(env_id, unit_name) {
            mute.append("Unmute ");
        } else {
            mute.append("Mute ");
        }
        mute.append(unit_name);
        let mut notif = String::new();
        if self.notifier.is_unit_notifications_off(env_id, unit_name) {
            notif.append("Enable notifications for ");
        } else {
            notif.append("Disable notifications for ");
        }
        notif.append(unit_name);
        (mute, notif)
    }
}

/// The decimal digits of `n`, without leading zeros.
pub open spec fn decimal(n: nat) -> Seq<char>
    decreases n,
{
    if n < 10 {
        seq![digit_char(n)]
    } else {
        decimal(n / 10) + seq![digit_char(n % 10)]
    }
}

/// The character of a decimal digit.
pub open spec fn digit_char(d: nat) -> char {
    if d == 0 { '0' } else if d == 1 { '1' } else if d == 2 { '2' } else if d == 3 { '3' } else if d == 4 {
        '4'
    } else if d == 5 { '5' } else if d == 6 { '6' } else if d == 7 { '7' } else if d == 8 { '8' } else { '9' }
}

fn digit_str(d: u32) -> (r: &'static str)
    requires
        d < 10,
    ensures
        r@ == seq![digit_char(d as nat)],
{
    proof {
        reveal_strlit("0");
        reveal_strlit("1");
        reveal_strlit("2");
        reveal_strlit("3");
        reveal_strlit("4");
        reveal_strlit("5");
        reveal_strlit("6");
        reveal_strlit("7");
        reveal_strlit("8");
        reveal_strlit("9");
    }
    if d == 0 { "0" } else if d == 1 { "1" } else if d == 2 { "2" } else if d == 3 { "3" } else if d == 4 {
        "4"
    } else if d == 5 { "5" } else if d == 6 { "6" } else if d == 7 { "7" } else if d == 8 { "8" } else { "9" }
}

fn push_decimal(s: &mut String, n: u32)
    ensures
        final(s)@ == old(s)@ + decimal(n as nat),
    decreases n,
{
    if n >= 10 {
        push_decimal(s, n / 10);
    }
    let d = digit_str(n % 10);
    s.append(d);
}

/// The address that the open link of a unit with this port opens.
pub open spec fn browser_address_spec(port: u16) -> Seq<char> {
    "http://localhost:"@ + decimal(port as nat)
}

/// The address that the open link of a unit with this port opens:
/// `http://localhost:<port>`.
pub fn browser_address(port: u16) -> (r: String)
    ensures
        r@ == browser_address_spec(port),
{
    let mut r = "http://localhost:".to_owned();
    push_decimal(&mut r, port as u32);
    r
}

} // verus!
