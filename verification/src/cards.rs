//! What each screen, environment card and unit row of the dashboard shows,
//! worked out from plain values before anything is drawn.
use vstd::prelude::*;
use crate::state::{Environment, State, StateView, UnitStatus, state_label};
use crate::registry::{chars_of, substring};
use crate::dashboard::{
    Message, MessageView, Dashboard, DashboardView, Tone, state_tone, tone_of, unit_mute_tip, unit_notifications_tip,
};
use crate::text::unit_key_view;

verus! {

/// A string in lower case, as `str::to_lowercase` of Rust's standard
/// library writes it (Unicode lower-case mapping).
pub uninterp spec fn lowercase(s: Seq<char>) -> Seq<char>;

/// Calls `str::to_lowercase` of the standard library. The contract only
/// names the result: the Unicode mapping it applies is not written out.
#[verifier::external_body]
fn to_lowercase(s: &str) -> (r: String)
    ensures
        r@ == lowercase(s@),
{
    s.to_lowercase()
}

/// Whether a port's name, in lower case, is the unit's name
/// (`SERVER` for the unit `server`).
pub open spec fn port_name_matches(port_name: Seq<char>, unit_name: Seq<char>) -> bool {
    lowercase(port_name) == unit_name
}

/// The port of the first declared port whose name matches the unit's name.
pub open spec fn port_for_spec(ports: Seq<(Seq<char>, u16)>, unit_name: Seq<char>) -> Option<u16>
    decreases ports.len(),
{
    if ports.len() == 0 {
        None
    } else if port_name_matches(ports[0].0, unit_name) {
        Some(ports[0].1)
    } else {
        port_for_spec(ports.drop_first(), unit_name)
    }
}

/// The declared ports of an environment, by value.
pub open spec fn ports_view(env: Environment) -> Seq<(Seq<char>, u16)> {
    env.ports@.map_values(|p: (String, u16)| (p.0@, p.1))
}

fn name_matches(port_name: &String, unit_name: &String) -> (r: bool)
    ensures
        r == port_name_matches(port_name@, unit_name@),
{
    to_lowercase(port_name.as_str()) == *unit_name
}

/// The port declared for a unit: the first declared port whose name, in
/// lower case, is the unit's name.
pub fn port_for(env: &Environment, unit_name: &String) -> (r: Option<u16>)
    ensures
        r == port_for_spec(ports_view(*env), unit_name@),
{
    let ghost all = ports_view(*env);
    let mut i: usize = 0;
    assert(all.skip(0) =~= all);
    while i < env.ports.len()
        invariant
            0 <= i <= env.ports.len(),
            all == ports_view(*env),
            all.len() == env.ports.len(),
            port_for_spec(all, unit_name@) == port_for_spec(all.skip(i as int), unit_name@),
        decreases env.ports.len() - i,
    {
        let ghost rest = all.skip(i as int);
        assert(rest[0] == all[i as int]);
        assert(rest.drop_first() =~= all.skip(i + 1));
        assert(all[i as int] == (env.ports@[i as int].0@, env.ports@[i as int].1));
        if name_matches(&env.ports[i].0, unit_name) {
            return Some(env.ports[i].1);
        }
        i = i + 1;
    }
    assert(all.skip(i as int) =~= Seq::<(Seq<char>, u16)>::empty());
    None
}

/// What one unit row shows.
pub struct RowView {
    pub name: String,
    pub state: State,
    /// The state's text.
    pub label: String,
    /// The colour family of the state and its indicator.
    pub tone: Tone,
    /// The unit's sound is muted: its name is dimmed and its speaker
    /// struck out.
    pub muted: bool,
    /// The unit's notifications are off: its bell is struck out.
    pub notifications_off: bool,
    pub mute_tip: String,
    pub notifications_tip: String,
    /// The detail after the state, shown when present.
    pub detail: Option<String>,
    /// The unit's port: shown as `:port`, with a link that opens it.
    pub port: Option<u16>,
    /// The pointer is over this row, which is highlighted.
    pub hovered: bool,
}

/// The value of a [`RowView`].
pub ghost struct RowModel {
    pub name: Seq<char>,
    pub state: StateView,
    pub label: Seq<char>,
    pub tone: Tone,
    pub muted: bool,
    pub notifications_off: bool,
    pub mute_tip: Seq<char>,
    pub notifications_tip: Seq<char>,
    pub detail: Option<Seq<char>>,
    pub port: Option<u16>,
    pub hovered: bool,
}

impl View for RowView {
    type V = RowModel;

    open spec fn view(&self) -> RowModel {
        RowModel {
            name: self.name@,
            state: self.state@,
            label: self.label@,
            tone: self.tone,
            muted: self.muted,
            notifications_off: self.notifications_off,
            mute_tip: self.mute_tip@,
            notifications_tip: self.notifications_tip@,
            detail: match self.detail {
                Some(t) => Some(t@),
                None => None,
            },
            port: self.port,
            hovered: self.hovered,
        }
    }
}

/// What an environment's card shows.
pub struct CardView {
    /// The colour of the live indicator: green while the supervisor is
    /// alive, gray once it is gone.
    pub live_tone: Tone,
    /// The environment's name.
    pub name: String,
    /// Seconds since the environment started, when its start is known.
    pub elapsed: Option<u64>,
    /// The process identifier the stop control signals; the control is
    /// shown only for a live environment.
    pub terminate: Option<u32>,
    /// The stop control's tooltip.
    pub terminate_tip: &'static str,
    /// One row per unit, in the environment's order.
    pub rows: Vec<RowView>,
    /// Some unit has a port, so the rows keep a column for ports.
    pub has_any_port: bool,
}

/// The value of a [`CardView`].
pub ghost struct CardModel {
    pub live_tone: Tone,
    pub name: Seq<char>,
    pub elapsed: Option<u64>,
    pub terminate: Option<u32>,
    pub terminate_tip: Seq<char>,
    pub rows: Seq<RowModel>,
    pub has_any_port: bool,
}

impl View for CardView {
    type V = CardModel;

    open spec fn view(&self) -> CardModel {
        CardModel {
            live_tone: self.live_tone,
            name: self.name@,
            elapsed: self.elapsed,
            terminate: self.terminate,
            terminate_tip: self.terminate_tip@,
            rows: self.rows@.map_values(|r: RowView| r@),
            has_any_port: self.has_any_port,
        }
    }
}

/// What the row of unit `u` of environment `env` shows on dashboard `d`.
pub open spec fn row_spec(d: DashboardView, env: Environment, u: UnitStatus) -> RowModel {
    let key = unit_key_view(env.id@, u.name@);
    let muted = d.notifier.muted_units.contains(key);
    let off = d.notifier.notifications_off_units.contains(key);
    RowModel {
        name: u.name@,
        state: u.state@,
        label: state_label(u.state@),
        tone: tone_of(u.state@),
        muted,
        notifications_off: off,
        mute_tip: unit_mute_tip(u.name@, muted),
        notifications_tip: unit_notifications_tip(u.name@, off),
        detail: match u.detail {
            Some(t) => Some(t@),
            None => None,
        },
        port: port_for_spec(ports_view(env), u.name@),
        hovered: d.hovered_unit == Some((env.id@, u.name@)),
    }
}

/// The end of `d[..j]` without trailing slashes.
pub open spec fn strip_slashes(d: Seq<char>, j: int) -> int
    decreases j,
{
    if j > 0 && d[j - 1] == '/' {
        strip_slashes(d, j - 1)
    } else {
        j
    }
}

/// Where the last path component of `d[..j]` starts: after its last slash.
pub open spec fn component_start(d: Seq<char>, j: int) -> int
    decreases j,
{
    if j <= 0 {
        0
    } else if d[j - 1] == '/' {
        j
    } else {
        component_start(d, j - 1)
    }
}

/// The last component of a path, trailing slashes ignored.
pub open spec fn basename(d: Seq<char>) -> Seq<char> {
    let end = strip_slashes(d, d.len() as int);
    d.subrange(component_start(d, end), end)
}

/// An environment's name: the last component of its directory, or its
/// identifier when the directory has none.
pub open spec fn display_name_spec(env: Environment) -> Seq<char> {
    if basename(env.dir@).len() == 0 {
        env.id@
    } else {
        basename(env.dir@)
    }
}

/// Seconds from `started` to `now`, none when the start is unknown, and
/// zero for a start after `now`.
pub open spec fn elapsed_spec(started: Option<u64>, now: u64) -> Option<u64> {
    match started {
        Some(t) => Some(if now >= t { (now - t) as u64 } else { 0 }),
        None => None,
    }
}

/// What the card of environment `env` shows on dashboard `d` at time `now`
/// (Unix seconds).
pub open spec fn card_spec(d: DashboardView, env: Environment, now: u64) -> CardModel {
    CardModel {
        live_tone: if env.alive { Tone::Green } else { Tone::Gray },
        name: display_name_spec(env),
        elapsed: elapsed_spec(env.started, now),
        terminate: if env.alive { Some(env.pid) } else { None },
        terminate_tip: "Terminate environment"@,
        rows: Seq::new(env.units@.len(), |j: int| row_spec(d, env, env.units@[j])),
        has_any_port: exists|j: int| 0 <= j < env.units@.len()
            && (#[trigger] port_for_spec(ports_view(env), env.units@[j].name@)) is Some,
    }
}

fn copy_detail(detail: &Option<String>) -> (r: Option<String>)
    ensures
        match r {
            Some(t) => detail matches Some(s) && t@ == s@,
            None => detail is None,
        },
{
    match detail {
        Some(s) => Some(s.clone()),
        None => None,
    }
}

fn is_hovered(d: &Dashboard, env_id: &String, unit_name: &String) -> (r: bool)
    ensures
        r == (d@.hovered_unit == Some((env_id@, unit_name@))),
{
    match &d.hovered_unit {
        Some((e, u)) => *e == *env_id && *u == *unit_name,
        None => false,
    }
}

/// What the row of `unit`, in environment `env`, shows.
pub fn row(d: &Dashboard, env: &Environment, unit: &UnitStatus) -> (r: RowView)
    ensures
        r@ == row_spec(d@, *env, *unit),
{
    let muted = d.notifier.is_unit_muted(env.id.as_str(), unit.name.as_str());
    let off = d.notifier.is_unit_notifications_off(env.id.as_str(), unit.name.as_str());
    let (mute_tip, notifications_tip) = d.unit_tips(env.id.as_str(), unit.name.as_str());
    RowView {
        name: unit.name.clone(),
        state: unit.state.duplicate(),
        label: unit.state.label(),
        tone: state_tone(&unit.state),
        muted,
        notifications_off: off,
        mute_tip,
        notifications_tip,
        detail: copy_detail(&unit.detail),
        port: port_for(env, &unit.name),
        hovered: is_hovered(d, &env.id, &unit.name),
    }
}

/// The name of an environment.
pub fn display_name(env: &Environment) -> (r: String)
    ensures
        r@ == display_name_spec(*env),
{
    let cs = chars_of(env.dir.as_str());
    let ghost d = cs@;
    let mut end = cs.len();
    while end > 0 && cs[end - 1] == '/'
        invariant
            0 <= end <= cs@.len(),
            d == cs@,
            strip_slashes(d, cs@.len() as int) == strip_slashes(d, end as int),
        decreases end,
    {
        end = end - 1;
    }
    let mut start = end;
    while start > 0 && cs[start - 1] != '/'
        invariant
            0 <= start <= end <= cs@.len(),
            d == cs@,
            component_start(d, end as int) == component_start(d, start as int),
        decreases start,
    {
        start = start - 1;
    }
    if start == end {
        env.id.clone()
    } else {
        substring(env.dir.as_str(), start, end)
    }
}

/// Seconds from `started` to `now`.
pub fn elapsed(started: Option<u64>, now: u64) -> (r: Option<u64>)
    ensures
        r == elapsed_spec(started, now),
{
    match started {
        Some(t) => Some(if now >= t { now - t } else { 0 }),
        None => None,
    }
}

/// What the card of `env` shows at time `now` (Unix seconds): the live
/// indicator, the name and the time since the start; a stop control for a
/// live environment, sending its process identifier; and one row per unit,
/// in order.
pub fn card(d: &Dashboard, env: &Environment, now: u64) -> (c: CardView)
    ensures
        c@ == card_spec(d@, *env, now),
{
    let mut rows: Vec<RowView> = Vec::new();
    let mut any_port = false;
    let mut j: usize = 0;
    while j < env.units.len()
        invariant
            0 <= j <= env.units.len(),
            rows@.len() == j,
            forall|k: int| 0 <= k < j ==> (#[trigger] rows@[k])@ == row_spec(d@, *env, env.units@[k]),
            any_port == exists|k: int| 0 <= k < j
                && (#[trigger] port_for_spec(ports_view(*env), env.units@[k].name@)) is Some,
        decreases env.units.len() - j,
    {
        let r = row(d, env, &env.units[j]);
        if r.port.is_some() {
            any_port = true;
        }
        rows.push(r);
        proof {
            if !any_port {
                assert forall|k: int| 0 <= k < j + 1 implies !(#[trigger] port_for_spec(
                    ports_view(*env),
                    env.units@[k].name@,
                ) is Some) by {
                    if k == j {
                    }
                }
            } else {
                if port_for_spec(ports_view(*env), env.units@[j as int].name@) is Some {
                    assert(0 <= j < j + 1);
                }
            }
        }
        j = j + 1;
    }
    let c = CardView {
        live_tone: if env.alive { Tone::Green } else { Tone::Gray },
        name: display_name(env),
        elapsed: elapsed(env.started, now),
        terminate_tip: "Terminate environment",
        terminate: if env.alive { Some(env.pid) } else { None },
        rows,
        has_any_port: any_port,
    };
    assert(c@.rows =~= card_spec(d@, *env, now).rows);
    c
}

/// Which screen the dashboard shows.
#[derive(Clone, Copy, Debug, PartialEq, Eq, Structural)]
pub enum Screen {
    /// The integration help panel.
    Help,
    /// The message that no environment was found.
    Empty,
    /// One card per environment.
    Cards,
}

/// The help panel while it is open; otherwise the empty message when no
/// environment is loaded, else the cards.
pub open spec fn screen_spec(show_help: bool, n_envs: nat) -> Screen {
    if show_help {
        Screen::Help
    } else if n_envs == 0 {
        Screen::Empty
    } else {
        Screen::Cards
    }
}

/// Which screen the dashboard shows with `n_envs` environments loaded.
pub fn screen(d: &Dashboard, n_envs: usize) -> (s: Screen)
    ensures
        s == screen_spec(d.show_help, n_envs as nat),
{
    if d.show_help {
        Screen::Help
    } else if n_envs == 0 {
        Screen::Empty
    } else {
        Screen::Cards
    }
}

/// The label of the help prompt's copy control, and whether it shows the
/// check mark: `Copied!` with the mark right after copying, else `Copy`.
pub fn copy_button(d: &Dashboard) -> (r: (&'static str, bool))
    ensures
        r.1 == d.copied_flash,
        r.0@ == (if d.copied_flash { "Copied!"@ } else { "Copy"@ }),
{
    if d.copied_flash {
        ("Copied!", true)
    } else {
        ("Copy", false)
    }
}

/// The cards of the environments, one per environment, in order, at time
/// `now` (Unix seconds).
pub fn cards(d: &Dashboard, envs: &[Environment], now: u64) -> (r: Vec<CardView>)
    ensures
        r@.len() == envs@.len(),
        forall|i: int| 0 <= i < envs@.len() ==> (#[trigger] r@[i])@ == card_spec(d@, envs@[i], now),
{
    let mut r: Vec<CardView> = Vec::new();
    let mut i: usize = 0;
    while i < envs.len()
        invariant
            0 <= i <= envs@.len(),
            r@.len() == i,
            forall|k: int| 0 <= k < i ==> (#[trigger] r@[k])@ == card_spec(d@, envs@[k], now),
        decreases envs.len() - i,
    {
        r.push(card(d, &envs[i], now));
        i = i + 1;
    }
    r
}

/// The folder named on the empty screen: the state folder's path when it
/// is known, else `~/.dev-runner/`.
pub open spec fn watched_label(dir: Option<Seq<char>>) -> Seq<char> {
    match dir {
        Some(p) => p,
        None => "~/.dev-runner/"@,
    }
}

/// The two lines of the empty screen, given the state folder's path if it
/// is known: `No environments found.` and `Watching <folder> for
/// environments`.
pub fn empty_screen_text(dir: Option<&str>) -> (r: (&'static str, String))
    ensures
        r.0@ == "No environments found."@,
        r.1@ == "Watching "@ + watched_label(match dir {
            Some(p) => Some(p@),
            None => None,
        }) + " for environments"@,
{
    let mut line = String::new();
    line.append("Watching ");
    match dir {
        Some(p) => line.append(p),
        None => line.append("~/.dev-runner/"),
    }
    line.append(" for environments");
    ("No environments found.", line)
}

/// The prompt that the help panel offers to copy into a code agent.
pub open spec fn help_prompt_text() -> Seq<char> {
    "Make my project's dev script sutra-compatible by following:\nhttps://raw.githubusercontent.com/synestheticsystems/sutra/main/docs/INTEGRATION.md\n\nIf a dev script already exists, update it. Otherwise create one.\n"@
}

/// The address of the integration guide that the help panel links to.
pub open spec fn help_link_text() -> Seq<char> {
    "https://github.com/synestheticsystems/sutra/blob/main/docs/INTEGRATION.md"@
}

/// The prompt that the help panel offers to copy into a code agent.
pub fn help_prompt() -> (r: &'static str)
    ensures
        r@ == help_prompt_text(),
{
    "Make my project's dev script sutra-compatible by following:\nhttps://raw.githubusercontent.com/synestheticsystems/sutra/main/docs/INTEGRATION.md\n\nIf a dev script already exists, update it. Otherwise create one.\n"
}

/// The address of the integration guide that the help panel links to.
pub fn help_link() -> (r: &'static str)
    ensures
        r@ == help_link_text(),
{
    "https://github.com/synestheticsystems/sutra/blob/main/docs/INTEGRATION.md"
}

/// The event of the help panel's copy control: copy the whole prompt.
pub fn help_copy_message() -> (m: Message)
    ensures
        m@ == MessageView::CopyToClipboard(help_prompt_text()),
{
    Message::CopyToClipboard(help_prompt().to_owned())
}

/// The event of the help panel's link: open the integration guide.
pub fn help_link_message() -> (m: Message)
    ensures
        m@ == MessageView::OpenUrl(help_link_text()),
{
    Message::OpenUrl(help_link().to_owned())
}

} // verus!
