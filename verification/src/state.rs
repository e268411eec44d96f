//! Unit states and the environments that carry them.
use vstd::prelude::*;

verus! {

/// The state a unit advertises in its status file.
#[derive(Debug, PartialEq, Eq)]
pub enum State {
    Unset,
    Building,
    Starting,
    Ready,
    Running,
    Failed,
    Stopped,
    Other(String),
}

/// The mathematical value of a [`State`].
pub ghost enum StateView {
    Unset,
    Building,
    Starting,
    Ready,
    Running,
    Failed,
    Stopped,
    Other(Seq<char>),
}

impl View for State {
    type V = StateView;

    open spec fn view(&self) -> StateView {
        match self {
            State::Unset => StateView::Unset,
            State::Building => StateView::Building,
            State::Starting => StateView::Starting,
            State::Ready => StateView::Ready,
            State::Running => StateView::Running,
            State::Failed => StateView::Failed,
            State::Stopped => StateView::Stopped,
            State::Other(s) => StateView::Other(s@),
        }
    }
}

/// The text of a state as a unit row shows it: the canonical word of a
/// known state, the word as written for any other state, and nothing for
/// an unset state.
pub open spec fn state_label(s: StateView) -> Seq<char> {
    match s {
        StateView::Unset => Seq::empty(),
        StateView::Building => "building"@,
        StateView::Starting => "starting"@,
        StateView::Ready => "ready"@,
        StateView::Running => "running"@,
        StateView::Failed => "failed"@,
        StateView::Stopped => "stopped"@,
        StateView::Other(w) => w,
    }
}

impl State {
    /// The text of this state as a unit row shows it.
    pub fn label(&self) -> (r: String)
        ensures
            r@ == state_label(self@),
    {
        match self {
            State::Unset => String::new(),
            State::Building => "building".to_owned(),
            State::Starting => "starting".to_owned(),
            State::Ready => "ready".to_owned(),
            State::Running => "running".to_owned(),
            State::Failed => "failed".to_owned(),
            State::Stopped => "stopped".to_owned(),
            State::Other(w) => w.clone(),
        }
    }

    /// A copy of this state.
    pub fn duplicate(&self) -> (r: State)
        ensures
            r@ == self@,
    {
        match self {
            State::Unset => State::Unset,
            State::Building => State::Building,
            State::Starting => State::Starting,
            State::Ready => State::Ready,
            State::Running => State::Running,
            State::Failed => State::Failed,
            State::Stopped => State::Stopped,
            State::Other(s) => State::Other(s.clone()),
        }
    }
}

/// Compares two states by variant, and by the inner text for `Other`.
///
/// Every variant but `Other` carries no data, so this is exactly equality
/// of the two states' values.
pub fn state_variant_eq(a: &State, b: &State) -> (r: bool)
    ensures
        r == (a@ == b@),
{
    match (a, b) {
        (State::Other(x), State::Other(y)) => *x == *y,
        (State::Unset, State::Unset) => true,
        (State::Building, State::Building) => true,
        (State::Starting, State::Starting) => true,
        (State::Ready, State::Ready) => true,
        (State::Running, State::Running) => true,
        (State::Failed, State::Failed) => true,
        (State::Stopped, State::Stopped) => true,
        _ => false,
    }
}

/// One unit of an environment: its name, its state and the free-form detail
/// that follows the state in the status file.
pub struct UnitStatus {
    pub name: String,
    pub state: State,
    pub detail: Option<String>,
}

/// An environment: its identifier, its units, its supervisor's process
/// identifier and whether that process is alive, and the ports it declares.
pub struct Environment {
    pub id: String,
    pub units: Vec<UnitStatus>,
    /// The supervisor's process identifier.
    pub pid: u32,
    /// Whether the supervisor process is alive.
    pub alive: bool,
    /// The project's directory.
    pub dir: String,
    /// When the environment started, in Unix seconds, if known.
    pub started: Option<u64>,
    /// The declared ports, each with the name before `_PORT` in its key
    /// (`SERVER` for `SERVER_PORT`), in the order declared.
    pub ports: Vec<(String, u16)>,
}

} // verus!
