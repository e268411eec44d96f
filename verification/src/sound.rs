//! The system sounds played on transitions, and their priority.
use vstd::prelude::*;

verus! {

/// A macOS system sound, played when a unit changes state.
#[derive(Clone, Copy, Debug, PartialEq, Eq, Structural)]
pub enum Sound {
    /// Played when a unit starts or builds.
    Submarine,
    /// Played when a unit becomes ready or running.
    Ping,
    /// Played when a unit fails.
    Basso,
}

/// Priority of a sound: failure outranks readiness, which outranks progress.
pub open spec fn priority(s: Sound) -> int {
    match s {
        Sound::Basso => 2,
        Sound::Ping => 1,
        Sound::Submarine => 0,
    }
}

/// The higher-priority sound of two; the first one on equal priority.
pub open spec fn higher(a: Sound, b: Sound) -> Sound {
    if priority(b) > priority(a) {
        b
    } else {
        a
    }
}

/// Choosing the higher-priority sound does not depend on the order in which
/// sounds are compared: it is commutative and associative, and returns the
/// sound of top priority.
pub proof fn law_higher_is_order_independent(a: Sound, b: Sound, c: Sound)
    ensures
        higher(a, b) == higher(b, a),
        higher(higher(a, b), c) == higher(a, higher(b, c)),
        priority(higher(a, b)) >= priority(a),
        priority(higher(a, b)) >= priority(b),
{
}

/// The system sound's file name, without directory or extension.
pub open spec fn sound_name(s: Sound) -> Seq<char> {
    match s {
        Sound::Submarine => "Submarine"@,
        Sound::Ping => "Ping"@,
        Sound::Basso => "Basso"@,
    }
}

impl Sound {
    /// The system sound's file name, without directory or extension.
    pub fn name(&self) -> (r: &'static str)
        ensures
            r@ == sound_name(*self),
    {
        match self {
            Sound::Submarine => "Submarine",
            Sound::Ping => "Ping",
            Sound::Basso => "Basso",
        }
    }
}

/// The priority of a sound.
pub fn sound_priority(s: Sound) -> (r: u8)
    ensures
        r == priority(s),
{
    match s {
        Sound::Basso => 2,
        Sound::Ping => 1,
        Sound::Submarine => 0,
    }
}

/// The higher-priority sound of two: Basso > Ping > Submarine.
/// On equal priority the first one is kept.
pub fn higher_priority_sound(a: Sound, b: Sound) -> (r: Sound)
    ensures
        r == higher(a, b),
{
    if sound_priority(b) > sound_priority(a) {
        b
    } else {
        a
    }
}

} // verus!
