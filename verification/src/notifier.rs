//! Transition detection, mute and notification toggles, and batching of
//! the resulting sounds and speech.
use vstd::prelude::*;
use vstd::hash_set::StringHashSet;
use vstd::string::StringExecFns;
use crate::state::{Environment, State, StateView, state_variant_eq};
use crate::sound::{Sound, higher, higher_priority_sound};
use crate::text::{unit_key, unit_key_view, join, join_strings};
use crate::snapshot::{
    Entry, UnitEntry, collect_snapshot, distinct_units, entries_view, find_unit, lookup, snapshot,
};

verus! {

/// The sound and the spoken word for a transition into a state, if a
/// transition into that state is announced at all.
pub open spec fn cue(s: StateView) -> Option<(Sound, Seq<char>)> {
    match s {
        StateView::Building => Some((Sound::Submarine, "building"@)),
        StateView::Starting => Some((Sound::Submarine, "starting"@)),
        StateView::Ready => Some((Sound::Ping, "ready"@)),
        StateView::Running => Some((Sound::Ping, "running"@)),
        StateView::Failed => Some((Sound::Basso, "failed"@)),
        _ => None,
    }
}

/// The sound and the spoken word for a transition into `state`, if any:
/// Submarine for building and starting, Ping for ready and running, Basso
/// for failed; no cue for stopped, unset or any other state.
pub fn transition_cue(state: &State) -> (r: Option<(Sound, &'static str)>)
    ensures
        match r {
            Some((sound, word)) => cue(state@) == Some((sound, word@)),
            None => cue(state@) is None,
        },
{
    match state {
        State::Building => Some((Sound::Submarine, "building")),
        State::Starting => Some((Sound::Submarine, "starting")),
        State::Ready => Some((Sound::Ping, "ready")),
        State::Running => Some((Sound::Ping, "running")),
        State::Failed => Some((Sound::Basso, "failed")),
        _ => None,
    }
}

/// The notification title for a unit.
pub open spec fn notice_title(unit_name: Seq<char>) -> Seq<char> {
    "sutra \u{2014} "@ + unit_name
}

/// The spoken text for a unit that entered a state announced by `word`.
pub open spec fn speech_text(unit_name: Seq<char>, word: Seq<char>) -> Seq<char> {
    unit_name + " "@ + word
}

/// The separator between the utterances of one batch.
pub open spec fn speech_separator() -> Seq<char> {
    ", "@
}

/// The value of a [`Notifier`].
pub ghost struct NotifierModel {
    pub global_mute: bool,
    pub muted_units: Set<Seq<char>>,
    pub global_notifications_off: bool,
    pub notifications_off_units: Set<Seq<char>>,
    /// The states seen at the previous call of `process`.
    pub prev: Seq<Entry>,
    /// Whether `process` has not been called yet.
    pub first_load: bool,
}

/// Whether the unit of `x` changed state since `prev`: it is new, or its
/// state differs.
pub open spec fn changed(prev: Seq<Entry>, x: Entry) -> bool {
    match lookup(prev, x.0) {
        Some(old) => old != x.1,
        None => true,
    }
}

/// Whether the entry `x` is a transition that is announced at all.
pub open spec fn fires(prev: Seq<Entry>, x: Entry) -> bool {
    changed(prev, x) && cue(x.1) is Some
}

/// Whether the unit's notifications are off, globally or for the unit.
pub open spec fn notifications_off_for(m: NotifierModel, x: Entry) -> bool {
    m.global_notifications_off || m.notifications_off_units.contains(unit_key_view(x.0.0, x.0.1))
}

/// Whether the unit's sound is muted, globally or for the unit.
pub open spec fn muted_for(m: NotifierModel, x: Entry) -> bool {
    m.global_mute || m.muted_units.contains(unit_key_view(x.0.0, x.0.1))
}

/// Whether the transition of `x` posts a notification.
pub open spec fn notifies(m: NotifierModel, x: Entry) -> bool {
    fires(m.prev, x) && !notifications_off_for(m, x)
}

/// Whether the transition of `x` joins the batch of sound and speech.
pub open spec fn speaks(m: NotifierModel, x: Entry) -> bool {
    fires(m.prev, x) && !muted_for(m, x)
}

/// The notifications posted for the entries `cur`, in order: title, body.
pub open spec fn notices_for(m: NotifierModel, cur: Seq<Entry>) -> Seq<(Seq<char>, Seq<char>)>
    decreases cur.len(),
{
    if cur.len() == 0 {
        Seq::empty()
    } else {
        let r = notices_for(m, cur.drop_last());
        let x = cur.last();
        if notifies(m, x) {
            r.push((notice_title(x.0.1), cue(x.1).unwrap().1))
        } else {
            r
        }
    }
}

/// The utterances batched for the entries `cur`, in order.
pub open spec fn speeches_for(m: NotifierModel, cur: Seq<Entry>) -> Seq<Seq<char>>
    decreases cur.len(),
{
    if cur.len() == 0 {
        Seq::empty()
    } else {
        let r = speeches_for(m, cur.drop_last());
        let x = cur.last();
        if speaks(m, x) {
            r.push(speech_text(x.0.1, cue(x.1).unwrap().1))
        } else {
            r
        }
    }
}

/// The highest-priority sound among the batched transitions of `cur`.
pub open spec fn best_sound_for(m: NotifierModel, cur: Seq<Entry>) -> Option<Sound>
    decreases cur.len(),
{
    if cur.len() == 0 {
        None
    } else {
        let r = best_sound_for(m, cur.drop_last());
        let x = cur.last();
        if speaks(m, x) {
            let s = cue(x.1).unwrap().0;
            Some(
                match r {
                    None => s,
                    Some(p) => higher(p, s),
                },
            )
        } else {
            r
        }
    }
}

/// The single batched sound and utterance for the entries `cur`, if any
/// transition was left unmuted.
pub open spec fn announcement_for(m: NotifierModel, cur: Seq<Entry>) -> Option<(Sound, Seq<char>)> {
    match best_sound_for(m, cur) {
        Some(s) => if speeches_for(m, cur).len() > 0 {
            Some((s, join(speeches_for(m, cur), speech_separator())))
        } else {
            None
        },
        None => None,
    }
}

/// What one call of `process` hands back: notifications and at most one
/// announcement.
pub ghost struct OutcomeView {
    pub notices: Seq<(Seq<char>, Seq<char>)>,
    pub announcement: Option<(Sound, Seq<char>)>,
}

/// What `process` hands back for the snapshot `cur`, from the state `m`.
pub open spec fn outcome_for(m: NotifierModel, cur: Seq<Entry>) -> OutcomeView {
    if m.first_load {
        OutcomeView { notices: Seq::empty(), announcement: None }
    } else {
        OutcomeView { notices: notices_for(m, cur), announcement: announcement_for(m, cur) }
    }
}

/// The state after `process` has seen the snapshot `cur`.
pub open spec fn after_process(m: NotifierModel, cur: Seq<Entry>) -> NotifierModel {
    NotifierModel { prev: cur, first_load: false, ..m }
}

/// A desktop notification to post.
pub struct Notice {
    pub title: String,
    pub body: String,
}

/// A sound to play, followed by the text to speak.
pub struct Announcement {
    pub sound: Sound,
    pub text: String,
}

/// What the caller is to perform after a call of `process`.
pub struct Outcome {
    pub notices: Vec<Notice>,
    pub announcement: Option<Announcement>,
}

/// The values of a sequence of notices.
pub open spec fn notices_view(v: Seq<Notice>) -> Seq<(Seq<char>, Seq<char>)> {
    v.map_values(|n: Notice| (n.title@, n.body@))
}

impl View for Outcome {
    type V = OutcomeView;

    open spec fn view(&self) -> OutcomeView {
        OutcomeView {
            notices: notices_view(self.notices@),
            announcement: match self.announcement {
                Some(a) => Some((a.sound, a.text@)),
                None => None,
            },
        }
    }
}

/// Detects state transitions between snapshots of the environments and
/// decides which notifications, sound and speech they produce.
pub struct Notifier {
    global_mute: bool,
    muted_units: StringHashSet,
    global_notifications_off: bool,
    notifications_off_units: StringHashSet,
    prev_states: Vec<UnitEntry>,
    first_load: bool,
}

impl View for Notifier {
    type V = NotifierModel;

    closed spec fn view(&self) -> NotifierModel {
        NotifierModel {
            global_mute: self.global_mute,
            muted_units: self.muted_units@,
            global_notifications_off: self.global_notifications_off,
            notifications_off_units: self.notifications_off_units@,
            prev: entries_view(self.prev_states@),
            first_load: self.first_load,
        }
    }
}

/// The value of a freshly created notifier.
pub open spec fn initial_model() -> NotifierModel {
    NotifierModel {
        global_mute: false,
        muted_units: Set::empty(),
        global_notifications_off: false,
        notifications_off_units: Set::empty(),
        prev: Seq::empty(),
        first_load: true,
    }
}

/// The set with `key` toggled: removed if present, added otherwise.
pub open spec fn toggled(s: Set<Seq<char>>, key: Seq<char>) -> Set<Seq<char>> {
    if s.contains(key) {
        s.remove(key)
    } else {
        s.insert(key)
    }
}

impl Notifier {
    /// No unit occurs twice in the previous snapshot.
    #[verifier::type_invariant]
    closed spec fn inv(&self) -> bool {
        distinct_units(entries_view(self.prev_states@))
    }

    /// A notifier with nothing muted, notifications on, and no snapshot yet.
    pub fn new() -> (r: Notifier)
        ensures
            r@ == initial_model(),
    {
        let r = Notifier {
            global_mute: false,
            muted_units: StringHashSet::new(),
            global_notifications_off: false,
            notifications_off_units: StringHashSet::new(),
            prev_states: Vec::new(),
            first_load: true,
        };
        assert(entries_view(r.prev_states@) =~= Seq::<Entry>::empty());
        r
    }

    /// Compares `envs` with the previous call's snapshot and returns what
    /// to perform. The first call only records the snapshot and returns
    /// nothing to perform. Later calls return, in the order in which units
    /// first occur, a notification for every unit that is new or changed
    /// state into building, starting, ready, running or failed, unless
    /// notifications are off for it; and, if any such unit's sound is not
    /// muted, one announcement: the highest-priority of their sounds and
    /// their utterances joined by ", ".
    pub fn process(&mut self, envs: &[Environment]) -> (out: Outcome)
        ensures
            out@ == outcome_for(old(self)@, snapshot(envs@)),
            final(self)@ == after_process(old(self)@, snapshot(envs@)),
    {
        proof {
            use_type_invariant(&*self);
        }
        let current = collect_snapshot(envs);
        let ghost cur = entries_view(current@);
        let ghost m = self@;
        if self.first_load {
            self.prev_states = current;
            self.first_load = false;
            let out = Outcome { notices: Vec::new(), announcement: None };
            assert(notices_view(out.notices@) =~= Seq::<(Seq<char>, Seq<char>)>::empty());
            return out;
        }
        let mut notices: Vec<Notice> = Vec::new();
        let mut speeches: Vec<String> = Vec::new();
        let mut best: Option<Sound> = None;
        let mut k: usize = 0;
        while k < current.len()
            invariant
                0 <= k <= current.len(),
                cur == entries_view(current@),
                m == self@,
                distinct_units(entries_view(self.prev_states@)),
                !m.first_load,
                notices_view(notices@) == notices_for(m, cur.take(k as int)),
                speeches@.map_values(|s: String| s@) == speeches_for(m, cur.take(k as int)),
                best == best_sound_for(m, cur.take(k as int)),
            decreases current.len() - k,
        {
            let entry = &current[k];
            let ghost x = cur[k as int];
            assert(cur.take(k + 1).drop_last() =~= cur.take(k as int));
            assert(cur.take(k + 1).last() == x);
            assert(entry@ == x);
            let was = find_unit(&self.prev_states, &entry.env_id, &entry.unit_name);
            let is_changed = match was {
                Some(p) => !state_variant_eq(&self.prev_states[p].state, &entry.state),
                None => true,
            };
            assert(is_changed == changed(m.prev, x));
            if is_changed {
                match transition_cue(&entry.state) {
                    Some((sound, word)) => {
                        let uk = unit_key(entry.env_id.as_str(), entry.unit_name.as_str());
                        let off = self.global_notifications_off
                            || self.notifications_off_units.contains(uk.as_str());
                        if !off {
                            let mut title = String::new();
                            let prefix = "sutra \u{2014} ";
                            title.append(prefix);
                            title.append(entry.unit_name.as_str());
                            let body = word.to_owned();
                            let ghost before = notices@;
                            notices.push(Notice { title, body });
                            assert(notices_view(notices@) =~= notices_view(before).push(
                                (title@, body@),
                            ));
                        }
                        let muted = self.global_mute || self.muted_units.contains(uk.as_str());
                        if !muted {
                            let mut text = entry.unit_name.clone();
                            text.append(" ");
                            text.append(word);
                            let ghost before = speeches@;
                            speeches.push(text);
                            assert(speeches@.map_values(|s: String| s@) =~= before.map_values(
                                |s: String| s@,
                            ).push(text@));
                            best = Some(
                                match best {
                                    None => sound,
                                    Some(prev) => higher_priority_sound(prev, sound),
                                },
                            );
                        }
                    },
                    None => {},
                }
            }
            k = k + 1;
        }
        assert(cur.take(current.len() as int) =~= cur);
        let announcement = match best {
            Some(sound) => if speeches.len() > 0 {
                Some(Announcement { sound, text: join_strings(&speeches, ", ") })
            } else {
                None
            },
            None => None,
        };
        self.prev_states = current;
        self.first_load = false;
        Outcome { notices, announcement }
    }

    /// Whether all sounds are muted.
    pub fn global_mute(&self) -> (r: bool)
        ensures
            r == self@.global_mute,
    {
        self.global_mute
    }

    /// Whether all notifications are off.
    pub fn global_notifications_off(&self) -> (r: bool)
        ensures
            r == self@.global_notifications_off,
    {
        self.global_notifications_off
    }

    /// Mutes all sounds, or unmutes them.
    pub fn toggle_global_mute(&mut self)
        ensures
            final(self)@ == (NotifierModel { global_mute: !old(self)@.global_mute, ..old(self)@ }),
    {
        proof {
            use_type_invariant(&*self);
        }
        self.global_mute = !self.global_mute;
    }

    /// Mutes the unit's sound, or unmutes it.
    pub fn toggle_unit_mute(&mut self, env_id: &str, unit_name: &str)
        ensures
            final(self)@ == (NotifierModel {
                muted_units: toggled(old(self)@.muted_units, unit_key_view(env_id@, unit_name@)),
                ..old(self)@
            }),
    {
        let key = unit_key(env_id, unit_name);
        proof {
            use_type_invariant(&*self);
        }
        let mut set = StringHashSet::new();
        std::mem::swap(&mut set, &mut self.muted_units);
        if !set.remove(key.as_str()) {
            set.insert(key);
        }
        self.muted_units = set;
        proof {
            let k = unit_key_view(env_id@, unit_name@);
            assert(self.muted_units@ =~= toggled(old(self)@.muted_units, k));
        }
    }

    /// Whether the unit's sound is muted (apart from the global mute).
    pub fn is_unit_muted(&self, env_id: &str, unit_name: &str) -> (r: bool)
        ensures
            r == self@.muted_units.contains(unit_key_view(env_id@, unit_name@)),
    {
        self.muted_units.contains(unit_key(env_id, unit_name).as_str())
    }

    /// Turns all notifications off, or on again.
    pub fn toggle_global_notifications(&mut self)
        ensures
            final(self)@ == (NotifierModel {
                global_notifications_off: !old(self)@.global_notifications_off,
                ..old(self)@
            }),
    {
        proof {
            use_type_invariant(&*self);
        }
        self.global_notifications_off = !self.global_notifications_off;
    }

    /// Turns the unit's notifications off, or on again.
    pub fn toggle_unit_notifications(&mut self, env_id: &str, unit_name: &str)
        ensures
            final(self)@ == (NotifierModel {
                notifications_off_units: toggled(
                    old(self)@.notifications_off_units,
                    unit_key_view(env_id@, unit_name@),
                ),
                ..old(self)@
            }),
    {
        let key = unit_key(env_id, unit_name);
        proof {
            use_type_invariant(&*self);
        }
        let mut set = StringHashSet::new();
        std::mem::swap(&mut set, &mut self.notifications_off_units);
        if !set.remove(key.as_str()) {
            set.insert(key);
        }
        self.notifications_off_units = set;
        proof {
            let k = unit_key_view(env_id@, unit_name@);
            assert(self.notifications_off_units@ =~= toggled(
                old(self)@.notifications_off_units,
                k,
            ));
        }
    }

    /// Whether the unit's notifications are off (apart from the global switch).
    pub fn is_unit_notifications_off(&self, env_id: &str, unit_name: &str) -> (r: bool)
        ensures
            r == self@.notifications_off_units.contains(unit_key_view(env_id@, unit_name@)),
    {
        self.notifications_off_units.contains(unit_key(env_id, unit_name).as_str())
    }
}

impl Default for Notifier {
    /// Same as [`Notifier::new`].
    fn default() -> (r: Notifier)
        ensures
            r@ == initial_model(),
    {
        Notifier::new()
    }
}

} // verus!
