//! Properties of the notifier that relate several calls or settings.
use vstd::prelude::*;
use crate::sound::{Sound, priority};
use crate::state::Environment;
use crate::text::unit_key_view;
use crate::snapshot::{
    Entry, UnitId, collapse, distinct_units, flatten, has_unit, lookup, snapshot, unit_entries,
    unit_pos, lemma_collapse_distinct, lemma_unit_pos_unique,
};
use crate::dashboard::{DashboardView, EffectView, MessageView, max_signal_pid, step};
use crate::notifier::{
    NotifierModel, OutcomeView, after_process, best_sound_for, changed, cue, initial_model,
    notices_for, notifies, outcome_for, speaks, speeches_for, toggled,
};

verus! {

/// Toggling a unit's setting twice restores it.
pub proof fn law_toggle_twice_restores(s: Set<Seq<char>>, key: Seq<char>)
    ensures
        toggled(toggled(s, key), key) == s,
{
    assert(toggled(toggled(s, key), key) =~= s);
}

/// Toggling a unit's setting flips that unit's setting and leaves every
/// other key as it was.
pub proof fn law_toggle_flips_only_its_key(s: Set<Seq<char>>, key: Seq<char>, other: Seq<char>)
    ensures
        toggled(s, key).contains(key) == !s.contains(key),
        other != key ==> toggled(s, key).contains(other) == s.contains(other),
{
}

/// Units of environments whose identifiers hold no NUL character have
/// distinct setting keys; so toggling one such unit leaves the others'
/// settings alone.
pub proof fn law_unit_keys_distinct(e1: Seq<char>, u1: Seq<char>, e2: Seq<char>, u2: Seq<char>)
    requires
        !e1.contains('\0'),
        !e2.contains('\0'),
        (e1, u1) != (e2, u2),
    ensures
        unit_key_view(e1, u1) != unit_key_view(e2, u2),
{
    let k1 = unit_key_view(e1, u1);
    let k2 = unit_key_view(e2, u2);
    if k1 == k2 {
        assert(k1[e1.len() as int] == '\0');
        assert(k2[e2.len() as int] == '\0');
        if e1.len() < e2.len() {
            assert(k2[e1.len() as int] == e2[e1.len() as int]);
            assert(e2.contains('\0'));
        } else if e2.len() < e1.len() {
            assert(k1[e2.len() as int] == e1[e2.len() as int]);
            assert(e1.contains('\0'));
        } else {
            assert(e1 =~= k1.take(e1.len() as int));
            assert(e2 =~= k2.take(e2.len() as int));
            assert(u1 =~= k1.skip(e1.len() as int + 1));
            assert(u2 =~= k2.skip(e2.len() as int + 1));
        }
    }
}

/// The first call of `process` on a fresh notifier is silent: it only
/// records the snapshot.
pub proof fn law_first_load_is_silent(cur: Seq<Entry>)
    ensures
        outcome_for(initial_model(), cur) == (OutcomeView { notices: Seq::empty(), announcement: None }),
        after_process(initial_model(), cur).prev == cur,
        !after_process(initial_model(), cur).first_load,
{
}

proof fn lemma_nothing_changed(m: NotifierModel, cur: Seq<Entry>, k: int)
    requires
        m.prev == cur,
        distinct_units(cur),
        0 <= k <= cur.len(),
    ensures
        notices_for(m, cur.take(k)) == Seq::<(Seq<char>, Seq<char>)>::empty(),
        speeches_for(m, cur.take(k)) == Seq::<Seq<char>>::empty(),
        best_sound_for(m, cur.take(k)) == None::<Sound>,
    decreases k,
{
    if k > 0 {
        lemma_nothing_changed(m, cur, k - 1);
        assert(cur.take(k).drop_last() =~= cur.take(k - 1));
        lemma_unit_pos_unique(cur, k - 1);
        assert(!changed(m.prev, cur.take(k).last()));
    }
}

/// Processing a snapshot equal to the previous one posts nothing and plays
/// nothing.
pub proof fn law_unchanged_is_silent(m: NotifierModel, cur: Seq<Entry>)
    requires
        m.prev == cur,
        distinct_units(cur),
    ensures
        outcome_for(m, cur) == (OutcomeView { notices: Seq::empty(), announcement: None }),
{
    lemma_nothing_changed(m, cur, cur.len() as int);
    assert(cur.take(cur.len() as int) =~= cur);
}

/// Two lists of environments that differ at most in the units' details.
pub open spec fn same_but_details(a: Seq<Environment>, b: Seq<Environment>) -> bool {
    &&& a.len() == b.len()
    &&& forall|i: int| 0 <= i < a.len() ==> {
        &&& (#[trigger] a[i]).id@ == b[i].id@
        &&& a[i].units.len() == b[i].units.len()
        &&& forall|j: int| 0 <= j < a[i].units.len() ==> {
            &&& (#[trigger] a[i].units@[j]).name@ == b[i].units@[j].name@
            &&& a[i].units@[j].state@ == b[i].units@[j].state@
        }
    }
}

proof fn lemma_flatten_ignores_details(a: Seq<Environment>, b: Seq<Environment>)
    requires
        same_but_details(a, b),
    ensures
        flatten(a) == flatten(b),
    decreases a.len(),
{
    if a.len() > 0 {
        let a2 = a.drop_last();
        let b2 = b.drop_last();
        assert forall|i: int| 0 <= i < a2.len() implies {
            &&& (#[trigger] a2[i]).id@ == b2[i].id@
            &&& a2[i].units.len() == b2[i].units.len()
            &&& forall|j: int| 0 <= j < a2[i].units.len() ==> {
                &&& (#[trigger] a2[i].units@[j]).name@ == b2[i].units@[j].name@
                &&& a2[i].units@[j].state@ == b2[i].units@[j].state@
            }
        } by {
            assert(a2[i] == a[i]);
            assert(b2[i] == b[i]);
        }
        lemma_flatten_ignores_details(a2, b2);
        let ea = a.last();
        let eb = b.last();
        assert(a.last() == a[a.len() - 1]);
        assert(b.last() == b[b.len() - 1]);
        assert forall|j: int| 0 <= j < ea.units.len() implies #[trigger] unit_entries(ea)[j]
            == unit_entries(eb)[j] by {
            assert(ea.units@[j] == a[a.len() - 1].units@[j]);
        }
        assert(unit_entries(ea) =~= unit_entries(eb));
    }
}

/// Rewriting status files so that only the details change fires no
/// transition: the snapshot ignores details, so the next `process` after
/// one that saw `a` posts nothing and plays nothing for `b`.
pub proof fn law_detail_changes_are_silent(m: NotifierModel, a: Seq<Environment>, b: Seq<Environment>)
    requires
        same_but_details(a, b),
    ensures
        snapshot(a) == snapshot(b),
        outcome_for(after_process(m, snapshot(a)), snapshot(b)) == (OutcomeView {
            notices: Seq::empty(),
            announcement: None,
        }),
{
    lemma_flatten_ignores_details(a, b);
    lemma_collapse_distinct(flatten(a));
    law_unchanged_is_silent(after_process(m, snapshot(a)), snapshot(b));
}

/// Two notifiers that differ only in their sound settings.
pub open spec fn same_but_sound(m1: NotifierModel, m2: NotifierModel) -> bool {
    &&& m1.global_notifications_off == m2.global_notifications_off
    &&& m1.notifications_off_units == m2.notifications_off_units
    &&& m1.prev == m2.prev
    &&& m1.first_load == m2.first_load
}

/// Two notifiers that differ only in their notification settings.
pub open spec fn same_but_notifications(m1: NotifierModel, m2: NotifierModel) -> bool {
    &&& m1.global_mute == m2.global_mute
    &&& m1.muted_units == m2.muted_units
    &&& m1.prev == m2.prev
    &&& m1.first_load == m2.first_load
}

proof fn lemma_notices_ignore_sound(m1: NotifierModel, m2: NotifierModel, cur: Seq<Entry>)
    requires
        same_but_sound(m1, m2),
    ensures
        notices_for(m1, cur) == notices_for(m2, cur),
    decreases cur.len(),
{
    if cur.len() > 0 {
        lemma_notices_ignore_sound(m1, m2, cur.drop_last());
    }
}

proof fn lemma_sound_ignores_notifications(m1: NotifierModel, m2: NotifierModel, cur: Seq<Entry>)
    requires
        same_but_notifications(m1, m2),
    ensures
        speeches_for(m1, cur) == speeches_for(m2, cur),
        best_sound_for(m1, cur) == best_sound_for(m2, cur),
    decreases cur.len(),
{
    if cur.len() > 0 {
        lemma_sound_ignores_notifications(m1, m2, cur.drop_last());
    }
}

/// Muting sounds, globally or per unit, does not change which
/// notifications are posted.
pub proof fn law_notifications_independent_of_mute(m1: NotifierModel, m2: NotifierModel, cur: Seq<Entry>)
    requires
        same_but_sound(m1, m2),
    ensures
        outcome_for(m1, cur).notices == outcome_for(m2, cur).notices,
{
    lemma_notices_ignore_sound(m1, m2, cur);
}

/// Turning notifications off, globally or per unit, does not change what
/// is played and spoken.
pub proof fn law_sound_independent_of_notifications(m1: NotifierModel, m2: NotifierModel, cur: Seq<Entry>)
    requires
        same_but_notifications(m1, m2),
    ensures
        outcome_for(m1, cur).announcement == outcome_for(m2, cur).announcement,
{
    lemma_sound_ignores_notifications(m1, m2, cur);
}

proof fn lemma_global_switches(m: NotifierModel, cur: Seq<Entry>)
    ensures
        m.global_mute ==> speeches_for(m, cur) == Seq::<Seq<char>>::empty() && best_sound_for(m, cur)
            == None::<Sound>,
        m.global_notifications_off ==> notices_for(m, cur) == Seq::<(Seq<char>, Seq<char>)>::empty(),
    decreases cur.len(),
{
    if cur.len() > 0 {
        lemma_global_switches(m, cur.drop_last());
    }
}

/// With all sounds muted nothing is played or spoken; with all
/// notifications off nothing is posted.
pub proof fn law_global_switches_silence(m: NotifierModel, cur: Seq<Entry>)
    ensures
        m.global_mute ==> outcome_for(m, cur).announcement is None,
        m.global_notifications_off ==> outcome_for(m, cur).notices.len() == 0,
{
    lemma_global_switches(m, cur);
}

proof fn lemma_best_sound(m: NotifierModel, cur: Seq<Entry>)
    ensures
        (best_sound_for(m, cur) is Some) == (speeches_for(m, cur).len() > 0),
        (speeches_for(m, cur).len() > 0) == (exists|i: int| 0 <= i < cur.len() && speaks(m, #[trigger] cur[i])),
        best_sound_for(m, cur) matches Some(s) ==> {
            &&& forall|i: int| 0 <= i < cur.len() && speaks(m, #[trigger] cur[i]) ==> priority(cue(cur[i].1).unwrap().0) <= priority(s)
            &&& exists|i: int| 0 <= i < cur.len() && speaks(m, #[trigger] cur[i]) && cue(cur[i].1).unwrap().0 == s
        },
    decreases cur.len(),
{
    if cur.len() > 0 {
        let d = cur.drop_last();
        lemma_best_sound(m, d);
        assert forall|i: int| 0 <= i < d.len() implies #[trigger] d[i] == cur[i] by {}
        let x = cur.last();
        assert(x == cur[cur.len() - 1]);
        if exists|i: int| 0 <= i < d.len() && speaks(m, #[trigger] d[i]) {
            let i = choose|i: int| 0 <= i < d.len() && speaks(m, #[trigger] d[i]);
            assert(speaks(m, cur[i]));
        }
        if exists|i: int| 0 <= i < cur.len() && speaks(m, #[trigger] cur[i]) {
            let i = choose|i: int| 0 <= i < cur.len() && speaks(m, #[trigger] cur[i]);
            if i < d.len() {
                assert(speaks(m, d[i]));
            }
        }
        match best_sound_for(m, d) {
            Some(p) => {
                let j = choose|j: int| 0 <= j < d.len() && speaks(m, #[trigger] d[j]) && cue(d[j].1).unwrap().0 == p;
                assert(speaks(m, cur[j]));
            },
            None => {},
        }
        if let Some(s) = best_sound_for(m, cur) {
            assert forall|i: int| 0 <= i < cur.len() && speaks(m, #[trigger] cur[i]) implies priority(
                cue(cur[i].1).unwrap().0,
            ) <= priority(s) by {
                if i < d.len() {
                    assert(speaks(m, d[i]));
                }
            }
            if speaks(m, x) && (best_sound_for(m, d) is None || s != best_sound_for(m, d).unwrap()) {
                assert(speaks(m, cur[cur.len() - 1]));
            }
        }
    }
}

/// At most one sound is played per call, and it is the highest-priority
/// sound among the unmuted transitions (Basso for a failure, else Ping for
/// ready or running, else Submarine); an announcement is made exactly when
/// some transition is unmuted.
pub proof fn law_batched_sound_has_top_priority(m: NotifierModel, cur: Seq<Entry>)
    requires
        !m.first_load,
    ensures
        (outcome_for(m, cur).announcement is Some) == (exists|i: int| 0 <= i < cur.len() && speaks(m, #[trigger] cur[i])),
        outcome_for(m, cur).announcement matches Some((s, _)) ==> {
            &&& forall|i: int| 0 <= i < cur.len() && speaks(m, #[trigger] cur[i]) ==> priority(cue(cur[i].1).unwrap().0) <= priority(s)
            &&& exists|i: int| 0 <= i < cur.len() && speaks(m, #[trigger] cur[i]) && cue(cur[i].1).unwrap().0 == s
        },
{
    lemma_best_sound(m, cur);
}

/// The state of the unit `id` where it is listed last in `s`.
pub open spec fn last_state(s: Seq<Entry>, id: UnitId) -> Option<crate::state::StateView>
    decreases s.len(),
{
    if s.len() == 0 {
        None
    } else if s.last().0 == id {
        Some(s.last().1)
    } else {
        last_state(s.drop_last(), id)
    }
}

proof fn lemma_collapse_lookup(s: Seq<Entry>, id: UnitId)
    ensures
        lookup(collapse(s), id) == last_state(s, id),
    decreases s.len(),
{
    if s.len() > 0 {
        let d = collapse(s.drop_last());
        let x = s.last();
        lemma_collapse_lookup(s.drop_last(), id);
        lemma_collapse_distinct(s.drop_last());
        lemma_collapse_distinct(s);
        let c = collapse(s);
        if has_unit(d, x.0) {
            let p = unit_pos(d, x.0);
            assert(c == d.update(p, x));
            lemma_unit_pos_unique(c, p);
            if x.0 != id {
                if has_unit(d, id) {
                    let q = unit_pos(d, id);
                    assert(q != p);
                    assert(c[q] == d[q]);
                    lemma_unit_pos_unique(c, q);
                } else {
                    if has_unit(c, id) {
                        let q = unit_pos(c, id);
                        assert(q != p);
                        assert(d[q].0 == id);
                    }
                }
            }
        } else {
            assert(c == d.push(x));
            lemma_unit_pos_unique(c, d.len() as int);
            if x.0 != id {
                if has_unit(d, id) {
                    let q = unit_pos(d, id);
                    assert(c[q] == d[q]);
                    lemma_unit_pos_unique(c, q);
                } else {
                    if has_unit(c, id) {
                        let q = unit_pos(c, id);
                        assert(q < d.len());
                        assert(d[q].0 == id);
                    }
                }
            }
        }
    }
}

/// A snapshot lists each unit once, and a unit listed more than once in the
/// environments has the state of its last listing.
pub proof fn law_snapshot_keeps_last_listing(envs: Seq<Environment>, id: UnitId)
    ensures
        distinct_units(snapshot(envs)),
        lookup(snapshot(envs), id) == last_state(flatten(envs), id),
{
    lemma_collapse_distinct(flatten(envs));
    lemma_collapse_lookup(flatten(envs), id);
}

/// Opening the help panel is idempotent and closing a closed panel changes
/// nothing: `?` typed while the panel is open does not close it, and Escape
/// with the panel closed does nothing.
pub proof fn law_help_open_close_idempotent(d: DashboardView)
    ensures
        step(step(d, MessageView::OpenHelp).0, MessageView::OpenHelp).0 == step(d, MessageView::OpenHelp).0,
        step(step(d, MessageView::CloseHelp).0, MessageView::CloseHelp).0 == step(d, MessageView::CloseHelp).0,
        !d.show_help ==> step(d, MessageView::CloseHelp) == (d, EffectView::Nothing),
        d.show_help ==> step(d, MessageView::OpenHelp) == (d, EffectView::Nothing),
{
}

/// Every toggle undoes itself: applying a toggle event twice restores the
/// dashboard, including its notifier's settings.
pub proof fn law_toggles_are_involutions(d: DashboardView, env_id: Seq<char>, unit_name: Seq<char>)
    ensures
        step(step(d, MessageView::ToggleGlobalMute).0, MessageView::ToggleGlobalMute).0 == d,
        step(step(d, MessageView::ToggleGlobalNotifications).0, MessageView::ToggleGlobalNotifications).0 == d,
        step(step(d, MessageView::ToggleTheme).0, MessageView::ToggleTheme).0 == d,
        step(step(d, MessageView::ToggleHelp).0, MessageView::ToggleHelp).0 == d,
        step(
            step(d, MessageView::ToggleUnitMute { env_id, unit_name }).0,
            MessageView::ToggleUnitMute { env_id, unit_name },
        ).0 == d,
        step(
            step(d, MessageView::ToggleUnitNotifications { env_id, unit_name }).0,
            MessageView::ToggleUnitNotifications { env_id, unit_name },
        ).0 == d,
{
    let k = unit_key_view(env_id, unit_name);
    law_toggle_twice_restores(d.notifier.muted_units, k);
    law_toggle_twice_restores(d.notifier.notifications_off_units, k);
}

/// The copy flash set by copying lasts until the next periodic refresh:
/// a refresh clears it, a change in the watched folder does not, and both
/// ask for the environments to be reloaded.
pub proof fn law_copy_flash_cleared_by_tick_only(d: DashboardView, content: Seq<char>)
    ensures
        step(d, MessageView::CopyToClipboard(content)).0.copied_flash,
        step(d, MessageView::CopyToClipboard(content)).1 == EffectView::WriteClipboard(content),
        !step(d, MessageView::Tick).0.copied_flash,
        step(d, MessageView::WatchEvent).0.copied_flash == d.copied_flash,
        step(d, MessageView::Tick).1 == EffectView::Reload,
        step(d, MessageView::WatchEvent).1 == EffectView::Reload,
{
}

/// Terminating an environment signals exactly the process identifier it
/// published, converted to a signed identifier, and sends nothing when the
/// identifier does not fit in one (above 2147483647). Zero is passed on
/// unchanged.
pub proof fn law_terminate_signals_only_that_pid(d: DashboardView, pid: u32)
    ensures
        step(d, MessageView::TerminateEnv { pid }).0 == d,
        pid <= max_signal_pid() ==> step(d, MessageView::TerminateEnv { pid }).1
            == (EffectView::Terminate { pid: pid as i32 }),
        pid > max_signal_pid() ==> step(d, MessageView::TerminateEnv { pid }).1 == EffectView::Nothing,
{
}

/// The word spoken and posted for a transition into one of the announced
/// states.
pub open spec fn announced_word(s: crate::state::StateView) -> Option<Seq<char>> {
    match s {
        crate::state::StateView::Building => Some("building"@),
        crate::state::StateView::Starting => Some("starting"@),
        crate::state::StateView::Ready => Some("ready"@),
        crate::state::StateView::Running => Some("running"@),
        crate::state::StateView::Failed => Some("failed"@),
        _ => None,
    }
}

proof fn lemma_notice_listed(m: NotifierModel, cur: Seq<Entry>, i: int)
    requires
        0 <= i < cur.len(),
        notifies(m, cur[i]),
    ensures
        notices_for(m, cur).contains(
            ("sutra \u{2014} "@ + cur[i].0.1, cue(cur[i].1).unwrap().1),
        ),
    decreases cur.len(),
{
    let d = cur.drop_last();
    if i == cur.len() - 1 {
        let r = notices_for(m, cur);
        assert(r.last() == ("sutra \u{2014} "@ + cur[i].0.1, cue(cur[i].1).unwrap().1));
        assert(r[r.len() - 1] == r.last());
    } else {
        assert(d[i] == cur[i]);
        lemma_notice_listed(m, d, i);
        let r = notices_for(m, d);
        let k = choose|k: int| 0 <= k < r.len() && r[k] == ("sutra \u{2014} "@ + cur[i].0.1, cue(cur[i].1).unwrap().1);
        let r2 = notices_for(m, cur);
        assert(r2[k] == r[k]);
    }
}

/// A transition is reported whatever state it leaves: when a unit that is
/// new, or whose state differs from every earlier record of it, is now
/// building, starting, ready, running or failed, the call after the first
/// posts the notice "sutra — <unit>" with that state's word (unless
/// notifications are off for it), and makes an announcement (unless it is
/// muted), whose sound is Basso when the unit failed. A crash after
/// readiness is therefore never silent.
pub proof fn law_every_transition_is_reported(m: NotifierModel, cur: Seq<Entry>, i: int)
    requires
        !m.first_load,
        0 <= i < cur.len(),
        forall|j: int| 0 <= j < m.prev.len() && (#[trigger] m.prev[j]).0 == cur[i].0 ==> m.prev[j].1 != cur[i].1,
        announced_word(cur[i].1) is Some,
    ensures
        !m.global_notifications_off && !m.notifications_off_units.contains(
            cur[i].0.0 + seq!['\0'] + cur[i].0.1,
        ) ==> outcome_for(m, cur).notices.contains(
            ("sutra \u{2014} "@ + cur[i].0.1, announced_word(cur[i].1).unwrap()),
        ),
        !m.global_mute && !m.muted_units.contains(cur[i].0.0 + seq!['\0'] + cur[i].0.1)
            ==> outcome_for(m, cur).announcement is Some,
        !m.global_mute && !m.muted_units.contains(cur[i].0.0 + seq!['\0'] + cur[i].0.1)
            && cur[i].1 == crate::state::StateView::Failed
            ==> outcome_for(m, cur).announcement.unwrap().0 == Sound::Basso,
{
    let x = cur[i];
    if has_unit(m.prev, x.0) {
        let p = unit_pos(m.prev, x.0);
        assert(m.prev[p].0 == x.0);
    }
    assert(changed(m.prev, x));
    assert(cue(x.1) is Some);
    assert(cue(x.1).unwrap().1 == announced_word(x.1).unwrap());
    assert(unit_key_view(x.0.0, x.0.1) == x.0.0 + seq!['\0'] + x.0.1);
    if notifies(m, x) {
        lemma_notice_listed(m, cur, i);
    }
    if speaks(m, x) {
        lemma_best_sound(m, cur);
        assert(speaks(m, cur[i]));
        if x.1 == crate::state::StateView::Failed {
            let s = best_sound_for(m, cur).unwrap();
            assert(priority(cue(cur[i].1).unwrap().0) <= priority(s));
        }
    }
}

proof fn lemma_skip_front(s: Seq<char>, i: int, end: int)
    requires
        0 <= i <= end <= s.len(),
    ensures
        i <= crate::registry::skip_space_front(s, i, end) <= end,
        forall|t: int| i <= t < crate::registry::skip_space_front(s, i, end)
            ==> crate::registry::is_space(#[trigger] s[t]),
        crate::registry::skip_space_front(s, i, end) < end
            ==> !crate::registry::is_space(s[crate::registry::skip_space_front(s, i, end)]),
    decreases end - i,
{
    if i < end && crate::registry::is_space(s[i]) {
        lemma_skip_front(s, i + 1, end);
    }
}

proof fn lemma_skip_back(s: Seq<char>, start: int, j: int)
    requires
        0 <= start <= j <= s.len(),
    ensures
        start <= crate::registry::skip_space_back(s, start, j) <= j,
        forall|t: int| crate::registry::skip_space_back(s, start, j) <= t < j
            ==> crate::registry::is_space(#[trigger] s[t]),
        crate::registry::skip_space_back(s, start, j) > start
            ==> !crate::registry::is_space(s[crate::registry::skip_space_back(s, start, j) - 1]),
    decreases j - start,
{
    if j > start && crate::registry::is_space(s[j - 1]) {
        lemma_skip_back(s, start, j - 1);
    }
}

/// The directory a `DIR=<value>` line declares is its whole value, only
/// surrounding whitespace removed: a stretch `s[a..b]` of the value such
/// that everything between `=` and `a`, and between `b` and the end of the
/// line, is whitespace, and the directory neither starts nor ends with
/// whitespace. Spaces inside the path are kept.
pub proof fn law_dir_is_whole_value(s: Seq<char>, i: int, k: int, e: int)
    requires
        0 <= i <= k < e <= s.len(),
        s[k] == '=',
        forall|t: int| i <= t < k ==> #[trigger] s[t] != '=',
        crate::registry::trimmed(s, i, k) == "DIR"@,
    ensures
        crate::registry::meta_line(s, i, e).dir is Some,
        ({
            let d = crate::registry::meta_line(s, i, e).dir.unwrap();
            exists|a: int, b: int| {
                &&& k + 1 <= a <= b <= e
                &&& d == s.subrange(a, b)
                &&& (forall|t: int| k + 1 <= t < a ==> crate::registry::is_space(#[trigger] s[t]))
                &&& (forall|t: int| b <= t < e ==> crate::registry::is_space(#[trigger] s[t]))
                &&& (a < b ==> !crate::registry::is_space(s[a]) && !crate::registry::is_space(s[b - 1]))
            }
        }),
{
    assert(crate::registry::find_char(s, '=', i, e) == Some(k)) by {
        lemma_find_first(s, '=', i, k, e);
    }
    let a = crate::registry::skip_space_front(s, k + 1, e);
    lemma_skip_front(s, k + 1, e);
    let b = crate::registry::skip_space_back(s, a, e);
    lemma_skip_back(s, a, e);
    let d = crate::registry::meta_line(s, i, e).dir.unwrap();
    assert(d == s.subrange(a, b));
    if a < b {
        assert(!crate::registry::is_space(s[a])) by {
            if crate::registry::is_space(s[a]) {
                assert(a < e);
            }
        }
    }
}

proof fn lemma_find_first(s: Seq<char>, c: char, i: int, k: int, e: int)
    requires
        0 <= i <= k < e <= s.len(),
        s[k] == c,
        forall|t: int| i <= t < k ==> #[trigger] s[t] != c,
    ensures
        crate::registry::find_char(s, c, i, e) == Some(k),
    decreases k - i,
{
    if i < k {
        lemma_find_first(s, c, i + 1, k, e);
    }
}

/// A file name is a meta file's name exactly when it is one or more
/// hexadecimal digits, in either case: `0`-`9`, `a`-`f`, `A`-`F`.
pub proof fn law_meta_names_are_hex(name: Seq<char>)
    ensures
        crate::registry::meta_name_spec(name) <==> name.len() > 0 && forall|t: int| 0 <= t < name.len() ==> {
            let c = #[trigger] name[t];
            ||| '0' <= c <= '9'
            ||| 'a' <= c <= 'f'
            ||| 'A' <= c <= 'F'
        },
        crate::registry::meta_name_spec(seq!['f']),
        crate::registry::meta_name_spec(seq!['F']),
        crate::registry::meta_name_spec(seq!['a', 'A', '0', '9']),
{
}

/// A row's bell and speaker each show their own setting: the bell is struck
/// out exactly when the unit's notifications are off, and the speaker
/// exactly when its sound is muted, whatever the other setting; the card
/// shows the same for each of its units.
pub proof fn law_row_flags_follow_settings(d: DashboardView, env: Environment, now: u64, j: int)
    requires
        0 <= j < env.units@.len(),
    ensures
        ({
            let u = env.units@[j];
            let key = env.id@ + seq!['\0'] + u.name@;
            let r = crate::cards::row_spec(d, env, u);
            &&& r.notifications_off == d.notifier.notifications_off_units.contains(key)
            &&& r.muted == d.notifier.muted_units.contains(key)
            &&& crate::cards::card_spec(d, env, now).rows[j] == r
        }),
{
}

proof fn lemma_digit_char(d: nat)
    requires
        d < 10,
    ensures
        crate::registry::is_digit(crate::dashboard::digit_char(d)),
        (crate::dashboard::digit_char(d) as u32) - ('0' as u32) == d,
        d > 0 ==> crate::dashboard::digit_char(d) != '0',
{
}

proof fn lemma_decimal_reads_back(n: nat)
    ensures
        crate::dashboard::decimal(n).len() > 0,
        forall|t: int| 0 <= t < crate::dashboard::decimal(n).len()
            ==> crate::registry::is_digit(#[trigger] crate::dashboard::decimal(n)[t]),
        crate::registry::digits_value(crate::dashboard::decimal(n)) == n,
        n > 0 ==> crate::dashboard::decimal(n)[0] != '0',
    decreases n,
{
    let s = crate::dashboard::decimal(n);
    if n < 10 {
        lemma_digit_char(n);
        assert(s.drop_last() =~= Seq::<char>::empty());
        assert(crate::registry::digits_value(s.drop_last()) == 0);
        assert(s.last() == crate::dashboard::digit_char(n));
    } else {
        lemma_decimal_reads_back(n / 10);
        lemma_digit_char(n % 10);
        let h = crate::dashboard::decimal(n / 10);
        assert(s.drop_last() =~= h);
        assert(s.last() == crate::dashboard::digit_char(n % 10));
        assert(n == (n / 10) * 10 + n % 10);
        assert(crate::registry::digits_value(s) == crate::registry::digits_value(h) * 10
            + ((s.last() as u32) - ('0' as u32)));
        assert forall|t: int| 0 <= t < s.len() implies crate::registry::is_digit(#[trigger] s[t]) by {
            if t < h.len() {
                assert(s[t] == h[t]);
            }
        }
        assert(s[0] == h[0]);
    }
}

/// The address opened for a port is `http://localhost:` followed by the
/// port's decimal digits: digits only, no leading zero, and reading back as
/// the port.
pub proof fn law_browser_address_names_the_port(port: u16)
    ensures
        exists|t: Seq<char>| {
            &&& crate::dashboard::browser_address_spec(port) == "http://localhost:"@ + t
            &&& t.len() > 0
            &&& (forall|k: int| 0 <= k < t.len() ==> crate::registry::is_digit(#[trigger] t[k]))
            &&& crate::registry::digits_value(t) == port as int
            &&& (t.len() == 1 || t[0] != '0')
        },
{
    lemma_decimal_reads_back(port as nat);
    let t = crate::dashboard::decimal(port as nat);
    if port == 0 {
        assert(t =~= seq!['0']);
    }
    assert(crate::dashboard::browser_address_spec(port) == "http://localhost:"@ + t);
}

/// The sound of a transition into one of the announced states: Submarine
/// for building and starting, Ping for ready and running, Basso for failed.
pub open spec fn announced_sound(s: crate::state::StateView) -> Sound {
    match s {
        crate::state::StateView::Ready | crate::state::StateView::Running => Sound::Ping,
        crate::state::StateView::Failed => Sound::Basso,
        _ => Sound::Submarine,
    }
}

/// Whether `t` occurs in `text` as a stretch of consecutive characters.
pub open spec fn occurs_in(t: Seq<char>, text: Seq<char>) -> bool {
    exists|a: int| 0 <= a && a + t.len() <= text.len() && #[trigger] text.subrange(a, a + t.len()) == t
}

proof fn lemma_join_contains(items: Seq<Seq<char>>, sep: Seq<char>, i: int)
    requires
        0 <= i < items.len(),
    ensures
        occurs_in(items[i], crate::text::join(items, sep)),
    decreases items.len(),
{
    let j = crate::text::join(items, sep);
    let t = items[i];
    if items.len() == 1 {
        assert(j.subrange(0int, 0int + t.len()) =~= t);
    } else {
        let h = crate::text::join(items.drop_last(), sep);
        assert(j == h + sep + items.last());
        if i == items.len() - 1 {
            let a: int = (h.len() + sep.len()) as int;
            assert(j.subrange(a, a + t.len()) =~= t);
        } else {
            assert(items.drop_last()[i] == t);
            lemma_join_contains(items.drop_last(), sep, i);
            let a = choose|a: int| 0 <= a && a + t.len() <= h.len() && #[trigger] h.subrange(a, a + t.len()) == t;
            assert(j.subrange(a, a + t.len()) =~= h.subrange(a, a + t.len()));
        }
    }
}

proof fn lemma_speech_listed(m: NotifierModel, cur: Seq<Entry>, i: int)
    requires
        0 <= i < cur.len(),
        speaks(m, cur[i]),
    ensures
        speeches_for(m, cur).contains(cur[i].0.1 + " "@ + cue(cur[i].1).unwrap().1),
    decreases cur.len(),
{
    let d = cur.drop_last();
    let w = cur[i].0.1 + " "@ + cue(cur[i].1).unwrap().1;
    if i == cur.len() - 1 {
        let r = speeches_for(m, cur);
        assert(r[r.len() - 1] == w);
    } else {
        assert(d[i] == cur[i]);
        lemma_speech_listed(m, d, i);
        let r = speeches_for(m, d);
        let k = choose|k: int| 0 <= k < r.len() && r[k] == w;
        assert(speeches_for(m, cur)[k] == r[k]);
    }
}

/// Whether the entry is a transition that joins the announcement: new or
/// changed against every earlier record, into an announced state, and not
/// muted.
pub open spec fn unmuted_transition(m: NotifierModel, x: Entry) -> bool {
    &&& forall|j: int| 0 <= j < m.prev.len() && (#[trigger] m.prev[j]).0 == x.0 ==> m.prev[j].1 != x.1
    &&& announced_word(x.1) is Some
    &&& !m.global_mute
    &&& !m.muted_units.contains(x.0.0 + seq!['\0'] + x.0.1)
}

/// The one announcement of a call speaks every unmuted transition as
/// "<unit> <word>", and plays the sound of one of them, one that no other
/// unmuted transition's sound outranks (Basso for failed over Ping for
/// ready or running over Submarine for building or starting).
pub proof fn law_announcement_covers_every_transition(m: NotifierModel, cur: Seq<Entry>, i: int)
    requires
        !m.first_load,
        distinct_units(m.prev),
        0 <= i < cur.len(),
        unmuted_transition(m, cur[i]),
    ensures
        outcome_for(m, cur).announcement is Some,
        occurs_in(
            cur[i].0.1 + " "@ + announced_word(cur[i].1).unwrap(),
            outcome_for(m, cur).announcement.unwrap().1,
        ),
        priority(announced_sound(cur[i].1)) <= priority(outcome_for(m, cur).announcement.unwrap().0),
        exists|j: int| 0 <= j < cur.len() && unmuted_transition(m, #[trigger] cur[j])
            && announced_sound(cur[j].1) == outcome_for(m, cur).announcement.unwrap().0,
{
    let x = cur[i];
    assert(unit_key_view(x.0.0, x.0.1) == x.0.0 + seq!['\0'] + x.0.1);
    if has_unit(m.prev, x.0) {
        let p = unit_pos(m.prev, x.0);
        assert(m.prev[p].0 == x.0);
    }
    assert(speaks(m, x));
    lemma_best_sound(m, cur);
    lemma_speech_listed(m, cur, i);
    let sp = speeches_for(m, cur);
    let k = choose|k: int| 0 <= k < sp.len() && sp[k] == x.0.1 + " "@ + cue(x.1).unwrap().1;
    lemma_join_contains(sp, crate::notifier::speech_separator(), k);
    let s = best_sound_for(m, cur).unwrap();
    assert(priority(cue(cur[i].1).unwrap().0) <= priority(s));
    let j = choose|j: int| 0 <= j < cur.len() && speaks(m, #[trigger] cur[j]) && cue(cur[j].1).unwrap().0 == s;
    let y = cur[j];
    assert(unit_key_view(y.0.0, y.0.1) == y.0.0 + seq!['\0'] + y.0.1);
    assert(speaks(m, y));
    assert forall|q: int| 0 <= q < m.prev.len() && (#[trigger] m.prev[q]).0 == y.0 implies m.prev[q].1 != y.1 by {
        lemma_unit_pos_unique(m.prev, q);
    }
    assert(unmuted_transition(m, cur[j]));
}

} // verus!
