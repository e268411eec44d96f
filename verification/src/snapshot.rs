//! Snapshots of every unit's state across a list of environments.
use vstd::prelude::*;
use crate::state::{Environment, State, StateView, UnitStatus};

verus! {

/// A unit's identity: its environment's identifier and its own name.
pub type UnitId = (Seq<char>, Seq<char>);

/// A unit's identity together with its state.
pub type Entry = (UnitId, StateView);

/// The entries of one environment's units, in order.
pub open spec fn unit_entries(env: Environment) -> Seq<Entry> {
    env.units@.map_values(|u: UnitStatus| ((env.id@, u.name@), u.state@))
}

/// The entries of all environments' units, in order, repeats included.
pub open spec fn flatten(envs: Seq<Environment>) -> Seq<Entry>
    decreases envs.len(),
{
    if envs.len() == 0 {
        Seq::empty()
    } else {
        flatten(envs.drop_last()) + unit_entries(envs.last())
    }
}

/// Whether some entry of `s` belongs to unit `id`.
pub open spec fn has_unit(s: Seq<Entry>, id: UnitId) -> bool {
    exists|i: int| 0 <= i < s.len() && #[trigger] s[i].0 == id
}

/// A position of unit `id` in `s` (the only one where units are distinct).
pub open spec fn unit_pos(s: Seq<Entry>, id: UnitId) -> int {
    choose|i: int| 0 <= i < s.len() && #[trigger] s[i].0 == id
}

/// No unit occurs twice in `s`.
pub open spec fn distinct_units(s: Seq<Entry>) -> bool {
    forall|i: int, j: int| 0 <= i < s.len() && 0 <= j < s.len() && i != j ==> #[trigger] s[i].0 != #[trigger] s[j].0
}

/// The state recorded for unit `id` in `s`, if any.
pub open spec fn lookup(s: Seq<Entry>, id: UnitId) -> Option<StateView> {
    if has_unit(s, id) {
        Some(s[unit_pos(s, id)].1)
    } else {
        None
    }
}

/// Collapses repeated units: each unit keeps the place where it first
/// occurs and the state it has where it last occurs.
pub open spec fn collapse(s: Seq<Entry>) -> Seq<Entry>
    decreases s.len(),
{
    if s.len() == 0 {
        Seq::empty()
    } else {
        let d = collapse(s.drop_last());
        let x = s.last();
        if has_unit(d, x.0) {
            d.update(unit_pos(d, x.0), x)
        } else {
            d.push(x)
        }
    }
}

/// The state of every unit of the environments, each unit once, in the
/// order in which units first occur; a unit listed twice has the state it
/// has where it is listed last.
pub open spec fn snapshot(envs: Seq<Environment>) -> Seq<Entry> {
    collapse(flatten(envs))
}

/// In a sequence of distinct units, the position of a unit is the one
/// `unit_pos` names.
pub proof fn lemma_unit_pos_unique(s: Seq<Entry>, i: int)
    requires
        distinct_units(s),
        0 <= i < s.len(),
    ensures
        has_unit(s, s[i].0),
        unit_pos(s, s[i].0) == i,
        lookup(s, s[i].0) == Some(s[i].1),
{
    assert(has_unit(s, s[i].0));
}

/// Collapsing leaves no unit twice.
pub proof fn lemma_collapse_distinct(s: Seq<Entry>)
    ensures
        distinct_units(collapse(s)),
    decreases s.len(),
{
    if s.len() > 0 {
        lemma_collapse_distinct(s.drop_last());
        let d = collapse(s.drop_last());
        let x = s.last();
        if has_unit(d, x.0) {
            let p = unit_pos(d, x.0);
            assert(d[p].0 == x.0);
        }
    }
}

/// A stored unit's identity and state.
pub struct UnitEntry {
    pub env_id: String,
    pub unit_name: String,
    pub state: State,
}

impl View for UnitEntry {
    type V = Entry;

    open spec fn view(&self) -> Entry {
        ((self.env_id@, self.unit_name@), self.state@)
    }
}

/// The values of a sequence of stored entries.
pub open spec fn entries_view(v: Seq<UnitEntry>) -> Seq<Entry> {
    v.map_values(|e: UnitEntry| e@)
}

/// The position of the entry for unit (`env_id`, `unit_name`), if any.
pub fn find_unit(entries: &Vec<UnitEntry>, env_id: &String, unit_name: &String) -> (r: Option<usize>)
    requires
        distinct_units(entries_view(entries@)),
    ensures
        match r {
            Some(i) => i < entries.len() && entries_view(entries@)[i as int].0 == (env_id@, unit_name@)
                && unit_pos(entries_view(entries@), (env_id@, unit_name@)) == i,
            None => !has_unit(entries_view(entries@), (env_id@, unit_name@)),
        },
        lookup(entries_view(entries@), (env_id@, unit_name@)) == match r {
            Some(i) => Some(entries@[i as int].state@),
            None => None::<StateView>,
        },
{
    let ghost view = entries_view(entries@);
    let ghost id = (env_id@, unit_name@);
    let mut i: usize = 0;
    while i < entries.len()
        invariant
            0 <= i <= entries.len(),
            view == entries_view(entries@),
            id == (env_id@, unit_name@),
            distinct_units(view),
            forall|j: int| 0 <= j < i ==> #[trigger] view[j].0 != id,
        decreases entries.len() - i,
    {
        if entries[i].env_id == *env_id && entries[i].unit_name == *unit_name {
            proof {
                lemma_unit_pos_unique(view, i as int);
            }
            return Some(i);
        }
        i = i + 1;
    }
    assert(!has_unit(view, id)) by {
        if has_unit(view, id) {
            let p = choose|p: int| 0 <= p < view.len() && #[trigger] view[p].0 == id;
            assert(view[p].0 == id);
        }
    }
    None
}

/// Takes a snapshot of the environments: each unit once, in the order in
/// which units first occur, with the state of its last occurrence.
pub fn collect_snapshot(envs: &[Environment]) -> (r: Vec<UnitEntry>)
    ensures
        entries_view(r@) == snapshot(envs@),
        distinct_units(entries_view(r@)),
{
    let mut cur: Vec<UnitEntry> = Vec::new();
    let mut i: usize = 0;
    while i < envs.len()
        invariant
            0 <= i <= envs.len(),
            entries_view(cur@) == collapse(flatten(envs@.take(i as int))),
            distinct_units(entries_view(cur@)),
        decreases envs.len() - i,
    {
        let env = &envs[i];
        let ghost base = flatten(envs@.take(i as int));
        let ghost ue = unit_entries(*env);
        let mut j: usize = 0;
        while j < env.units.len()
            invariant
                0 <= j <= env.units.len(),
                i < envs.len(),
                *env == envs@[i as int],
                base == flatten(envs@.take(i as int)),
                ue == unit_entries(*env),
                entries_view(cur@) == collapse(base + ue.take(j as int)),
                distinct_units(entries_view(cur@)),
            decreases env.units.len() - j,
        {
            let unit = &env.units[j];
            let ghost prefix = base + ue.take(j as int);
            let ghost x = ue[j as int];
            assert((base + ue.take(j + 1)).drop_last() =~= prefix);
            assert((base + ue.take(j + 1)).last() == x);
            let entry = UnitEntry {
                env_id: env.id.clone(),
                unit_name: unit.name.clone(),
                state: unit.state.duplicate(),
            };
            assert(entry@ == x);
            let ghost d = entries_view(cur@);
            match find_unit(&cur, &env.id, &unit.name) {
                Some(p) => {
                    cur.set(p, entry);
                    assert(entries_view(cur@) =~= d.update(unit_pos(d, x.0), x));
                },
                None => {
                    cur.push(entry);
                    assert(entries_view(cur@) =~= d.push(x));
                },
            }
            proof {
                lemma_collapse_distinct(base + ue.take(j + 1));
            }
            j = j + 1;
        }
        assert(ue.take(env.units.len() as int) =~= ue);
        assert(envs@.take(i + 1).drop_last() =~= envs@.take(i as int));
        assert(envs@.take(i + 1).last() == envs@[i as int]);
        i = i + 1;
    }
    assert(envs@.take(envs.len() as int) =~= envs@);
    cur
}

} // verus!
