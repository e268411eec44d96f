//! Text built from unit identifiers: lookup keys and joined utterances.
use vstd::prelude::*;
use vstd::string::StringExecFns;

verus! {

/// The key under which per-unit settings are stored: the environment
/// identifier, a NUL character, then the unit name.
pub open spec fn unit_key_view(env_id: Seq<char>, unit_name: Seq<char>) -> Seq<char> {
    env_id + seq!['\0'] + unit_name
}

/// Builds the key under which per-unit settings are stored.
pub fn unit_key(env_id: &str, unit_name: &str) -> (k: String)
    ensures
        k@ == unit_key_view(env_id@, unit_name@),
{
    let mut k = env_id.to_owned();
    let sep = "\0";
    proof {
        reveal_strlit("\0");
    }
    k.append(sep);
    k.append(unit_name);
    k
}

/// The items joined by a separator.
pub open spec fn join(items: Seq<Seq<char>>, sep: Seq<char>) -> Seq<char>
    decreases items.len(),
{
    if items.len() == 0 {
        Seq::empty()
    } else if items.len() == 1 {
        items[0]
    } else {
        join(items.drop_last(), sep) + sep + items.last()
    }
}

/// Joins the strings with a separator between each two.
pub fn join_strings(items: &Vec<String>, sep: &str) -> (r: String)
    ensures
        r@ == join(items@.map_values(|s: String| s@), sep@),
{
    let ghost views = items@.map_values(|s: String| s@);
    let mut r = String::new();
    let mut i: usize = 0;
    while i < items.len()
        invariant
            0 <= i <= items.len(),
            views == items@.map_values(|s: String| s@),
            r@ == join(views.take(i as int), sep@),
        decreases items.len() - i,
    {
        if i != 0 {
            r.append(sep);
        }
        r.append(items[i].as_str());
        assert(views.take(i + 1).drop_last() =~= views.take(i as int));
        i = i + 1;
    }
    assert(views.take(items.len() as int) =~= views);
    r
}

} // verus!
