//! Command-line decisions: which front end to start, whether to background
//! it, and the arguments of the backgrounded copy.
use vstd::prelude::*;
use vstd::string::StringSliceAdditionalSpecFns;

verus! {

/// The options of the `mon` command.
pub struct MonOptions {
    /// Force the terminal front end.
    pub tui: bool,
    /// Keep the windowed front end attached to the terminal.
    pub foreground: bool,
}

/// What to start.
#[derive(Clone, Copy, Debug, PartialEq, Eq, Structural)]
pub enum Launch {
    /// The terminal front end.
    Tui,
    /// The windowed front end, first re-started in the background when
    /// `background` holds.
    Gui { background: bool },
}

/// What to start for the parsed command (`None` when no subcommand was
/// given, which means `mon` with no flags): the terminal front end when
/// forced, else the windowed one, backgrounded unless kept in the
/// foreground or running from inside an application bundle.
pub open spec fn launch_spec(command: Option<(bool, bool)>, in_app_bundle: bool) -> Launch {
    let (tui, foreground) = match command {
        Some(c) => c,
        None => (false, false),
    };
    if tui {
        Launch::Tui
    } else {
        Launch::Gui { background: !foreground && !in_app_bundle }
    }
}

/// What to start for the parsed command.
pub fn launch(command: Option<MonOptions>, in_app_bundle: bool) -> (r: Launch)
    ensures
        r == launch_spec(
            match command {
                Some(c) => Some((c.tui, c.foreground)),
                None => None,
            },
            in_app_bundle,
        ),
{
    let opts = match command {
        Some(c) => c,
        None => MonOptions { tui: false, foreground: false },
    };
    if opts.tui {
        Launch::Tui
    } else {
        Launch::Gui { background: !opts.foreground && !in_app_bundle }
    }
}

/// The arguments of the backgrounded copy: `mon` first when no argument is
/// `mon`, then the given arguments, then `--foreground`.
pub open spec fn foreground_args_spec(args: Seq<Seq<char>>) -> Seq<Seq<char>> {
    (if args.contains("mon"@) {
        Seq::empty()
    } else {
        seq!["mon"@]
    }) + args + seq!["--foreground"@]
}

/// The arguments with which to re-start this program in the background, so
/// that the copy runs the `mon` command in the foreground.
pub fn foreground_args(args: &Vec<String>) -> (r: Vec<String>)
    ensures
        r@.map_values(|s: String| s@) == foreground_args_spec(args@.map_values(|s: String| s@)),
{
    let ghost views = args@.map_values(|s: String| s@);
    let mon = "mon".to_owned();
    let mut has_mon = false;
    let mut i: usize = 0;
    while i < args.len()
        invariant
            0 <= i <= args.len(),
            views == args@.map_values(|s: String| s@),
            mon@ == "mon"@,
            has_mon == views.take(i as int).contains("mon"@),
        decreases args.len() - i,
    {
        let ghost prefix = views.take(i as int);
        if args[i] == mon {
            has_mon = true;
        }
        assert(views.take(i + 1) =~= prefix.push(views[i as int]));
        assert(views.take(i + 1).contains("mon"@) == (prefix.contains("mon"@) || views[i as int] == "mon"@)) by {
            if views[i as int] == "mon"@ {
                assert(views.take(i + 1)[i as int] == "mon"@);
            }
            if prefix.contains("mon"@) {
                let j = choose|j: int| 0 <= j < prefix.len() && prefix[j] == "mon"@;
                assert(views.take(i + 1)[j] == "mon"@);
            }
        }
        i = i + 1;
    }
    assert(views.take(args.len() as int) =~= views);
    let mut r: Vec<String> = Vec::new();
    if !has_mon {
        r.push(mon);
    }
    let ghost start = r@.map_values(|s: String| s@);
    assert(start =~= (if has_mon { Seq::<Seq<char>>::empty() } else { seq!["mon"@] }));
    let mut j: usize = 0;
    while j < args.len()
        invariant
            0 <= j <= args.len(),
            views == args@.map_values(|s: String| s@),
            r@.map_values(|s: String| s@) == start + views.take(j as int),
        decreases args.len() - j,
    {
        let ghost before = r@;
        let item = args[j].clone();
        r.push(item);
        assert(r@ =~= before.push(item));
        assert(r@.map_values(|s: String| s@) =~= before.map_values(|s: String| s@).push(item@));
        assert(views.take(j + 1) =~= views.take(j as int).push(views[j as int]));
        assert(r@.map_values(|s: String| s@) =~= start + views.take(j + 1));
        j = j + 1;
    }
    let ghost before = r@;
    let last_arg = "--foreground".to_owned();
    r.push(last_arg);
    assert(r@ =~= before.push(last_arg));
    assert(r@.map_values(|s: String| s@) =~= before.map_values(|s: String| s@).push(last_arg@));
    assert(r@.map_values(|s: String| s@) =~= foreground_args_spec(views));
    r
}

/// Whether the bytes `hay` hold the bytes `needle` somewhere.
pub open spec fn contains_bytes(hay: Seq<u8>, needle: Seq<u8>) -> bool {
    exists|i: int| 0 <= i && i + needle.len() <= hay.len() && #[trigger] hay.subrange(i, i + needle.len()) == needle
}

/// The part of an executable's path that marks a macOS application bundle.
pub open spec fn app_bundle_marker() -> Seq<u8> {
    ".app/Contents/MacOS/".spec_bytes()
}

fn matches_at(hay: &[u8], needle: &[u8], i: usize) -> (r: bool)
    requires
        i + needle@.len() <= hay@.len(),
    ensures
        r == (hay@.subrange(i as int, i + needle@.len()) == needle@),
{
    let mut k: usize = 0;
    while k < needle.len()
        invariant
            0 <= k <= needle.len(),
            i + needle@.len() <= hay@.len(),
            forall|t: int| 0 <= t < k ==> hay@[i + t] == needle@[t],
        decreases needle.len() - k,
    {
        assert(i + k < hay.len());
        if hay[i + k] != needle[k] {
            assert(hay@.subrange(i as int, i + needle@.len())[k as int] != needle@[k as int]);
            return false;
        }
        k = k + 1;
    }
    assert(hay@.subrange(i as int, i + needle@.len()) =~= needle@);
    true
}

/// Whether an executable's path lies inside a macOS application bundle:
/// whether it holds `.app/Contents/MacOS/`.
pub fn is_app_bundle_path(path: &str) -> (r: bool)
    ensures
        r == contains_bytes(path.spec_bytes(), app_bundle_marker()),
{
    let hay = path.as_bytes();
    let needle = ".app/Contents/MacOS/".as_bytes();
    if needle.len() == 0 {
        assert(hay@.subrange(0int, 0int + needle@.len()) =~= needle@);
        return true;
    }
    if needle.len() > hay.len() {
        return false;
    }
    let last = hay.len() - needle.len();
    let mut i: usize = 0;
    while i <= last
        invariant
            0 <= i <= last + 1,
            last + needle@.len() == hay@.len(),
            needle@.len() > 0,
            hay@.len() == hay.len(),
            hay@ == path.spec_bytes(),
            needle@ == app_bundle_marker(),
            forall|j: int| 0 <= j < i ==> #[trigger] hay@.subrange(j, j + needle@.len()) != needle@,
        decreases last + 1 - i,
    {
        if matches_at(hay, needle, i) {
            return true;
        }
        i = i + 1;
    }
    assert(!contains_bytes(hay@, needle@)) by {
        if contains_bytes(hay@, needle@) {
            let j = choose|j: int| 0 <= j && j + needle@.len() <= hay@.len() && #[trigger] hay@.subrange(j, j + needle@.len()) == needle@;
            assert(hay@.subrange(j, j + needle@.len()) == needle@);
        }
    }
    false
}

} // verus!
