//! The state folder's file formats: which files are environments and unit
//! statuses, and what a status or meta file says.
//!
//! A meta file is named by the environment's identifier (hexadecimal
//! digits, no dot) and holds `KEY=VALUE` lines: `PID` is the supervisor's
//! process identifier and each `<NAME>_PORT` declares a port. A status file
//! is named `<id>.<unit>.status` and holds `<state>` or `<state>: <detail>`.
use vstd::prelude::*;
use vstd::string::{StrSliceExecFns, StringExecFns};
use crate::state::{Environment, State, StateView, UnitStatus};

verus! {

/// The whitespace that surrounds values: space, tab, line feed, vertical
/// tab, form feed and carriage return.
pub open spec fn is_space(c: char) -> bool {
    c == ' ' || c == '\t' || c == '\n' || c == '\x0B' || c == '\x0C' || c == '\r'
}

/// The first position at or after `i`, and before `end`, that is not
/// whitespace; `end` if there is none.
pub open spec fn skip_space_front(s: Seq<char>, i: int, end: int) -> int
    decreases end - i,
{
    if i < end && is_space(s[i]) {
        skip_space_front(s, i + 1, end)
    } else {
        i
    }
}

/// The end of the part of `s[start..j]` left after dropping trailing
/// whitespace.
pub open spec fn skip_space_back(s: Seq<char>, start: int, j: int) -> int
    decreases j - start,
{
    if j > start && is_space(s[j - 1]) {
        skip_space_back(s, start, j - 1)
    } else {
        j
    }
}

/// `s[from..to]` without leading and trailing whitespace.
pub open spec fn trimmed(s: Seq<char>, from: int, to: int) -> Seq<char> {
    let a = skip_space_front(s, from, to);
    s.subrange(a, skip_space_back(s, a, to))
}

/// The first position at or after `i`, and before `end`, holding `c`.
pub open spec fn find_char(s: Seq<char>, c: char, i: int, end: int) -> Option<int>
    decreases end - i,
{
    if i >= end {
        None
    } else if s[i] == c {
        Some(i)
    } else {
        find_char(s, c, i + 1, end)
    }
}

pub proof fn lemma_find_bounds(s: Seq<char>, c: char, i: int, end: int)
    ensures
        find_char(s, c, i, end) matches Some(k) ==> i <= k < end && s[k] == c,
    decreases end - i,
{
    if i < end && s[i] != c {
        lemma_find_bounds(s, c, i + 1, end);
    }
}

/// The characters of a string.
pub fn chars_of(s: &str) -> (r: Vec<char>)
    ensures
        r@ == s@,
{
    let n = s.unicode_len();
    let mut r: Vec<char> = Vec::new();
    let mut i: usize = 0;
    while i < n
        invariant
            0 <= i <= n,
            n == s@.len(),
            r@ == s@.take(i as int),
        decreases n - i,
    {
        r.push(s.get_char(i));
        assert(s@.take(i + 1) =~= s@.take(i as int).push(s@[i as int]));
        i = i + 1;
    }
    assert(s@.take(n as int) =~= s@);
    r
}

fn is_space_char(c: char) -> (r: bool)
    ensures
        r == is_space(c),
{
    c == ' ' || c == '\t' || c == '\n' || c == '\x0B' || c == '\x0C' || c == '\r'
}

/// The bounds of `s[from..to]` without surrounding whitespace.
pub fn trim_bounds(s: &Vec<char>, from: usize, to: usize) -> (r: (usize, usize))
    requires
        from <= to <= s@.len(),
    ensures
        r.0 == skip_space_front(s@, from as int, to as int),
        r.1 == skip_space_back(s@, r.0 as int, to as int),
        from <= r.0 <= r.1 <= to,
{
    let mut a = from;
    while a < to && is_space_char(s[a])
        invariant
            from <= a <= to <= s@.len(),
            skip_space_front(s@, from as int, to as int) == skip_space_front(s@, a as int, to as int),
        decreases to - a,
    {
        a = a + 1;
    }
    let mut b = to;
    while b > a && is_space_char(s[b - 1])
        invariant
            a <= b <= to <= s@.len(),
            skip_space_back(s@, a as int, to as int) == skip_space_back(s@, a as int, b as int),
        decreases b - a,
    {
        b = b - 1;
    }
    (a, b)
}

/// The first position in `s[from..to]` holding `c`.
pub fn find_in(s: &Vec<char>, c: char, from: usize, to: usize) -> (r: Option<usize>)
    requires
        from <= to <= s@.len(),
    ensures
        match r {
            Some(k) => find_char(s@, c, from as int, to as int) == Some(k as int),
            None => find_char(s@, c, from as int, to as int) is None,
        },
{
    let mut i = from;
    while i < to
        invariant
            from <= i <= to <= s@.len(),
            find_char(s@, c, from as int, to as int) == find_char(s@, c, i as int, to as int),
        decreases to - i,
    {
        if s[i] == c {
            return Some(i);
        }
        i = i + 1;
    }
    None
}

/// The string made of the characters `from` to `to` of `text`.
pub fn substring(text: &str, from: usize, to: usize) -> (r: String)
    requires
        from <= to <= text@.len(),
    ensures
        r@ == text@.subrange(from as int, to as int),
{
    text.substring_char(from, to).to_owned()
}

/// The state a status word names: one of the canonical words, unset
/// for an empty word, and any other word kept as it is.
pub open spec fn state_of_word(w: Seq<char>) -> StateView {
    if w == "starting"@ {
        StateView::Starting
    } else if w == "building"@ {
        StateView::Building
    } else if w == "running"@ {
        StateView::Running
    } else if w == "ready"@ {
        StateView::Ready
    } else if w == "failed"@ {
        StateView::Failed
    } else if w == "stopped"@ {
        StateView::Stopped
    } else if w.len() == 0 {
        StateView::Unset
    } else {
        StateView::Other(w)
    }
}

/// What a status file says: surrounding whitespace is dropped; the state
/// word runs up to the first colon, if any, and what follows it is the
/// detail, both without surrounding whitespace; an empty detail is none.
pub open spec fn status_spec(c: Seq<char>) -> (StateView, Option<Seq<char>>) {
    let a = skip_space_front(c, 0, c.len() as int);
    let b = skip_space_back(c, a, c.len() as int);
    match find_char(c, ':', a, b) {
        Some(k) => (
            state_of_word(trimmed(c, a, k)),
            if trimmed(c, k + 1, b).len() == 0 {
                None
            } else {
                Some(trimmed(c, k + 1, b))
            },
        ),
        None => (state_of_word(c.subrange(a, b)), None),
    }
}

/// The state a status word names.
pub fn state_from_word(w: String) -> (r: State)
    ensures
        r@ == state_of_word(w@),
{
    if w == "starting".to_owned() {
        State::Starting
    } else if w == "building".to_owned() {
        State::Building
    } else if w == "running".to_owned() {
        State::Running
    } else if w == "ready".to_owned() {
        State::Ready
    } else if w == "failed".to_owned() {
        State::Failed
    } else if w == "stopped".to_owned() {
        State::Stopped
    } else if w.as_str().unicode_len() == 0 {
        State::Unset
    } else {
        State::Other(w)
    }
}

/// Reads a status file's content: `<state>` or `<state>: <detail>`.
pub fn parse_status(content: &str) -> (r: (State, Option<String>))
    ensures
        (r.0@, match r.1 {
            Some(d) => Some(d@),
            None => None::<Seq<char>>,
        }) == status_spec(content@),
{
    let cs = chars_of(content);
    let n = cs.len();
    let (a, b) = trim_bounds(&cs, 0, n);
    match find_in(&cs, ':', a, b) {
        Some(k) => {
            proof {
                lemma_find_bounds(cs@, ':', a as int, b as int);
            }
            let (wa, wb) = trim_bounds(&cs, a, k);
            let (da, db) = trim_bounds(&cs, k + 1, b);
            let word = substring(content, wa, wb);
            let detail = if da == db {
                None
            } else {
                Some(substring(content, da, db))
            };
            (state_from_word(word), detail)
        },
        None => (state_from_word(substring(content, a, b)), None),
    }
}

/// Whether a character is a decimal digit.
pub open spec fn is_digit(c: char) -> bool {
    '0' <= c && c <= '9'
}

/// The value of a sequence of decimal digits.
pub open spec fn digits_value(s: Seq<char>) -> int
    decreases s.len(),
{
    if s.len() == 0 {
        0
    } else {
        digits_value(s.drop_last()) * 10 + ((s.last() as u32) - ('0' as u32))
    }
}

/// `s` without a leading `+`.
pub open spec fn unsigned_part(s: Seq<char>) -> Seq<char> {
    if s.len() > 0 && s[0] == '+' {
        s.drop_first()
    } else {
        s
    }
}

/// Whether every character of `d` is a decimal digit.
pub open spec fn all_digits(d: Seq<char>) -> bool {
    forall|i: int| 0 <= i < d.len() ==> is_digit(#[trigger] d[i])
}

/// The number written in `s`: an optional `+`, then one or more decimal
/// digits, worth at most `max`.
pub open spec fn number_spec(s: Seq<char>, max: int) -> Option<int> {
    let d = unsigned_part(s);
    if d.len() > 0 && all_digits(d) && digits_value(d) <= max {
        Some(digits_value(d))
    } else {
        None
    }
}

proof fn lemma_digits_grow(s: Seq<char>, k: int, j: int)
    requires
        0 <= k <= j <= s.len(),
        forall|i: int| 0 <= i < s.len() ==> is_digit(#[trigger] s[i]),
    ensures
        digits_value(s.take(k)) <= digits_value(s.take(j)),
        digits_value(s.take(j)) >= 0,
    decreases j,
{
    if j > 0 {
        assert(s.take(j).drop_last() =~= s.take(j - 1));
        lemma_digits_grow(s, 0, j - 1);
        assert(is_digit(s[j - 1]));
        if k < j {
            lemma_digits_grow(s, k, j - 1);
        }
    }
}

/// The number written in `s[from..to]`, as [`number_spec`] says.
pub fn parse_number(s: &Vec<char>, from: usize, to: usize, max: u64) -> (r: Option<u64>)
    requires
        from <= to <= s@.len(),
        max <= 0xFFFF_FFFF,
    ensures
        match r {
            Some(v) => number_spec(s@.subrange(from as int, to as int), max as int) == Some(v as int),
            None => number_spec(s@.subrange(from as int, to as int), max as int) is None,
        },
{
    let ghost t = s@.subrange(from as int, to as int);
    let mut a = from;
    if a < to && s[a] == '+' {
        a = a + 1;
    }
    let ghost d = s@.subrange(a as int, to as int);
    assert(d =~= unsigned_part(t));
    if a == to {
        return None;
    }
    let mut v: u64 = 0;
    let mut i = a;
    while i < to
        invariant
            a <= i <= to <= s@.len(),
            d == s@.subrange(a as int, to as int),
            t == s@.subrange(from as int, to as int),
            d == unsigned_part(t),
            d.len() > 0,
            forall|j: int| 0 <= j < i - a ==> is_digit(#[trigger] d[j]),
            v == digits_value(d.take(i - a)),
            v <= max,
            max <= 0xFFFF_FFFF,
        decreases to - i,
    {
        let c = s[i];
        assert(d[i - a] == c);
        if !('0' <= c && c <= '9') {
            assert(!is_digit(d[i - a]));
            assert(!all_digits(d));
            return None;
        }
        let digit = (c as u32 - '0' as u32) as u64;
        assert(d.take(i - a + 1).drop_last() =~= d.take(i - a));
        assert(d.take(i - a + 1).last() == c);
        let nv = v * 10 + digit;
        assert(digits_value(d.take(i - a + 1)) == nv);
        if nv > max {
            proof {
                assert forall|j: int| 0 <= j < i - a + 1 implies is_digit(#[trigger] d.take(i - a + 1)[j]) by {}
                if all_digits(d) {
                    lemma_digits_grow(d, i - a + 1, d.len() as int);
                    assert(d.take(d.len() as int) =~= d);
                }
            }
            return None;
        }
        v = nv;
        i = i + 1;
    }
    assert(d.take(to - a) =~= d);
    Some(v)
}

/// What (part of) a meta file declares: the supervisor's process
/// identifier, the project's directory, the start time in Unix seconds, and
/// the ports in order.
pub ghost struct MetaModel {
    pub pid: Option<u32>,
    pub dir: Option<Seq<char>>,
    pub started: Option<u64>,
    pub ports: Seq<(Seq<char>, u16)>,
}

/// A meta file that declares nothing.
pub open spec fn no_meta() -> MetaModel {
    MetaModel { pid: None, dir: None, started: None, ports: Seq::empty() }
}

/// What `first` and then `later` declare: a later declaration of the
/// process identifier, directory or start time replaces an earlier one;
/// ports accumulate in order.
pub open spec fn combine(first: MetaModel, later: MetaModel) -> MetaModel {
    MetaModel {
        pid: if later.pid is Some { later.pid } else { first.pid },
        dir: if later.dir is Some { later.dir } else { first.dir },
        started: if later.started is Some { later.started } else { first.started },
        ports: first.ports + later.ports,
    }
}

/// What one `KEY=VALUE` line of a meta file declares, the line being
/// `s[i..e]`; key and value are taken without surrounding whitespace:
/// `PID` with a number up to 4294967295; `DIR` with any value; `STARTED`
/// with a number up to 4294967295; `<NAME>_PORT` (with a nonempty name)
/// with a number up to 65535. Any other line declares nothing.
pub open spec fn meta_line(s: Seq<char>, i: int, e: int) -> MetaModel {
    match find_char(s, '=', i, e) {
        Some(k) => {
            let key = trimmed(s, i, k);
            let value = trimmed(s, k + 1, e);
            MetaModel {
                pid: if key == "PID"@ {
                    match number_spec(value, 0xFFFF_FFFF) {
                        Some(v) => Some(v as u32),
                        None => None,
                    }
                } else {
                    None
                },
                dir: if key == "DIR"@ { Some(value) } else { None },
                started: if key == "STARTED"@ {
                    match number_spec(value, 0xFFFF_FFFF) {
                        Some(v) => Some(v as u64),
                        None => None,
                    }
                } else {
                    None
                },
                ports: if key.len() > 5 && key.subrange(key.len() - 5, key.len() as int) == "_PORT"@ {
                    match number_spec(value, 0xFFFF) {
                        Some(v) => seq![(key.subrange(0, key.len() - 5), v as u16)],
                        None => Seq::empty(),
                    }
                } else {
                    Seq::empty()
                },
            }
        },
        None => no_meta(),
    }
}

/// The end of the line that starts at `i`: the next line feed, or the end.
pub open spec fn line_end(s: Seq<char>, i: int) -> int {
    match find_char(s, '\n', i, s.len() as int) {
        Some(k) => k,
        None => s.len() as int,
    }
}

/// What the lines of a meta file from position `i` on declare.
pub open spec fn meta_from(s: Seq<char>, i: int) -> MetaModel
    decreases s.len() - i,
{
    if i >= s.len() || i < 0 {
        no_meta()
    } else {
        let e = line_end(s, i);
        let rest = if i <= e < s.len() { meta_from(s, e + 1) } else { no_meta() };
        combine(meta_line(s, i, e), rest)
    }
}

proof fn lemma_combine_assoc(a: MetaModel, b: MetaModel, c: MetaModel)
    ensures
        combine(a, combine(b, c)) == combine(combine(a, b), c),
        combine(a, no_meta()) == a,
{
    assert(a.ports + (b.ports + c.ports) =~= (a.ports + b.ports) + c.ports);
    assert(a.ports + Seq::<(Seq<char>, u16)>::empty() =~= a.ports);
}

/// What a meta file declares.
pub struct MetaInfo {
    pub pid: Option<u32>,
    pub dir: Option<String>,
    pub started: Option<u64>,
    pub ports: Vec<(String, u16)>,
}

/// The declared ports, by value.
pub open spec fn ports_seq_view(v: Seq<(String, u16)>) -> Seq<(Seq<char>, u16)> {
    v.map_values(|p: (String, u16)| (p.0@, p.1))
}

impl View for MetaInfo {
    type V = MetaModel;

    open spec fn view(&self) -> MetaModel {
        MetaModel {
            pid: self.pid,
            dir: match self.dir {
                Some(d) => Some(d@),
                None => None,
            },
            started: self.started,
            ports: ports_seq_view(self.ports@),
        }
    }
}

/// Reads one line, `content[i..e]`, of a meta file.
fn parse_meta_line(content: &str, cs: &Vec<char>, i: usize, e: usize) -> (r: MetaInfo)
    requires
        cs@ == content@,
        i <= e <= cs@.len(),
    ensures
        r@ == meta_line(cs@, i as int, e as int),
{
    let ghost s = cs@;
    let mut r = MetaInfo { pid: None, dir: None, started: None, ports: Vec::new() };
    match find_in(cs, '=', i, e) {
        Some(k) => {
            proof {
                lemma_find_bounds(s, '=', i as int, e as int);
            }
            let (ka, kb) = trim_bounds(cs, i, k);
            let (va, vb) = trim_bounds(cs, k + 1, e);
            let ghost key = trimmed(s, i as int, k as int);
            let ghost value = trimmed(s, k + 1, e as int);
            assert(key == s.subrange(ka as int, kb as int));
            let key_str = substring(content, ka, kb);
            if key_str == "PID".to_owned() {
                match parse_number(cs, va, vb, 0xFFFF_FFFF) {
                    Some(v) => {
                        r.pid = Some(v as u32);
                    },
                    None => {},
                }
            }
            if key_str == "DIR".to_owned() {
                r.dir = Some(substring(content, va, vb));
            }
            if key_str == "STARTED".to_owned() {
                r.started = parse_number(cs, va, vb, 0xFFFF_FFFF);
            }
            if kb - ka > 5 {
                let suffix = substring(content, kb - 5, kb);
                assert(key.subrange(key.len() - 5, key.len() as int) =~= s.subrange(kb - 5, kb as int));
                if suffix == "_PORT".to_owned() {
                    match parse_number(cs, va, vb, 0xFFFF) {
                        Some(v) => {
                            let name = substring(content, ka, kb - 5);
                            assert(key.subrange(0, key.len() - 5) =~= name@);
                            r.ports.push((name, v as u16));
                            assert(ports_seq_view(r.ports@) =~= seq![(name@, v as u16)]);
                        },
                        None => {},
                    }
                }
            }
            assert(ports_seq_view(r.ports@) =~= meta_line(s, i as int, e as int).ports);
        },
        None => {
            assert(ports_seq_view(r.ports@) =~= Seq::<(Seq<char>, u16)>::empty());
        },
    }
    r
}

/// Reads a meta file's content: `KEY=VALUE` lines.
pub fn parse_meta(content: &str) -> (r: MetaInfo)
    ensures
        r@ == meta_from(content@, 0),
{
    let cs = chars_of(content);
    let n = cs.len();
    let ghost s = cs@;
    let mut acc = MetaInfo { pid: None, dir: None, started: None, ports: Vec::new() };
    assert(acc@.ports =~= Seq::<(Seq<char>, u16)>::empty());
    proof {
        lemma_combine_assoc(no_meta(), no_meta(), meta_from(s, 0));
        assert(combine(no_meta(), meta_from(s, 0)) =~= meta_from(s, 0)) by {
            assert(Seq::<(Seq<char>, u16)>::empty() + meta_from(s, 0).ports =~= meta_from(s, 0).ports);
        }
    }
    let mut i: usize = 0;
    while i < n
        invariant
            0 <= i <= n,
            n == s.len(),
            s == cs@,
            s == content@,
            meta_from(s, 0) == combine(acc@, meta_from(s, i as int)),
        decreases n - i,
    {
        let e = match find_in(&cs, '\n', i, n) {
            Some(k) => k,
            None => n,
        };
        proof {
            lemma_find_bounds(s, '\n', i as int, n as int);
        }
        assert(e == line_end(s, i as int));
        let line = parse_meta_line(content, &cs, i, e);
        let ghost rest = if e < n { meta_from(s, e + 1) } else { no_meta() };
        proof {
            lemma_combine_assoc(acc@, line@, rest);
        }
        let ghost before = acc@;
        if line.pid.is_some() {
            acc.pid = line.pid;
        }
        if line.dir.is_some() {
            acc.dir = line.dir;
        }
        if line.started.is_some() {
            acc.started = line.started;
        }
        let ghost old_ports = acc.ports@;
        let mut ports = line.ports;
        let ghost line_ports = ports@;
        acc.ports.append(&mut ports);
        assert(acc.ports@ =~= old_ports + line_ports);
        assert(ports_seq_view(acc.ports@) =~= ports_seq_view(old_ports) + ports_seq_view(line_ports));
        assert(acc@ == combine(before, line@));
        if e < n {
            i = e + 1;
        } else {
            i = n;
        }
    }
    acc
}

/// Whether a character is a hexadecimal digit.
pub open spec fn is_hex(c: char) -> bool {
    ('0' <= c && c <= '9') || ('a' <= c && c <= 'f') || ('A' <= c && c <= 'F')
}

/// Whether a file name names a meta file: one or more hexadecimal digits.
pub open spec fn meta_name_spec(name: Seq<char>) -> bool {
    name.len() > 0 && forall|i: int| 0 <= i < name.len() ==> is_hex(#[trigger] name[i])
}

/// Whether a file name in the state folder is an environment's meta file.
pub fn is_meta_file_name(name: &str) -> (r: bool)
    ensures
        r == meta_name_spec(name@),
{
    let cs = chars_of(name);
    if cs.len() == 0 {
        return false;
    }
    let mut i: usize = 0;
    while i < cs.len()
        invariant
            0 <= i <= cs@.len(),
            cs@ == name@,
            forall|j: int| 0 <= j < i ==> is_hex(#[trigger] cs@[j]),
        decreases cs.len() - i,
    {
        let c = cs[i];
        if !(('0' <= c && c <= '9') || ('a' <= c && c <= 'f') || ('A' <= c && c <= 'F')) {
            assert(!is_hex(cs@[i as int]));
            return false;
        }
        i = i + 1;
    }
    true
}

/// The environment and unit a status file name belongs to:
/// `<id>.<unit>.status`, with the identifier running up to the first dot,
/// and neither part empty; the legacy form `.<id>.<unit>.status`, with a
/// leading dot, names the same unit.
pub open spec fn status_name_spec(name: Seq<char>) -> Option<(Seq<char>, Seq<char>)> {
    if name.len() > 0 && name[0] == '.' {
        plain_status_name_spec(name.drop_first())
    } else {
        plain_status_name_spec(name)
    }
}

/// The environment and unit of a name `<id>.<unit>.status`.
pub open spec fn plain_status_name_spec(name: Seq<char>) -> Option<(Seq<char>, Seq<char>)> {
    if name.len() > 7 && name.subrange(name.len() - 7, name.len() as int) == ".status"@ {
        let stem_end = name.len() - 7;
        match find_char(name, '.', 0, stem_end) {
            Some(k) => if 0 < k && k + 1 < stem_end {
                Some((name.subrange(0, k), name.subrange(k + 1, stem_end)))
            } else {
                None
            },
            None => None,
        }
    } else {
        None
    }
}

/// The environment identifier and unit name of a status file's name.
pub fn status_file_unit(name: &str) -> (r: Option<(String, String)>)
    ensures
        match r {
            Some((e, u)) => status_name_spec(name@) == Some((e@, u@)),
            None => status_name_spec(name@) is None,
        },
{
    let n = name.unicode_len();
    if n > 0 && name.get_char(0) == '.' {
        let rest = name.substring_char(1, n);
        assert(rest@ =~= name@.drop_first());
        plain_status_file_unit(rest)
    } else {
        plain_status_file_unit(name)
    }
}

fn plain_status_file_unit(name: &str) -> (r: Option<(String, String)>)
    ensures
        match r {
            Some((e, u)) => plain_status_name_spec(name@) == Some((e@, u@)),
            None => plain_status_name_spec(name@) is None,
        },
{
    let cs = chars_of(name);
    let n = cs.len();
    if n <= 7 {
        return None;
    }
    let suffix = substring(name, n - 7, n);
    if !(suffix == ".status".to_owned()) {
        return None;
    }
    let stem_end = n - 7;
    match find_in(&cs, '.', 0, stem_end) {
        Some(k) => {
            proof {
                lemma_find_bounds(cs@, '.', 0, stem_end as int);
            }
            if 0 < k && k + 1 < stem_end {
                Some((substring(name, 0, k), substring(name, k + 1, stem_end)))
            } else {
                None
            }
        },
        None => None,
    }
}

/// A status file: the environment and unit its name names, and its
/// content.
pub struct StatusFile {
    pub env_id: String,
    pub unit_name: String,
    pub content: String,
}

/// A unit by value: name, state and detail.
pub type UnitModel = (Seq<char>, StateView, Option<Seq<char>>);

/// The value of a unit.
pub open spec fn unit_model(u: UnitStatus) -> UnitModel {
    (u.name@, u.state@, match u.detail {
        Some(d) => Some(d@),
        None => None,
    })
}

/// The units that the status files of environment `id` describe, in the
/// order of the files.
pub open spec fn units_spec(id: Seq<char>, files: Seq<StatusFile>) -> Seq<UnitModel>
    decreases files.len(),
{
    if files.len() == 0 {
        Seq::empty()
    } else {
        let f = files.last();
        units_spec(id, files.drop_last()) + if f.env_id@ == id {
            let (st, detail) = status_spec(f.content@);
            seq![(f.unit_name@, st, detail)]
        } else {
            Seq::empty()
        }
    }
}

/// Builds environment `id` from its meta file, whether its supervisor is
/// alive, and the state folder's status files: none when the meta file
/// lacks either required key, the process identifier or the directory;
/// otherwise the declared identifier, directory, start time and ports, and
/// one unit per status file of the environment, in order.
pub fn environment(id: String, meta: MetaInfo, alive: bool, files: &Vec<StatusFile>) -> (r: Option<Environment>)
    ensures
        match r {
            Some(env) => {
                &&& meta.pid == Some(env.pid)
                &&& meta@.dir == Some(env.dir@)
                &&& env.started == meta.started
                &&& env.id@ == id@
                &&& env.alive == alive
                &&& ports_seq_view(env.ports@) == ports_seq_view(meta.ports@)
                &&& env.units@.map_values(|u: UnitStatus| unit_model(u)) == units_spec(id@, files@)
            },
            None => meta.pid is None || meta.dir is None,
        },
{
    let pid = match meta.pid {
        Some(p) => p,
        None => {
            return None;
        },
    };
    let dir = match meta.dir {
        Some(d) => d,
        None => {
            return None;
        },
    };
    let mut units: Vec<UnitStatus> = Vec::new();
    let mut i: usize = 0;
    while i < files.len()
        invariant
            0 <= i <= files.len(),
            units@.map_values(|u: UnitStatus| unit_model(u)) == units_spec(id@, files@.take(i as int)),
        decreases files.len() - i,
    {
        let f = &files[i];
        assert(files@.take(i + 1).drop_last() =~= files@.take(i as int));
        assert(files@.take(i + 1).last() == *f);
        let ghost before = units@;
        if f.env_id == id {
            let (state, detail) = parse_status(f.content.as_str());
            let u = UnitStatus { name: f.unit_name.clone(), state, detail };
            units.push(u);
            assert(units@ =~= before.push(u));
            assert(units@.map_values(|u: UnitStatus| unit_model(u)) =~= before.map_values(
                |u: UnitStatus| unit_model(u),
            ).push(unit_model(u)));
        } else {
            assert(units_spec(id@, files@.take(i as int)) + Seq::<UnitModel>::empty() =~= units_spec(
                id@,
                files@.take(i as int),
            ));
        }
        i = i + 1;
    }
    assert(files@.take(files.len() as int) =~= files@);
    Some(Environment { id, units, pid, alive, ports: meta.ports, dir, started: meta.started })
}

} // verus!
