//! Reading back a keeper ensemble's own view of its membership.
//!
//! A keeper answers the query `get /keeper/config` with one line per member,
//! `server.<id>=<host>:<port>;<role info>`. The answer is parsed all or
//! nothing: one line out of that shape rejects the whole answer.

use std::collections::BTreeMap;
use vstd::prelude::*;
use crate::text::{chars_of, push_char};

verus! {

/// `std::io::Error`, carried unopened in `KeeperError::Io`.
#[verifier::external_type_specification]
#[verifier::external_body]
pub struct ExIoError(std::io::Error);

/// Why reading the membership from a keeper failed.
#[derive(Debug)]
pub enum KeeperError {
    /// No config present.
    NoConfig,
    /// Talking to the keeper failed.
    Io(std::io::Error),
    /// The answer was not in the expected shape.
    UnexpectedResponse,
}

/// A member of the ensemble as the keeper reports it.
#[derive(Debug, Clone)]
pub struct KeeperConfig {
    pub addr: String,
}

/// The query that asks a keeper for the ensemble membership.
pub const CONFIG_QUERY: &'static str = "get /keeper/config";

/// The position of the first `c` in `s`, or the length of `s` when there is
/// none.
pub open spec fn find_char(s: Seq<char>, c: char) -> int
    decreases s.len(),
{
    if s.len() == 0 {
        0
    } else if s[0] == c {
        0
    } else {
        1 + find_char(s.drop_first(), c)
    }
}

/// `l` without one trailing carriage return.
pub open spec fn strip_cr(l: Seq<char>) -> Seq<char> {
    if l.len() > 0 && l.last() == '\r' {
        l.drop_last()
    } else {
        l
    }
}

/// The lines of `s` as `str::lines` yields them: split at each `\n`, a `\r`
/// right before a `\n` dropped, no empty line after a final `\n`.
pub open spec fn response_lines(s: Seq<char>) -> Seq<Seq<char>>
    decreases s.len(),
{
    if s.len() == 0 {
        Seq::empty()
    } else {
        let i = find_char(s, '\n');
        if 0 <= i < s.len() {
            seq![strip_cr(s.take(i))] + response_lines(s.skip(i + 1))
        } else {
            seq![s]
        }
    }
}

/// Whether `c` is an ASCII digit.
pub open spec fn is_digit(c: char) -> bool {
    '0' <= c <= '9'
}

/// The value of a string of ASCII digits.
pub open spec fn digits_value(s: Seq<char>) -> nat
    decreases s.len(),
{
    if s.len() == 0 {
        0
    } else {
        digits_value(s.drop_last()) * 10 + ((s.last() as int) - ('0' as int)) as nat
    }
}

/// `s` read as a `u64` the way Rust reads one: an optional `+`, then one or
/// more ASCII digits whose value fits.
pub open spec fn parse_u64(s: Seq<char>) -> Option<u64> {
    let d = if s.len() > 0 && s[0] == '+' {
        s.drop_first()
    } else {
        s
    };
    if d.len() > 0 && (forall|i: int| 0 <= i < d.len() ==> is_digit(#[trigger] d[i]))
        && digits_value(d) <= u64::MAX {
        Some(digits_value(d) as u64)
    } else {
        None
    }
}

/// `server.`, which starts every line of the answer.
pub open spec fn server_prefix() -> Seq<char> {
    seq!['s', 'e', 'r', 'v', 'e', 'r', '.']
}

/// The position of the last `c` in `s`, or -1 when there is none.
pub open spec fn last_char(s: Seq<char>, c: char) -> int
    decreases s.len(),
{
    if s.len() == 0 {
        -1
    } else if s.last() == c {
        s.len() - 1
    } else {
        last_char(s.drop_last(), c)
    }
}

/// A port number as written: one or more ASCII digits.
pub open spec fn is_port(p: Seq<char>) -> bool {
    p.len() > 0 && forall|i: int| 0 <= i < p.len() ==> is_digit(#[trigger] p[i])
}

/// `<host>:<port>`: a non-empty host (which may itself hold colons, as in
/// `[::1]`), then a colon and a port, with no `=` anywhere.
pub open spec fn is_address(a: Seq<char>) -> bool {
    let k = last_char(a, ':');
    &&& 0 < k
    &&& find_char(a, '=') == a.len()
    &&& is_port(a.skip(k + 1))
}

/// One line of the answer, `server.<id>=<host>:<port>;<role info>` with
/// non-empty role info: the member's ID and its `host:port`.
pub open spec fn parse_line(l: Seq<char>) -> Option<(u64, Seq<char>)> {
    if l.len() >= 7 && l.take(7) == server_prefix() {
        let r = l.skip(7);
        let i = find_char(r, '=');
        let after = r.skip(i + 1);
        let j = find_char(after, ';');
        if 0 <= i < r.len() && 0 <= j < after.len() - 1 && is_address(after.take(j)) {
            match parse_u64(r.take(i)) {
                Some(id) => Some((id, after.take(j))),
                None => None,
            }
        } else {
            None
        }
    } else {
        None
    }
}

/// The members described by `lines`, added to `acc`; a later line for the
/// same ID replaces an earlier one.
pub open spec fn parse_lines(lines: Seq<Seq<char>>, acc: Map<u64, Seq<char>>) -> Option<
    Map<u64, Seq<char>>,
>
    decreases lines.len(),
{
    if lines.len() == 0 {
        Some(acc)
    } else {
        match parse_line(lines[0]) {
            Some((id, addr)) => parse_lines(lines.drop_first(), acc.insert(id, addr)),
            None => None,
        }
    }
}

/// The membership described by a keeper's answer `s`, or `None` when any
/// line is out of shape.
pub open spec fn parse_response(s: Seq<char>) -> Option<Map<u64, Seq<char>>> {
    parse_lines(response_lines(s), Map::empty())
}

/// The addresses of a parsed membership.
pub open spec fn addrs(m: Map<u64, KeeperConfig>) -> Map<u64, Seq<char>> {
    m.map_values(|k: KeeperConfig| k.addr@)
}

/// Relies on `str::parse::<u64>`: its documentation accepts an optional `+`
/// followed by ASCII digits only, and rejects an empty string and a value
/// that does not fit.
#[verifier::external_body]
fn parse_id(s: &str) -> (r: Option<u64>)
    ensures
        r == parse_u64(s@),
{
    s.parse::<u64>().ok()
}

proof fn lemma_find_char(s: Seq<char>, c: char)
    ensures
        0 <= find_char(s, c) <= s.len(),
        forall|j: int| 0 <= j < find_char(s, c) ==> s[j] != c,
        find_char(s, c) < s.len() ==> s[find_char(s, c)] == c,
    decreases s.len(),
{
    if s.len() > 0 && s[0] != c {
        lemma_find_char(s.drop_first(), c);
        assert forall|j: int| 0 <= j < find_char(s, c) implies s[j] != c by {
            if j > 0 {
                assert(s[j] == s.drop_first()[j - 1]);
            }
        }
    }
}

/// The position of the first `c` in `v[from..to]`, or `to` when there is
/// none.
fn find_in(v: &Vec<char>, c: char, from: usize, to: usize) -> (r: usize)
    requires
        from <= to <= v.len(),
    ensures
        from <= r <= to,
        r - from == find_char(v@.subrange(from as int, to as int), c),
{
    let mut i = from;
    while i < to
        invariant
            from <= i <= to <= v.len(),
            forall|j: int| from <= j < i ==> v[j] != c,
        ensures
            from <= i <= to,
            forall|j: int| from <= j < i ==> v[j] != c,
            i < to ==> v[i as int] == c,
        decreases to - i,
    {
        if v[i] == c {
            break;
        }
        i += 1;
    }
    let ghost s = v@.subrange(from as int, to as int);
    proof {
        lemma_find_char(s, c);
        let f = find_char(s, c);
        if f < i - from {
            assert(s[f] == v[from + f]);
        }
        if i - from < f {
            assert(s[i - from] == v[i as int]);
        }
    }
    i
}

/// `v[from..to]` as a string.
fn collect(v: &Vec<char>, from: usize, to: usize) -> (r: String)
    requires
        from <= to <= v.len(),
    ensures
        r@ == v@.subrange(from as int, to as int),
{
    let mut s = String::new();
    let mut i = from;
    while i < to
        invariant
            from <= i <= to <= v.len(),
            s@ == v@.subrange(from as int, i as int),
        decreases to - i,
    {
        push_char(&mut s, v[i]);
        assert(s@ =~= v@.subrange(from as int, i + 1));
        i += 1;
    }
    s
}

proof fn lemma_last_char(s: Seq<char>, c: char)
    ensures
        -1 <= last_char(s, c) < s.len(),
        forall|j: int| last_char(s, c) < j < s.len() ==> s[j] != c,
        last_char(s, c) >= 0 ==> s[last_char(s, c)] == c,
    decreases s.len(),
{
    if s.len() > 0 && s.last() != c {
        lemma_last_char(s.drop_last(), c);
        assert forall|j: int| last_char(s, c) < j < s.len() implies s[j] != c by {
            if j < s.len() - 1 {
                assert(s[j] == s.drop_last()[j]);
            }
        }
    }
}

/// The position of the last `c` in `v[from..to]`, if there is one.
fn rfind_in(v: &Vec<char>, c: char, from: usize, to: usize) -> (r: Option<usize>)
    requires
        from <= to <= v.len(),
    ensures
        match r {
            None => last_char(v@.subrange(from as int, to as int), c) == -1,
            Some(k) => from <= k < to && k - from == last_char(
                v@.subrange(from as int, to as int),
                c,
            ),
        },
{
    let ghost s = v@.subrange(from as int, to as int);
    let mut i = to;
    while i > from
        invariant
            from <= i <= to <= v.len(),
            s == v@.subrange(from as int, to as int),
            forall|j: int| i <= j < to ==> v[j] != c,
        decreases i - from,
    {
        if v[i - 1] == c {
            proof {
                lemma_last_char(s, c);
                let lc = last_char(s, c);
                if lc > i - 1 - from {
                    assert(s[lc] == v[from + lc]);
                }
                if lc < i - 1 - from {
                    assert(s[i - 1 - from] == v[i - 1]);
                }
            }
            return Some(i - 1);
        }
        i -= 1;
    }
    proof {
        lemma_last_char(s, c);
        let lc = last_char(s, c);
        if lc >= 0 {
            assert(s[lc] == v[from + lc]);
        }
    }
    None
}

/// Whether `v[from..to]` is a port number.
fn all_digits(v: &Vec<char>, from: usize, to: usize) -> (b: bool)
    requires
        from <= to <= v.len(),
    ensures
        b == is_port(v@.subrange(from as int, to as int)),
{
    let ghost s = v@.subrange(from as int, to as int);
    if from == to {
        return false;
    }
    let mut i = from;
    while i < to
        invariant
            from <= i <= to <= v.len(),
            s == v@.subrange(from as int, to as int),
            forall|j: int| from <= j < i ==> is_digit(#[trigger] v[j]),
        decreases to - i,
    {
        if v[i] < '0' || v[i] > '9' {
            assert(!is_digit(s[i - from]));
            return false;
        }
        i += 1;
    }
    assert forall|j: int| 0 <= j < s.len() implies is_digit(#[trigger] s[j]) by {
        assert(s[j] == v[from + j]);
    }
    true
}

/// Parses the line `v[start..end]`.
fn parse_line_at(v: &Vec<char>, start: usize, end: usize) -> (r: Option<(u64, String)>)
    requires
        start <= end <= v.len(),
    ensures
        match r {
            None => parse_line(v@.subrange(start as int, end as int)) is None,
            Some((id, addr)) => parse_line(v@.subrange(start as int, end as int)) == Some(
                (id, addr@),
            ),
        },
{
    let ghost l = v@.subrange(start as int, end as int);
    if end - start < 7 || v[start] != 's' || v[start + 1] != 'e' || v[start + 2] != 'r' || v[start
        + 3] != 'v' || v[start + 4] != 'e' || v[start + 5] != 'r' || v[start + 6] != '.' {
        proof {
            if l.len() >= 7 && l.take(7) == server_prefix() {
                assert(l.take(7)[0] == v[start as int]);
                assert(l.take(7)[1] == v[start + 1]);
                assert(l.take(7)[2] == v[start + 2]);
                assert(l.take(7)[3] == v[start + 3]);
                assert(l.take(7)[4] == v[start + 4]);
                assert(l.take(7)[5] == v[start + 5]);
                assert(l.take(7)[6] == v[start + 6]);
            }
        }
        return None;
    }
    assert(l.take(7) =~= server_prefix());
    let b = start + 7;
    let ghost r = l.skip(7);
    assert(r =~= v@.subrange(b as int, end as int));
    let eq = find_in(v, '=', b, end);
    if eq == end {
        return None;
    }
    let after = eq + 1;
    let ghost rest = r.skip(eq - b + 1);
    assert(rest =~= v@.subrange(after as int, end as int));
    let semi = find_in(v, ';', after, end);
    if semi == end || semi + 1 == end {
        return None;
    }
    let ghost a = rest.take(semi - after);
    assert(a =~= v@.subrange(after as int, semi as int));
    if find_in(v, '=', after, semi) != semi {
        return None;
    }
    let colon = match rfind_in(v, ':', after, semi) {
        Some(k) => k,
        None => {
            return None;
        },
    };
    if colon == after {
        return None;
    }
    assert(a.skip(colon - after + 1) =~= v@.subrange(colon + 1, semi as int));
    if !all_digits(v, colon + 1, semi) {
        return None;
    }
    let id_text = collect(v, b, eq);
    assert(r.take(eq - b) =~= id_text@);
    let addr = collect(v, after, semi);
    match parse_id(id_text.as_str()) {
        Some(id) => Some((id, addr)),
        None => None,
    }
}

/// The ensemble membership described by a keeper's answer to
/// `get /keeper/config`: each member's ID with its `host:port`.
pub fn parse_keeper_config(output: &str) -> (r: Result<BTreeMap<u64, KeeperConfig>, KeeperError>)
    ensures
        match r {
            Ok(m) => parse_response(output@) == Some(addrs(m@)),
            Err(e) => e is UnexpectedResponse && parse_response(output@) is None,
        },
{
    let v = chars_of(output);
    let mut config: BTreeMap<u64, KeeperConfig> = BTreeMap::new();
    let mut pos: usize = 0;
    assert(v@.skip(0) =~= v@);
    assert(addrs(config@) =~= Map::<u64, Seq<char>>::empty());
    while pos < v.len()
        invariant
            pos <= v.len(),
            v@ == output@,
            parse_lines(response_lines(v@.skip(pos as int)), addrs(config@)) == parse_response(
                output@,
            ),
        decreases v.len() - pos,
    {
        let ghost rest = v@.skip(pos as int);
        assert(rest =~= v@.subrange(pos as int, v.len() as int));
        let nl = find_in(&v, '\n', pos, v.len());
        let mut line_end = nl;
        if nl < v.len() && nl > pos && v[nl - 1] == '\r' {
            line_end = nl - 1;
        }
        let ghost line = if nl < v.len() {
            strip_cr(rest.take(nl - pos))
        } else {
            rest
        };
        assert(line =~= v@.subrange(pos as int, line_end as int));
        if nl < v.len() {
            assert(rest.skip(nl - pos + 1) =~= v@.skip(nl + 1));
        }
        assert(response_lines(rest)[0] == line);
        match parse_line_at(&v, pos, line_end) {
            None => {
                return Err(KeeperError::UnexpectedResponse);
            },
            Some((id, addr)) => {
                let ghost before = addrs(config@);
                let ghost a = addr@;
                config.insert(id, KeeperConfig { addr });
                assert(addrs(config@) =~= before.insert(id, a));
            },
        }
        if nl < v.len() {
            pos = nl + 1;
        } else {
            pos = v.len();
            assert(v@.skip(pos as int) =~= Seq::<char>::empty());
        }
        assert(response_lines(rest).drop_first() =~= response_lines(v@.skip(pos as int)));
    }
    Ok(config)
}

} // verus!
