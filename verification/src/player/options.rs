//! Player options: a `;`-separated list of `key=value` settings.

use vstd::prelude::*;
use crate::text::{push_str, chars_to_string};

verus! {

/// Characters with the Unicode White_Space property, which `trim` removes.
pub open spec fn is_space(c: char) -> bool {
    ||| ('\u{9}' <= c && c <= '\u{d}')
    ||| c == ' '
    ||| c == '\u{85}'
    ||| c == '\u{a0}'
    ||| c == '\u{1680}'
    ||| ('\u{2000}' <= c && c <= '\u{200a}')
    ||| c == '\u{2028}'
    ||| c == '\u{2029}'
    ||| c == '\u{202f}'
    ||| c == '\u{205f}'
    ||| c == '\u{3000}'
}

/// `s` without its leading white space.
pub open spec fn trim_start(s: Seq<char>) -> Seq<char>
    decreases s.len(),
{
    if s.len() > 0 && is_space(s[0]) { trim_start(s.drop_first()) } else { s }
}

/// `s` without its trailing white space.
pub open spec fn trim_end(s: Seq<char>) -> Seq<char>
    decreases s.len(),
{
    if s.len() > 0 && is_space(s.last()) { trim_end(s.drop_last()) } else { s }
}

/// `s` without leading and trailing white space.
pub open spec fn trim(s: Seq<char>) -> Seq<char> {
    trim_end(trim_start(s))
}

/// The index of the first `c` in `s` from `i` on, or the length of `s`.
pub open spec fn first_index(s: Seq<char>, c: char, i: int) -> int
    decreases s.len() - i,
{
    if i < 0 || i >= s.len() {
        s.len() as int
    } else if s[i] == c {
        i
    } else {
        first_index(s, c, i + 1)
    }
}

pub proof fn lemma_first_index_bound(s: Seq<char>, c: char, i: int)
    requires
        0 <= i,
    ensures
        first_index(s, c, i) <= s.len(),
        i <= s.len() ==> i <= first_index(s, c, i),
    decreases s.len() - i,
{
    if i < s.len() && s[i] != c {
        lemma_first_index_bound(s, c, i + 1);
    }
}

proof fn lemma_first_index_is(s: Seq<char>, c: char, i: int, k: int)
    requires
        0 <= i <= k <= s.len(),
        forall|j: int| i <= j < k ==> s[j] != c,
        k < s.len() ==> s[k] == c,
    ensures
        first_index(s, c, i) == k,
    decreases k - i,
{
    if i < k {
        lemma_first_index_is(s, c, i + 1, k);
    }
}

/// The pieces of `s` between the separators `c`, empty pieces included.
pub open spec fn split(s: Seq<char>, c: char) -> Seq<Seq<char>>
    decreases s.len(),
{
    let i = first_index(s, c, 0);
    if i >= s.len() {
        seq![s]
    } else {
        proof {
            lemma_first_index_bound(s, c, 0);
        }
        seq![s.subrange(0, i)] + split(s.subrange(i + 1, s.len() as int), c)
    }
}

/// Splitting at a first separator `k`.
proof fn lemma_split_at(s: Seq<char>, c: char, k: int)
    requires
        0 <= k < s.len(),
        s[k] == c,
        forall|j: int| 0 <= j < k ==> s[j] != c,
    ensures
        split(s, c) == seq![s.subrange(0, k)] + split(s.subrange(k + 1, s.len() as int), c),
{
    lemma_first_index_is(s, c, 0, k);
}

/// A piece without separators splits into itself.
proof fn lemma_split_none(s: Seq<char>, c: char)
    requires
        forall|j: int| 0 <= j < s.len() ==> s[j] != c,
    ensures
        split(s, c) == seq![s],
{
    lemma_first_index_is(s, c, 0, s.len() as int);
}

/// The setting a piece names: `key=value`, both trimmed, the value ending at
/// a further `=`; a piece without `=` is a key with an empty value.
pub open spec fn setting(piece: Seq<char>) -> (Seq<char>, Seq<char>) {
    if piece.contains('=') {
        let kv = split(piece, '=');
        (trim(kv[0]), trim(kv[1]))
    } else {
        (trim(piece), Seq::empty())
    }
}

/// The settings of the first `n` pieces, a later key replacing an earlier.
pub open spec fn settings(pieces: Seq<Seq<char>>, n: int) -> Map<Seq<char>, Seq<char>>
    decreases n,
{
    if n <= 0 {
        Map::empty()
    } else {
        let (k, v) = setting(pieces[n - 1]);
        settings(pieces, n - 1).insert(k, v)
    }
}

/// Player options, by key.
pub struct Options {
    opt: Vec<(String, String)>,
}

/// The map of the first `n` entries of a log of settings, later entries
/// replacing earlier ones.
pub open spec fn log_map(log: Seq<(String, String)>, n: int) -> Map<Seq<char>, Seq<char>>
    decreases n,
{
    if n <= 0 {
        Map::empty()
    } else {
        log_map(log, n - 1).insert(log[n - 1].0@, log[n - 1].1@)
    }
}

proof fn lemma_log_map_keys(log: Seq<(String, String)>, n: int, k: Seq<char>)
    requires
        0 <= n <= log.len(),
    ensures
        log_map(log, n).dom().contains(k) <==> exists|i: int| 0 <= i < n && #[trigger] log[i].0@ == k,
    decreases n,
{
    if n > 0 {
        lemma_log_map_keys(log, n - 1, k);
        if log[n - 1].0@ == k {
            assert(log[n - 1].0@ == k);
        }
        if exists|i: int| 0 <= i < n && #[trigger] log[i].0@ == k {
            let i = choose|i: int| 0 <= i < n && #[trigger] log[i].0@ == k;
            if i < n - 1 {
                assert(exists|j: int| 0 <= j < n - 1 && #[trigger] log[j].0@ == k);
            }
        }
    }
}

/// Leading white space removed: the index of the first other character.
fn trim_start_index(s: &str) -> (r: usize)
    ensures
        r <= s@.len(),
        trim_start(s@) == s@.subrange(r as int, s@.len() as int),
{
    let n = s.unicode_len();
    let mut i: usize = 0;
    assert(s@.subrange(0, n as int) =~= s@);
    while i < n
        invariant
            n == s@.len(),
            i <= n,
            trim_start(s@) == trim_start(s@.subrange(i as int, n as int)),
        decreases n - i,
    {
        let c = s.get_char(i);
        if !is_space_char(c) {
            assert(s@.subrange(i as int, n as int)[0] == c);
            return i;
        }
        assert(s@.subrange(i as int, n as int).drop_first() =~= s@.subrange(i + 1, n as int));
        i = i + 1;
    }
    assert(s@.subrange(n as int, n as int).len() == 0);
    n
}

/// Trailing white space removed from `s[start..]`: the end of the rest.
fn trim_end_index(s: &str, start: usize) -> (r: usize)
    requires
        start <= s@.len(),
    ensures
        start <= r <= s@.len(),
        trim_end(s@.subrange(start as int, s@.len() as int)) == s@.subrange(start as int, r as int),
{
    let n = s.unicode_len();
    let mut j: usize = n;
    while j > start
        invariant
            n == s@.len(),
            start <= j <= n,
            trim_end(s@.subrange(start as int, n as int)) == trim_end(s@.subrange(start as int, j as int)),
        decreases j,
    {
        let c = s.get_char(j - 1);
        if !is_space_char(c) {
            assert(s@.subrange(start as int, j as int).last() == c);
            return j;
        }
        assert(s@.subrange(start as int, j as int).drop_last() =~= s@.subrange(start as int, j - 1));
        j = j - 1;
    }
    j
}

/// `s` trimmed of white space at both ends, as a `String`.
fn trimmed(s: &str) -> (r: String)
    ensures
        r@ == trim(s@),
{
    let a = trim_start_index(s);
    let b = trim_end_index(s, a);
    let mut v: Vec<char> = Vec::new();
    let mut i: usize = a;
    while i < b
        invariant
            a <= i <= b,
            b <= s@.len(),
            v@ == s@.subrange(a as int, i as int),
        decreases b - i,
    {
        v.push(s.get_char(i));
        i = i + 1;
        assert(v@ =~= s@.subrange(a as int, i as int));
    }
    chars_to_string(&v)
}

/// Tells the characters of `is_space`.
fn is_space_char(c: char) -> (r: bool)
    ensures
        r == is_space(c),
{
    ('\u{9}' <= c && c <= '\u{d}') || c == ' ' || c == '\u{85}' || c == '\u{a0}' || c == '\u{1680}'
        || ('\u{2000}' <= c && c <= '\u{200a}') || c == '\u{2028}' || c == '\u{2029}' || c == '\u{202f}'
        || c == '\u{205f}' || c == '\u{3000}'
}

/// The setting of the piece `p`; see `setting`.
fn piece_setting(p: &str) -> (r: (String, String))
    ensures
        r.0@ == setting(p@).0,
        r.1@ == setting(p@).1,
{
    let n = p.unicode_len();
    let mut e: usize = 0;
    while e < n && p.get_char(e) != '='
        invariant
            n == p@.len(),
            e <= n,
            forall|j: int| 0 <= j < e ==> p@[j] != '=',
        decreases n - e,
    {
        e = e + 1;
    }
    if e == n {
        proof {
            assert(!p@.contains('='));
        }
        return (trimmed(p), String::new());
    }
    assert(p@[e as int] == '=');
    let mut f: usize = e + 1;
    while f < n && p.get_char(f) != '='
        invariant
            n == p@.len(),
            e < f <= n,
            forall|j: int| e < j < f ==> p@[j] != '=',
        decreases n - f,
    {
        f = f + 1;
    }
    proof {
        assert(p@.contains('='));
        lemma_split_at(p@, '=', e as int);
        let rest = p@.subrange(e + 1, n as int);
        if f < n {
            assert(rest[f - e - 1] == '=');
            lemma_split_at(rest, '=', f - e - 1);
            assert(rest.subrange(0, f - e - 1) =~= p@.subrange(e + 1, f as int));
        } else {
            lemma_split_none(rest, '=');
            assert(rest =~= p@.subrange(e + 1, f as int));
        }
    }
    let key = trimmed(p.substring_char(0, e));
    let val = trimmed(p.substring_char(e + 1, f));
    (key, val)
}

impl Options {
    /// The settings, by key.
    pub closed spec fn map(&self) -> Map<Seq<char>, Seq<char>> {
        log_map(self.opt@, self.opt@.len() as int)
    }

    /// Parses a `;`-separated list of `key=value` settings, each key and
    /// value trimmed of white space; a setting without `=` is a key with an
    /// empty value, and a later key replaces an earlier one.
    pub fn from_str(optstr: &str) -> (r: Self)
        ensures
            r.map() == settings(split(optstr@, ';'), split(optstr@, ';').len() as int),
    {
        let mut opt: Vec<(String, String)> = Vec::new();
        let n = optstr.unicode_len();
        let ghost s = optstr@;
        let ghost pieces = split(s, ';');
        let ghost mut done: int = 0;
        let mut start: usize = 0;
        let mut k: usize = 0;
        assert(s.subrange(0, n as int) =~= s);
        while k < n
            invariant
                n == s.len(),
                s == optstr@,
                pieces == split(s, ';'),
                start <= k <= n,
                forall|j: int| start <= j < k ==> s[j] != ';',
                0 <= done,
                pieces.len() == done + split(s.subrange(start as int, n as int), ';').len(),
                forall|j: int| 0 <= j < split(s.subrange(start as int, n as int), ';').len()
                    ==> #[trigger] split(s.subrange(start as int, n as int), ';')[j] == pieces[done + j],
                log_map(opt@, opt@.len() as int) == settings(pieces, done),
            decreases n - k,
        {
            if optstr.get_char(k) == ';' {
                let piece = optstr.substring_char(start, k);
                proof {
                    let t = s.subrange(start as int, n as int);
                    assert(t[k - start] == ';');
                    lemma_split_at(t, ';', k - start);
                    assert(t.subrange(0, k - start) =~= piece@);
                    assert(t.subrange(k - start + 1, t.len() as int) =~= s.subrange(k + 1, n as int));
                    assert(split(t, ';')[0] == pieces[done]);
                    assert forall|j: int| 0 <= j < split(s.subrange(k + 1, n as int), ';').len()
                        implies #[trigger] split(s.subrange(k + 1, n as int), ';')[j] == pieces[done + 1 + j] by {
                        assert(split(t, ';')[j + 1] == pieces[done + j + 1]);
                    }
                }
                let kv = piece_setting(piece);
                let ghost old_opt = opt@;
                opt.push(kv);
                proof {
                    lemma_log_map_prefix(opt@, opt@.len() - 1);
                    assert(opt@.subrange(0, opt@.len() - 1) =~= old_opt);
                    done = done + 1;
                }
                start = k + 1;
            }
            k = k + 1;
        }
        let piece = optstr.substring_char(start, n);
        proof {
            let t = s.subrange(start as int, n as int);
            assert(t =~= piece@);
            lemma_split_none(t, ';');
            assert(split(t, ';')[0] == pieces[done]);
        }
        let kv = piece_setting(piece);
        let ghost old_opt = opt@;
        opt.push(kv);
        proof {
            lemma_log_map_prefix(opt@, opt@.len() - 1);
            assert(opt@.subrange(0, opt@.len() - 1) =~= old_opt);
            done = done + 1;
        }
        Options { opt }
    }

    /// The option `opt` is set.
    pub fn has_option(&mut self, opt: &str) -> (r: bool)
        ensures
            r == old(self).map().dom().contains(opt@),
            *final(self) == *old(self),
    {
        let mut i: usize = 0;
        while i < self.opt.len()
            invariant
                i <= self.opt@.len(),
                forall|j: int| 0 <= j < i ==> #[trigger] self.opt@[j].0@ != opt@,
            decreases self.opt.len() - i,
        {
            if crate::text::str_eq(self.opt[i].0.as_str(), opt) {
                proof {
                    lemma_log_map_keys(self.opt@, self.opt@.len() as int, opt@);
                }
                return true;
            }
            i = i + 1;
        }
        proof {
            lemma_log_map_keys(self.opt@, self.opt@.len() as int, opt@);
        }
        false
    }

    /// Integer options are not read: always `None`.
    pub fn option_int(&self, opt: &str) -> (r: Option<isize>)
        ensures
            r is None,
    {
        None
    }
}

/// The map of a log prefix does not depend on what follows it.
proof fn lemma_log_map_prefix(log: Seq<(String, String)>, n: int)
    requires
        0 <= n <= log.len(),
    ensures
        log_map(log, n) == log_map(log.subrange(0, n), n),
    decreases n,
{
    if n > 0 {
        lemma_log_map_prefix(log, n - 1);
        lemma_log_map_prefix(log.subrange(0, n), n - 1);
        assert(log.subrange(0, n).subrange(0, n - 1) =~= log.subrange(0, n - 1));
    }
}

} // verus!
