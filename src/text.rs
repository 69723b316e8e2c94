//! Character-level helpers over `str`: literal comparison, prefixes and
//! whitespace tokenisation.
use vstd::prelude::*;
use vstd::string::*;

verus! {

/// The separators between tokens of a command line.
pub open spec fn is_space(c: char) -> bool {
    c == ' ' || c == '\t' || c == '\n' || c == '\r' || c == '\x0B' || c == '\x0C'
}

/// Whether `p` is a prefix of `s`.
pub open spec fn has_prefix(s: Seq<char>, p: Seq<char>) -> bool {
    p.len() <= s.len() && s.subrange(0, p.len() as int) == p
}

/// Executable form of `is_space`.
pub fn is_space_char(c: char) -> (r: bool)
    ensures
        r == is_space(c),
{
    c == ' ' || c == '\t' || c == '\n' || c == '\r' || c == '\x0B' || c == '\x0C'
}

/// Whether `s` starts with `p`, character by character.
pub fn starts_with(s: &str, p: &str) -> (r: bool)
    ensures
        r == has_prefix(s@, p@),
{
    let n = s.unicode_len();
    let m = p.unicode_len();
    if m > n {
        return false;
    }
    let mut i: usize = 0;
    while i < m
        invariant
            m == p@.len(),
            n == s@.len(),
            m <= n,
            i <= m,
            s@.subrange(0, i as int) == p@.subrange(0, i as int),
        decreases m - i,
    {
        if s.get_char(i) != p.get_char(i) {
            assert(s@.subrange(0, m as int)[i as int] != p@[i as int]);
            return false;
        }
        assert(s@.subrange(0, i + 1) =~= s@.subrange(0, i as int).push(s@[i as int]));
        assert(p@.subrange(0, i + 1) =~= p@.subrange(0, i as int).push(p@[i as int]));
        i = i + 1;
    }
    assert(p@.subrange(0, m as int) =~= p@);
    true
}

/// Whether `s` and `t` hold the same characters.
pub fn same_text(s: &str, t: &str) -> (r: bool)
    ensures
        r == (s@ == t@),
{
    if s.unicode_len() != t.unicode_len() {
        return false;
    }
    let r = starts_with(s, t);
    proof {
        if s@.len() == t@.len() {
            assert(s@ =~= s@.subrange(0, t@.len() as int));
        }
    }
    r
}

/// The whitespace-separated tokens of `s`, in order, defined on a growing
/// prefix: a separator closes the current token, any other character extends
/// it or opens a new one.
pub open spec fn tokens(s: Seq<char>) -> Seq<Seq<char>>
    decreases s.len(),
{
    if s.len() == 0 {
        Seq::empty()
    } else {
        let init = s.drop_last();
        let c = s.last();
        let prev = tokens(init);
        if is_space(c) {
            prev
        } else if init.len() > 0 && !is_space(init.last()) {
            prev.update(prev.len() - 1, prev.last().push(c))
        } else {
            prev.push(seq![c])
        }
    }
}

/// Splits `line` into its whitespace-separated tokens.
pub fn tokenize(line: &str) -> (r: Vec<String>)
    ensures
        r.deep_view() == tokens(line@),
{
    let n = line.unicode_len();
    let mut out: Vec<String> = Vec::new();
    let mut start: usize = 0;
    let mut in_token = false;
    let mut i: usize = 0;
    while i < n
        invariant
            n == line@.len(),
            i <= n,
            start <= i,
            in_token == (i > 0 && !is_space(line@[i - 1])),
            in_token ==> start < i,
            (if in_token {
                out.deep_view().push(line@.subrange(start as int, i as int))
            } else {
                out.deep_view()
            }) == tokens(line@.subrange(0, i as int)),
        decreases n - i,
    {
        let c = line.get_char(i);
        let ghost pre = line@.subrange(0, i as int);
        let ghost cur = line@.subrange(0, i + 1);
        assert(cur.drop_last() =~= pre);
        assert(cur.last() == c);
        if is_space_char(c) {
            if in_token {
                let piece = String::from_str(line.substring_char(start, i));
                let ghost before = out.deep_view();
                out.push(piece);
                assert(out.deep_view() =~= before.push(line@.subrange(start as int, i as int)));
            }
            in_token = false;
        } else {
            if in_token {
                let ghost prev = out.deep_view().push(line@.subrange(start as int, i as int));
                assert(line@.subrange(start as int, i + 1) =~= line@.subrange(start as int, i as int).push(c));
                assert(prev.update(prev.len() - 1, prev.last().push(c)) =~= out.deep_view().push(
                    line@.subrange(start as int, i + 1),
                ));
            } else {
                start = i;
                assert(line@.subrange(start as int, i + 1) =~= seq![c]);
            }
            in_token = true;
        }
        i = i + 1;
    }
    assert(line@.subrange(0, n as int) =~= line@);
    if in_token {
        let piece = String::from_str(line.substring_char(start, n));
        let ghost before = out.deep_view();
        out.push(piece);
        assert(out.deep_view() =~= before.push(line@.subrange(start as int, n as int)));
    }
    out
}

} // verus!
