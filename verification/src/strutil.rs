//! Verified string helpers.
//!
//! The deployment engine computes with hostnames, URLs and filesystem paths.
//! These helpers give those computations exact contracts over `Seq<char>`
//! views: prefix tests, equality, stripping a `:port` suffix, decimal
//! rendering of port numbers and timestamps, and the `/` to `_` rewriting
//! that turns a repository identifier into a directory name.

use vstd::prelude::*;
use vstd::string::StrSliceExecFns;
use vstd::string::StringExecFns;

verus! {

broadcast use vstd::string::group_string_axioms;

/// `p` is a prefix of `s`.
pub open spec fn spec_starts_with(s: Seq<char>, p: Seq<char>) -> bool {
    p.len() <= s.len() && s.subrange(0, p.len() as int) == p
}

/// Whether `s` starts with `p`.
pub fn str_starts_with(s: &str, p: &str) -> (r: bool)
    ensures
        r == spec_starts_with(s@, p@),
{
    let sn = s.unicode_len();
    let pn = p.unicode_len();
    if pn > sn {
        return false;
    }
    let mut i: usize = 0;
    while i < pn
        invariant
            i <= pn,
            pn <= sn,
            sn == s@.len(),
            pn == p@.len(),
            forall|j: int| 0 <= j < i ==> s@[j] == p@[j],
        decreases pn - i,
    {
        if s.get_char(i) != p.get_char(i) {
            assert(s@.subrange(0, p@.len() as int) != p@);
            return false;
        }
        i = i + 1;
    }
    assert(s@.subrange(0, p@.len() as int) =~= p@);
    true
}

/// Whether `s` and `t` hold the same characters.
pub fn str_eq(s: &str, t: &str) -> (r: bool)
    ensures
        r == (s@ == t@),
{
    let sn = s.unicode_len();
    let tn = t.unicode_len();
    if sn != tn {
        return false;
    }
    let mut i: usize = 0;
    while i < sn
        invariant
            i <= sn,
            sn == s@.len(),
            sn == t@.len(),
            forall|j: int| 0 <= j < i ==> s@[j] == t@[j],
        decreases sn - i,
    {
        if s.get_char(i) != t.get_char(i) {
            return false;
        }
        i = i + 1;
    }
    assert(s@ =~= t@);
    true
}

/// The characters of `s` before its first `c`; all of `s` when `c` does not
/// occur.
pub open spec fn spec_before(s: Seq<char>, c: char) -> Seq<char>
    decreases s.len(),
{
    if s.len() == 0 {
        s
    } else if s[0] == c {
        Seq::empty()
    } else {
        seq![s[0]] + spec_before(s.subrange(1, s.len() as int), c)
    }
}

/// `spec_before` in terms of positions: when the first `i` characters are
/// free of `c`, the result is the prefix that ends at `i` if `s[i] == c`,
/// and all of `s` if `i` is its length.
proof fn lemma_before_at(s: Seq<char>, c: char, i: int)
    requires
        0 <= i <= s.len(),
        forall|j: int| 0 <= j < i ==> s[j] != c,
        i < s.len() ==> s[i] == c,
    ensures
        spec_before(s, c) == s.subrange(0, i),
    decreases s.len(),
{
    if s.len() == 0 {
        assert(spec_before(s, c) =~= s.subrange(0, i));
    } else if i == 0 {
        assert(s[0] == c);
        assert(spec_before(s, c) =~= s.subrange(0, 0));
    } else {
        let tail = s.subrange(1, s.len() as int);
        assert(forall|j: int| 0 <= j < i - 1 ==> tail[j] == s[j + 1] && s[j + 1] != c);
        lemma_before_at(tail, c, i - 1);
        assert(spec_before(s, c) =~= s.subrange(0, i));
    }
}

/// The hostname part of a `Host` header value: everything before the first
/// `:`, so that an optional `:port` suffix is ignored.
pub open spec fn spec_host_without_port(h: Seq<char>) -> Seq<char> {
    spec_before(h, ':')
}

/// Strips an optional `:port` suffix from a host header value.
pub fn host_without_port<'a>(host: &'a str) -> (r: &'a str)
    ensures
        r@ == spec_host_without_port(host@),
{
    let n = host.unicode_len();
    let mut i: usize = 0;
    while i < n
        invariant
            i <= n,
            n == host@.len(),
            forall|j: int| 0 <= j < i ==> host@[j] != ':',
        decreases n - i,
    {
        if host.get_char(i) == ':' {
            proof {
                lemma_before_at(host@, ':', i as int);
            }
            return host.substring_char(0, i);
        }
        i = i + 1;
    }
    proof {
        lemma_before_at(host@, ':', n as int);
        assert(host@.subrange(0, n as int) =~= host@);
    }
    host
}

/// The character for one decimal digit.
pub open spec fn spec_digit_char(d: nat) -> char {
    if d == 0 {
        '0'
    } else if d == 1 {
        '1'
    } else if d == 2 {
        '2'
    } else if d == 3 {
        '3'
    } else if d == 4 {
        '4'
    } else if d == 5 {
        '5'
    } else if d == 6 {
        '6'
    } else if d == 7 {
        '7'
    } else if d == 8 {
        '8'
    } else {
        '9'
    }
}

/// The decimal rendering of `n`, without leading zeros (a single `0` for 0).
pub open spec fn spec_dec_digits(n: nat) -> Seq<char>
    decreases n,
{
    if n < 10 {
        seq![spec_digit_char(n)]
    } else {
        spec_dec_digits(n / 10) + seq![spec_digit_char(n % 10)]
    }
}

/// Appends the character for the decimal digit `d` to `out`.
fn push_digit(out: &mut String, d: u64)
    requires
        d < 10,
    ensures
        final(out)@ == old(out)@ + seq![spec_digit_char(d as nat)],
{
    proof {
        reveal_strlit("0");
        reveal_strlit("1");
        reveal_strlit("2");
        reveal_strlit("3");
        reveal_strlit("4");
        reveal_strlit("5");
        reveal_strlit("6");
        reveal_strlit("7");
        reveal_strlit("8");
        reveal_strlit("9");
    }
    if d == 0 {
        out.append("0");
    } else if d == 1 {
        out.append("1");
    } else if d == 2 {
        out.append("2");
    } else if d == 3 {
        out.append("3");
    } else if d == 4 {
        out.append("4");
    } else if d == 5 {
        out.append("5");
    } else if d == 6 {
        out.append("6");
    } else if d == 7 {
        out.append("7");
    } else if d == 8 {
        out.append("8");
    } else {
        out.append("9");
    }
    assert(out@ =~= old(out)@ + seq![spec_digit_char(d as nat)]);
}

/// Appends the decimal rendering of `n` to `out`.
fn append_decimal(out: &mut String, n: u64)
    ensures
        final(out)@ == old(out)@ + spec_dec_digits(n as nat),
    decreases n,
{
    if n < 10 {
        push_digit(out, n);
    } else {
        assert(n / 10 < n && n / 10 >= 1 && n % 10 < 10) by (nonlinear_arith)
            requires
                n >= 10,
        ;
        append_decimal(out, n / 10);
        push_digit(out, n % 10);
        assert(out@ =~= old(out)@ + spec_dec_digits(n as nat));
    }
}

/// The decimal rendering of `n` as a `String`.
pub fn u64_to_string(n: u64) -> (r: String)
    ensures
        r@ == spec_dec_digits(n as nat),
{
    let mut out = String::new();
    append_decimal(&mut out, n);
    assert(out@ =~= spec_dec_digits(n as nat));
    out
}

/// `s` with every `/` replaced by `_`.
pub open spec fn spec_slash_to_underscore(s: Seq<char>) -> Seq<char> {
    s.map_values(|c: char| if c == '/' { '_' } else { c })
}

/// Replaces every `/` in `s` with `_`.
pub fn slash_to_underscore(s: &str) -> (r: String)
    ensures
        r@ == spec_slash_to_underscore(s@),
{
    let n = s.unicode_len();
    let mut out = String::new();
    let mut i: usize = 0;
    while i < n
        invariant
            i <= n,
            n == s@.len(),
            out@ == spec_slash_to_underscore(s@.subrange(0, i as int)),
        decreases n - i,
    {
        if s.get_char(i) == '/' {
            proof {
                reveal_strlit("_");
            }
            out.append("_");
        } else {
            let piece = s.substring_char(i, i + 1);
            out.append(piece);
        }
        i = i + 1;
        assert(out@ =~= spec_slash_to_underscore(s@.subrange(0, i as int)));
    }
    assert(s@.subrange(0, n as int) =~= s@);
    out
}

/// `a` followed by `b`.
pub fn concat_str(a: &str, b: &str) -> (r: String)
    ensures
        r@ == a@ + b@,
{
    let mut out = String::from_str(a);
    out.append(b);
    out
}

} // verus!
