//! Verified text helpers: trimming, searching, line splitting and joining,
//! and rendering an unsigned number in decimal.
//!
//! Whitespace here is ASCII whitespace — space, tab, carriage return, line
//! feed — which is all that a flat `key=value` configuration file can carry.

use vstd::prelude::*;

verus! {

/// ASCII whitespace.
pub open spec fn spec_is_ws(c: char) -> bool {
    c == ' ' || c == '\t' || c == '\r' || c == '\n'
}

/// `s` without its leading whitespace.
pub open spec fn spec_trim_start(s: Seq<char>) -> Seq<char>
    decreases s.len(),
{
    if s.len() == 0 {
        s
    } else if spec_is_ws(s[0]) {
        spec_trim_start(s.drop_first())
    } else {
        s
    }
}

/// `s` without its trailing whitespace.
pub open spec fn spec_trim_end(s: Seq<char>) -> Seq<char>
    decreases s.len(),
{
    if s.len() == 0 {
        s
    } else if spec_is_ws(s.last()) {
        spec_trim_end(s.drop_last())
    } else {
        s
    }
}

/// `s` without leading and trailing whitespace.
pub open spec fn spec_trim(s: Seq<char>) -> Seq<char> {
    spec_trim_end(spec_trim_start(s))
}

/// The position of the first `c` in `s`, or `s.len()` when there is none.
pub open spec fn spec_find(s: Seq<char>, c: char) -> nat
    decreases s.len(),
{
    if s.len() == 0 {
        0
    } else if s[0] == c {
        0
    } else {
        1 + spec_find(s.drop_first(), c)
    }
}

/// Whether `p` is a prefix of `s`.
pub open spec fn spec_starts_with(s: Seq<char>, p: Seq<char>) -> bool {
    p.len() <= s.len() && s.subrange(0, p.len() as int) == p
}

/// Whether `sub` occurs somewhere in `s`.
pub open spec fn spec_contains(s: Seq<char>, sub: Seq<char>) -> bool {
    exists|k: int|
        0 <= k && k + sub.len() <= s.len() && (#[trigger] s.subrange(k, k + sub.len())) == sub
}

/// The lines of `s`: the segments between line feeds, with a final segment
/// only if it is non-empty — exactly the lines a line-by-line reader yields.
pub open spec fn spec_lines(s: Seq<char>) -> Seq<Seq<char>>
    decreases s.len(),
{
    if s.len() == 0 {
        Seq::empty()
    } else {
        let k = spec_find(s, '\n');
        if k >= s.len() {
            seq![s]
        } else {
            seq![s.subrange(0, k as int)] + spec_lines(s.subrange(k as int + 1, s.len() as int))
        }
    }
}

/// The lines joined back with single line feeds, no trailing one.
pub open spec fn spec_join_lines(ls: Seq<Seq<char>>) -> Seq<char>
    decreases ls.len(),
{
    if ls.len() == 0 {
        Seq::empty()
    } else if ls.len() == 1 {
        ls[0]
    } else {
        spec_join_lines(ls.drop_last()) + "\n"@ + ls.last()
    }
}

/// Whether `c` is ASCII whitespace, as `spec_is_ws` says.
pub fn is_ws(c: char) -> (r: bool)
    ensures
        r == spec_is_ws(c),
{
    c == ' ' || c == '\t' || c == '\r' || c == '\n'
}

/// `s` without leading and trailing ASCII whitespace.
pub fn trim_str<'a>(s: &'a str) -> (r: &'a str)
    ensures
        r@ == spec_trim(s@),
{
    let n = s.unicode_len();
    proof {
        assert(s@.subrange(0, n as int) =~= s@);
    }
    let mut i: usize = 0;
    while i < n && is_ws(s.get_char(i))
        invariant
            i <= n,
            n == s@.len(),
            spec_trim_start(s@) == spec_trim_start(s@.subrange(i as int, n as int)),
        decreases n - i,
    {
        proof {
            assert(s@.subrange(i as int, n as int).drop_first() =~= s@.subrange(
                i + 1,
                n as int,
            ));
        }
        i = i + 1;
    }
    proof {
        assert(spec_trim_start(s@) =~= s@.subrange(i as int, n as int));
    }
    let mut j: usize = n;
    while j > i && is_ws(s.get_char(j - 1))
        invariant
            i <= j <= n,
            n == s@.len(),
            spec_trim_start(s@) == s@.subrange(i as int, n as int),
            spec_trim_end(s@.subrange(i as int, n as int)) == spec_trim_end(
                s@.subrange(i as int, j as int),
            ),
        decreases j,
    {
        proof {
            assert(s@.subrange(i as int, j as int).drop_last() =~= s@.subrange(
                i as int,
                j - 1,
            ));
        }
        j = j - 1;
    }
    proof {
        assert(spec_trim_end(s@.subrange(i as int, j as int)) =~= s@.subrange(
            i as int,
            j as int,
        ));
    }
    s.substring_char(i, j)
}

/// The position of the first `c` in `s`, or the length when there is none.
pub fn find_char(s: &str, c: char) -> (r: usize)
    ensures
        r as nat == spec_find(s@, c),
        r <= s@.len(),
        r < s@.len() ==> s@[r as int] == c,
        forall|k: int| 0 <= k < r ==> s@[k] != c,
{
    let n = s.unicode_len();
    let mut i: usize = 0;
    while i < n && s.get_char(i) != c
        invariant
            i <= n,
            n == s@.len(),
            forall|k: int| 0 <= k < i ==> s@[k] != c,
        decreases n - i,
    {
        i = i + 1;
    }
    proof {
        lemma_find_unique(s@, c, i as nat);
    }
    i
}

/// A position with no `c` before it that is the end or holds `c` is exactly
/// `spec_find`.
proof fn lemma_find_unique(s: Seq<char>, c: char, j: nat)
    requires
        j <= s.len(),
        forall|i: int| 0 <= i < j ==> s[i] != c,
        j < s.len() ==> s[j as int] == c,
    ensures
        spec_find(s, c) == j,
    decreases j,
{
    if j > 0 {
        lemma_find_unique(s.drop_first(), c, (j - 1) as nat);
    }
}

/// Whether `p` is a prefix of `s`, as `spec_starts_with` says.
pub fn starts_with_str(s: &str, p: &str) -> (r: bool)
    ensures
        r == spec_starts_with(s@, p@),
{
    let n = s.unicode_len();
    let m = p.unicode_len();
    if m > n {
        return false;
    }
    let mut i: usize = 0;
    while i < m
        invariant
            i <= m,
            m == p@.len(),
            n == s@.len(),
            m <= n,
            forall|k: int| 0 <= k < i ==> s@[k] == p@[k],
        decreases m - i,
    {
        if s.get_char(i) != p.get_char(i) {
            proof {
                assert(s@.subrange(0, m as int)[i as int] == s@[i as int]);
            }
            return false;
        }
        i = i + 1;
    }
    proof {
        assert(s@.subrange(0, m as int) =~= p@);
    }
    true
}

/// Whether `sub` occurs somewhere in `s`, as `spec_contains` says.
pub fn contains_str(s: &str, sub: &str) -> (r: bool)
    ensures
        r == spec_contains(s@, sub@),
{
    let n = s.unicode_len();
    let m = sub.unicode_len();
    if m > n {
        proof {
            assert(!spec_contains(s@, sub@));
        }
        return false;
    }
    if m == 0 {
        proof {
            assert(s@.subrange(0, 0 + sub@.len() as int) =~= sub@);
        }
        return true;
    }
    let mut k: usize = 0;
    while k <= n - m
        invariant
            k <= n - m + 1,
            1 <= m <= n,
            n == s@.len(),
            m == sub@.len(),
            forall|k2: int| 0 <= k2 < k ==> (#[trigger] s@.subrange(k2, k2 + m)) != sub@,
        decreases n - k,
    {
        let tail = s.substring_char(k, n);
        if starts_with_str(tail, sub) {
            proof {
                assert(s@.subrange(k as int, n as int).subrange(0, m as int) =~= s@.subrange(
                    k as int,
                    k + m,
                ));
            }
            return true;
        }
        proof {
            assert(s@.subrange(k as int, n as int).subrange(0, m as int) =~= s@.subrange(
                k as int,
                k + m,
            ));
        }
        k = k + 1;
    }
    false
}

/// Whether two string slices hold the same characters.
pub fn eq_str(a: &str, b: &str) -> (r: bool)
    ensures
        r == (a@ == b@),
{
    let n = a.unicode_len();
    if n != b.unicode_len() {
        return false;
    }
    let mut i: usize = 0;
    while i < n
        invariant
            i <= n,
            n == a@.len() == b@.len(),
            forall|k: int| 0 <= k < i ==> a@[k] == b@[k],
        decreases n - i,
    {
        if a.get_char(i) != b.get_char(i) {
            return false;
        }
        i = i + 1;
    }
    proof {
        assert(a@ =~= b@);
    }
    true
}

/// The lines of `s`, as `spec_lines` says.
pub fn split_lines(s: &str) -> (r: Vec<String>)
    ensures
        r.deep_view() == spec_lines(s@),
{
    let n = s.unicode_len();
    let mut r: Vec<String> = Vec::new();
    proof {
        assert(s@.subrange(0, n as int) =~= s@);
        assert(r.deep_view() + spec_lines(s@) =~= spec_lines(s@));
    }
    let mut p: usize = 0;
    while p < n
        invariant
            p <= n,
            n == s@.len(),
            spec_lines(s@) == r.deep_view() + spec_lines(s@.subrange(p as int, n as int)),
        decreases n - p,
    {
        let rest = s.substring_char(p, n);
        let k = find_char(rest, '\n');
        if p + k == n {
            let ghost pre = r.deep_view();
            r.push(String::from_str(rest));
            proof {
                assert(spec_lines(s@.subrange(p as int, n as int)) =~= seq![
                    s@.subrange(p as int, n as int),
                ]);
                assert(r.deep_view() =~= pre + seq![s@.subrange(p as int, n as int)]);
                assert(spec_lines(s@) =~= r.deep_view());
            }
            p = n;
        } else {
            let line = s.substring_char(p, p + k);
            let ghost pre = r.deep_view();
            r.push(String::from_str(line));
            proof {
                assert(s@.subrange(p as int, n as int).subrange(0, k as int) =~= s@.subrange(
                    p as int,
                    p + k,
                ));
                assert(s@.subrange(p as int, n as int).subrange(k + 1, (n - p) as int)
                    =~= s@.subrange(p + k + 1, n as int));
                assert(spec_lines(s@.subrange(p as int, n as int)) =~= seq![
                    s@.subrange(p as int, p + k),
                ] + spec_lines(s@.subrange(p + k + 1, n as int)));
                assert(r.deep_view() =~= pre + seq![s@.subrange(p as int, p + k)]);
                assert(spec_lines(s@) =~= r.deep_view() + spec_lines(
                    s@.subrange(p + k + 1, n as int),
                ));
            }
            p = p + k + 1;
        }
    }
    proof {
        if p == n {
            assert(spec_lines(s@.subrange(p as int, n as int)) =~= Seq::<Seq<char>>::empty());
            assert(spec_lines(s@) =~= r.deep_view());
        }
    }
    r
}

/// The lines joined back with single line feeds, as `spec_join_lines` says.
pub fn join_lines(ls: &Vec<String>) -> (r: String)
    ensures
        r@ == spec_join_lines(ls.deep_view()),
{
    let mut r = String::new();
    let n = ls.len();
    let mut i: usize = 0;
    while i < n
        invariant
            i <= n,
            n == ls@.len(),
            r@ == spec_join_lines(ls.deep_view().take(i as int)),
        decreases n - i,
    {
        proof {
            assert(ls.deep_view().take(i + 1).drop_last() =~= ls.deep_view().take(i as int));
            assert(ls.deep_view().take(i + 1).last() == ls.deep_view()[i as int]);
        }
        if i > 0 {
            r.append("\n");
        }
        r.append(ls[i].as_str());
        proof {
            if i == 0 {
                assert(r@ =~= spec_join_lines(ls.deep_view().take(1)));
            } else {
                assert(r@ =~= spec_join_lines(ls.deep_view().take(i + 1)));
            }
        }
        i = i + 1;
    }
    proof {
        assert(ls.deep_view().take(n as int) =~= ls.deep_view());
    }
    r
}

/// The decimal digit character for a value below ten.
pub open spec fn spec_digit_char(d: nat) -> char {
    if d == 0 {
        '0'
    } else if d == 1 {
        '1'
    } else if d == 2 {
        '2'
    } else if d == 3 {
        '3'
    } else if d == 4 {
        '4'
    } else if d == 5 {
        '5'
    } else if d == 6 {
        '6'
    } else if d == 7 {
        '7'
    } else if d == 8 {
        '8'
    } else {
        '9'
    }
}

/// The decimal digits of `n`, most significant first, with no leading zero
/// except for `n == 0` itself.
pub open spec fn spec_dec_digits(n: nat) -> Seq<char>
    decreases n,
{
    if n < 10 {
        seq![spec_digit_char(n)]
    } else {
        spec_dec_digits(n / 10).push(spec_digit_char(n % 10))
    }
}

/// Renders `n` in decimal.
pub fn u64_to_string(n: u64) -> (r: String)
    ensures
        r@ == spec_dec_digits(n as nat),
    decreases n,
{
    let d: u64 = n % 10;
    let ds: &str = if d == 0 {
        "0"
    } else if d == 1 {
        "1"
    } else if d == 2 {
        "2"
    } else if d == 3 {
        "3"
    } else if d == 4 {
        "4"
    } else if d == 5 {
        "5"
    } else if d == 6 {
        "6"
    } else if d == 7 {
        "7"
    } else if d == 8 {
        "8"
    } else {
        "9"
    };
    proof {
        reveal_strlit("0");
        reveal_strlit("1");
        reveal_strlit("2");
        reveal_strlit("3");
        reveal_strlit("4");
        reveal_strlit("5");
        reveal_strlit("6");
        reveal_strlit("7");
        reveal_strlit("8");
        reveal_strlit("9");
        assert(ds@ =~= seq![spec_digit_char((n % 10) as nat)]);
    }
    if n < 10 {
        let r = String::from_str(ds);
        proof {
            assert(r@ =~= spec_dec_digits(n as nat));
        }
        r
    } else {
        let prefix = u64_to_string(n / 10);
        let r = prefix.concat(ds);
        proof {
            assert(r@ =~= spec_dec_digits(n as nat));
        }
        r
    }
}

} // verus!
