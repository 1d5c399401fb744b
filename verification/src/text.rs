//! Character-level text utilities shared by the parsers: a whitespace
//! predicate, first-occurrence search, line splitting, trimming, and
//! prefix/suffix tests. Everything is specified over `Seq<char>` views.

use vstd::prelude::*;

verus! {

/// The characters this library treats as blank when trimming.
pub open spec fn is_space_char(c: char) -> bool {
    c == ' ' || c == '\t' || c == '\r' || c == '\n'
}

/// Executable counterpart of `is_space_char`.
pub fn is_space(c: char) -> (r: bool)
    ensures
        r == is_space_char(c),
{
    c == ' ' || c == '\t' || c == '\r' || c == '\n'
}

/// Index of the first occurrence of `c` in `t`, or `t.len()` if absent.
pub open spec fn spec_find(t: Seq<char>, c: char) -> int
    decreases t.len(),
{
    if t.len() == 0 {
        0
    } else if t[0] == c {
        0
    } else {
        1 + spec_find(t.drop_first(), c)
    }
}

/// `spec_find` returns an in-range index: the first position holding `c`,
/// or the length when `c` does not occur.
pub proof fn lemma_spec_find(t: Seq<char>, c: char)
    ensures
        0 <= spec_find(t, c) <= t.len(),
        spec_find(t, c) < t.len() ==> t[spec_find(t, c)] == c,
        forall|j: int| 0 <= j < spec_find(t, c) ==> t[j] != c,
    decreases t.len(),
{
    if t.len() > 0 && t[0] != c {
        lemma_spec_find(t.drop_first(), c);
        assert forall|j: int| 0 <= j < spec_find(t, c) implies t[j] != c by {
            if j > 0 {
                assert(t.drop_first()[j - 1] == t[j]);
            }
        }
    }
}

/// If no position below `j` holds `c`, and `j` either holds `c` or is the
/// length, then `spec_find` returns exactly `j`.
pub proof fn lemma_spec_find_is(t: Seq<char>, c: char, j: int)
    requires
        0 <= j <= t.len(),
        j < t.len() ==> t[j] == c,
        forall|k: int| 0 <= k < j ==> t[k] != c,
    ensures
        spec_find(t, c) == j,
    decreases t.len(),
{
    if t.len() > 0 && t[0] != c {
        lemma_spec_find_is(t.drop_first(), c, j - 1);
    }
}

/// First occurrence of `c` in `s`, or the character length if absent.
pub fn find_char(s: &str, c: char) -> (r: usize)
    ensures
        r == spec_find(s@, c),
{
    let n = s.unicode_len();
    let mut i: usize = 0;
    while i < n && s.get_char(i) != c
        invariant
            n == s@.len(),
            0 <= i <= n,
            forall|k: int| 0 <= k < i ==> s@[k] != c,
        decreases n - i,
    {
        i = i + 1;
    }
    proof {
        lemma_spec_find_is(s@, c, i as int);
    }
    i
}

/// The lines of `s`: the maximal segments between newline characters.
/// There is always at least one line; a trailing newline yields a final
/// empty line.
pub open spec fn spec_lines(s: Seq<char>) -> Seq<Seq<char>>
    decreases s.len(),
{
    let f = spec_find(s, '\n');
    if f >= s.len() {
        seq![s]
    } else {
        proof {
            lemma_spec_find(s, '\n');
        }
        seq![s.take(f)] + spec_lines(s.skip(f + 1))
    }
}

/// Every text splits into at least one line.
pub proof fn lemma_lines_nonempty(s: Seq<char>)
    ensures
        spec_lines(s).len() >= 1,
{
    lemma_spec_find(s, '\n');
}

/// Splits `s` into its lines, in order.
pub fn split_lines(s: &str) -> (r: Vec<String>)
    ensures
        r.deep_view() == spec_lines(s@),
        r.len() >= 1,
{
    let n = s.unicode_len();
    let mut out: Vec<String> = Vec::new();
    let mut p: usize = 0;
    let mut done = false;
    proof {
        assert(s@.skip(0) =~= s@);
        assert(out.deep_view() + spec_lines(s@) =~= spec_lines(s@));
    }
    while !done
        invariant
            n == s@.len(),
            0 <= p <= n,
            done ==> out.deep_view() == spec_lines(s@) && out.len() >= 1,
            !done ==> spec_lines(s@) == out.deep_view() + spec_lines(s@.skip(p as int)),
        decreases (n - p) + (if done { 0int } else { 1int }),
    {
        let ghost t = s@.skip(p as int);
        let rest = s.substring_char(p, n);
        proof {
            assert(rest@ =~= t);
            lemma_spec_find(t, '\n');
        }
        let k = find_char(rest, '\n');
        let line = rest.substring_char(0, k).to_owned();
        let ghost prev = out.deep_view();
        out.push(line);
        proof {
            assert(out.deep_view() =~= prev.push(line@));
            if (k as int) < t.len() {
                assert(line@ =~= t.take(k as int));
                assert(t.skip(k + 1) =~= s@.skip(p + k + 1));
                assert(spec_lines(s@) =~= out.deep_view() + spec_lines(s@.skip(p + k + 1)));
            } else {
                assert(line@ =~= t);
                assert(spec_lines(t) == seq![t]);
                assert(spec_lines(s@) =~= out.deep_view());
            }
        }
        if k == n - p {
            done = true;
        } else {
            p = p + k + 1;
        }
    }
    out
}

/// A text without newlines is a single line.
pub proof fn lemma_lines_single(t: Seq<char>)
    requires
        forall|k: int| 0 <= k < t.len() ==> t[k] != '\n',
    ensures
        spec_lines(t) == seq![t],
{
    lemma_spec_find_is(t, '\n', t.len() as int);
}

/// Line splitting distributes over joining two texts with a newline.
pub proof fn lemma_lines_concat(x: Seq<char>, y: Seq<char>)
    ensures
        spec_lines(x + seq!['\n'] + y) == spec_lines(x) + spec_lines(y),
    decreases x.len(),
{
    let s = x + seq!['\n'] + y;
    let fx = spec_find(x, '\n');
    lemma_spec_find(x, '\n');
    assert forall|k: int| 0 <= k < x.len() implies s[k] == x[k] by {}
    assert(s[x.len() as int] == '\n');
    if fx >= x.len() {
        lemma_spec_find_is(s, '\n', x.len() as int);
        assert(s.take(x.len() as int) =~= x);
        assert(s.skip(x.len() as int + 1) =~= y);
        assert(spec_lines(s) == seq![x] + spec_lines(y));
        assert(spec_lines(x) == seq![x]);
    } else {
        lemma_spec_find_is(s, '\n', fx);
        assert(s.take(fx) =~= x.take(fx));
        assert(s.skip(fx + 1) =~= x.skip(fx + 1) + seq!['\n'] + y);
        lemma_lines_concat(x.skip(fx + 1), y);
        assert(spec_lines(s) == seq![x.take(fx)] + (spec_lines(x.skip(fx + 1)) + spec_lines(
            y,
        )));
        assert(spec_lines(x) == seq![x.take(fx)] + spec_lines(x.skip(fx + 1)));
        assert(seq![x.take(fx)] + (spec_lines(x.skip(fx + 1)) + spec_lines(y)) =~= (seq![
            x.take(fx),
        ] + spec_lines(x.skip(fx + 1))) + spec_lines(y));
    }
}

/// `t` without its leading blank characters.
pub open spec fn spec_drop_leading(t: Seq<char>) -> Seq<char>
    decreases t.len(),
{
    if t.len() > 0 && is_space_char(t[0]) {
        spec_drop_leading(t.drop_first())
    } else {
        t
    }
}

/// `t` without its trailing blank characters.
pub open spec fn spec_drop_trailing(t: Seq<char>) -> Seq<char>
    decreases t.len(),
{
    if t.len() > 0 && is_space_char(t.last()) {
        spec_drop_trailing(t.drop_last())
    } else {
        t
    }
}

/// `t` without blanks at either end.
pub open spec fn spec_trim(t: Seq<char>) -> Seq<char> {
    spec_drop_leading(spec_drop_trailing(t))
}

/// If the first `j` characters are blank and position `j` (when present)
/// is not, dropping the leading blanks is the same as skipping `j`.
pub proof fn lemma_drop_leading_at(t: Seq<char>, j: int)
    requires
        0 <= j <= t.len(),
        forall|k: int| 0 <= k < j ==> is_space_char(t[k]),
        j < t.len() ==> !is_space_char(t[j]),
    ensures
        spec_drop_leading(t) == t.skip(j),
    decreases j,
{
    if j == 0 {
        assert(t.skip(0) =~= t);
    } else {
        lemma_drop_leading_at(t.drop_first(), j - 1);
        assert(t.drop_first().skip(j - 1) =~= t.skip(j));
    }
}

/// If every character from `j` on is blank and position `j - 1` (when
/// present) is not, dropping the trailing blanks is the same as taking `j`.
pub proof fn lemma_drop_trailing_at(t: Seq<char>, j: int)
    requires
        0 <= j <= t.len(),
        forall|k: int| j <= k < t.len() ==> is_space_char(t[k]),
        j > 0 ==> !is_space_char(t[j - 1]),
    ensures
        spec_drop_trailing(t) == t.take(j),
    decreases t.len() - j,
{
    if j == t.len() {
        assert(t.take(j) =~= t);
        if t.len() > 0 && is_space_char(t.last()) {
            assert(false);
        }
    } else {
        lemma_drop_trailing_at(t.drop_last(), j);
        assert(t.drop_last().take(j) =~= t.take(j));
    }
}

/// `s` with blanks removed from both ends.
pub fn trim(s: &str) -> (r: String)
    ensures
        r@ == spec_trim(s@),
{
    let n = s.unicode_len();
    let mut b: usize = n;
    while b > 0 && is_space(s.get_char(b - 1))
        invariant
            n == s@.len(),
            0 <= b <= n,
            forall|k: int| b <= k < n ==> is_space_char(s@[k]),
        decreases b,
    {
        b = b - 1;
    }
    proof {
        lemma_drop_trailing_at(s@, b as int);
    }
    let mut a: usize = 0;
    while a < b && is_space(s.get_char(a))
        invariant
            n == s@.len(),
            0 <= a <= b <= n,
            forall|k: int| 0 <= k < a ==> is_space_char(s@[k]),
        decreases b - a,
    {
        a = a + 1;
    }
    proof {
        let t = s@.take(b as int);
        lemma_drop_leading_at(t, a as int);
        assert(t.skip(a as int) =~= s@.subrange(a as int, b as int));
    }
    s.substring_char(a, b).to_owned()
}

/// The trimmed text, or `None` when nothing but blanks is left. This is
/// the fail-fast check applied to names, messages and URLs before any
/// external command is attempted.
pub fn nonblank_trimmed(s: &str) -> (r: Option<String>)
    ensures
        match r {
            Some(t) => t@ == spec_trim(s@) && spec_trim(s@).len() > 0,
            None => spec_trim(s@).len() == 0,
        },
{
    let t = trim(s);
    if t.as_str().is_empty() {
        None
    } else {
        Some(t)
    }
}

/// The digit character for a value below ten.
pub open spec fn spec_digit_char(d: nat) -> char {
    if d == 0 {
        '0'
    } else if d == 1 {
        '1'
    } else if d == 2 {
        '2'
    } else if d == 3 {
        '3'
    } else if d == 4 {
        '4'
    } else if d == 5 {
        '5'
    } else if d == 6 {
        '6'
    } else if d == 7 {
        '7'
    } else if d == 8 {
        '8'
    } else {
        '9'
    }
}

/// The decimal numeral of `n`, most significant digit first.
pub open spec fn spec_decimal(n: nat) -> Seq<char>
    decreases n,
{
    if n < 10 {
        seq![spec_digit_char(n)]
    } else {
        spec_decimal(n / 10) + seq![spec_digit_char(n % 10)]
    }
}

fn digit_str(d: u16) -> (r: &'static str)
    requires
        d < 10,
    ensures
        r@ == seq![spec_digit_char(d as nat)],
{
    match d {
        0 => {
            proof {
                reveal_strlit("0");
            }
            "0"
        },
        1 => {
            proof {
                reveal_strlit("1");
            }
            "1"
        },
        2 => {
            proof {
                reveal_strlit("2");
            }
            "2"
        },
        3 => {
            proof {
                reveal_strlit("3");
            }
            "3"
        },
        4 => {
            proof {
                reveal_strlit("4");
            }
            "4"
        },
        5 => {
            proof {
                reveal_strlit("5");
            }
            "5"
        },
        6 => {
            proof {
                reveal_strlit("6");
            }
            "6"
        },
        7 => {
            proof {
                reveal_strlit("7");
            }
            "7"
        },
        8 => {
            proof {
                reveal_strlit("8");
            }
            "8"
        },
        _ => {
            proof {
                reveal_strlit("9");
            }
            "9"
        },
    }
}

/// Renders `n` as its decimal numeral.
pub fn u16_to_decimal(n: u16) -> (r: String)
    ensures
        r@ == spec_decimal(n as nat),
    decreases n,
{
    if n < 10 {
        digit_str(n).to_owned()
    } else {
        u16_to_decimal(n / 10).concat(digit_str(n % 10))
    }
}

/// `t` starts with `p`.
pub open spec fn spec_has_prefix(t: Seq<char>, p: Seq<char>) -> bool {
    p.len() <= t.len() && t.take(p.len() as int) == p
}

/// `t` ends with `p`.
pub open spec fn spec_has_suffix(t: Seq<char>, p: Seq<char>) -> bool {
    p.len() <= t.len() && t.skip(t.len() - p.len()) == p
}

/// Whether `s` starts with `p`.
pub fn has_prefix(s: &str, p: &str) -> (r: bool)
    ensures
        r == spec_has_prefix(s@, p@),
{
    let n = s.unicode_len();
    let m = p.unicode_len();
    if m > n {
        return false;
    }
    let mut i: usize = 0;
    while i < m
        invariant
            n == s@.len(),
            m == p@.len(),
            m <= n,
            0 <= i <= m,
            forall|k: int| 0 <= k < i ==> s@[k] == p@[k],
        decreases m - i,
    {
        if s.get_char(i) != p.get_char(i) {
            proof {
                if s@.take(m as int) == p@ {
                    assert(s@.take(m as int)[i as int] == p@[i as int]);
                }
            }
            return false;
        }
        i = i + 1;
    }
    proof {
        assert(s@.take(m as int) =~= p@);
    }
    true
}

/// Whether `s` ends with `p`.
pub fn has_suffix(s: &str, p: &str) -> (r: bool)
    ensures
        r == spec_has_suffix(s@, p@),
{
    let n = s.unicode_len();
    let m = p.unicode_len();
    if m > n {
        return false;
    }
    let mut i: usize = 0;
    while i < m
        invariant
            n == s@.len(),
            m == p@.len(),
            m <= n,
            0 <= i <= m,
            forall|k: int| 0 <= k < i ==> s@[n - m + k] == p@[k],
        decreases m - i,
    {
        if s.get_char(n - m + i) != p.get_char(i) {
            proof {
                if s@.skip(n - m) == p@ {
                    assert(s@.skip(n - m)[i as int] == p@[i as int]);
                }
            }
            return false;
        }
        i = i + 1;
    }
    proof {
        assert(s@.skip(n - m) =~= p@);
    }
    true
}

} // verus!
