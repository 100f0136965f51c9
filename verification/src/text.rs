//! Character-level string operations with exact specifications.
//!
//! Every function here is stated over the `Seq<char>` view of its arguments, so
//! callers in the rest of the crate can reason about labels, paths and parsed
//! command output without trusting std's string routines.
use vstd::prelude::*;
use vstd::string::*;

verus! {

// ---------------------------------------------------------------------------
// Specifications
// ---------------------------------------------------------------------------

/// `n` occurs in `h` starting at index `i`.
pub open spec fn is_match_at(h: Seq<char>, n: Seq<char>, i: int) -> bool {
    0 <= i && i + n.len() <= h.len() && h.subrange(i, i + n.len()) == n
}

/// `n` occurs somewhere in `h`.
pub open spec fn seq_contains(h: Seq<char>, n: Seq<char>) -> bool {
    exists|i: int| is_match_at(h, n, i)
}

pub open spec fn seq_starts_with(h: Seq<char>, p: Seq<char>) -> bool {
    is_match_at(h, p, 0)
}

pub open spec fn seq_ends_with(h: Seq<char>, s: Seq<char>) -> bool {
    s.len() <= h.len() && is_match_at(h, s, h.len() - s.len())
}

/// Index of the first occurrence of `n` in `h` at or after `start`.
pub open spec fn find_from(h: Seq<char>, n: Seq<char>, start: int) -> Option<int>
    decreases h.len() + 1 - start,
{
    if start < 0 || start + n.len() > h.len() {
        None
    } else if is_match_at(h, n, start) {
        Some(start)
    } else {
        find_from(h, n, start + 1)
    }
}

/// The characters that Rust's `char::is_whitespace` accepts.
pub open spec fn is_ws(c: char) -> bool {
    ||| ('\u{9}' <= c && c <= '\u{d}')
    ||| c == ' '
    ||| c == '\u{85}'
    ||| c == '\u{a0}'
    ||| c == '\u{1680}'
    ||| ('\u{2000}' <= c && c <= '\u{200a}')
    ||| c == '\u{2028}'
    ||| c == '\u{2029}'
    ||| c == '\u{202f}'
    ||| c == '\u{205f}'
    ||| c == '\u{3000}'
}

pub open spec fn trim_start(s: Seq<char>) -> Seq<char>
    decreases s.len(),
{
    if s.len() > 0 && is_ws(s[0]) {
        trim_start(s.drop_first())
    } else {
        s
    }
}

pub open spec fn trim_end(s: Seq<char>) -> Seq<char>
    decreases s.len(),
{
    if s.len() > 0 && is_ws(s.last()) {
        trim_end(s.drop_last())
    } else {
        s
    }
}

pub open spec fn trim(s: Seq<char>) -> Seq<char> {
    trim_end(trim_start(s))
}

pub open spec fn ascii_lower(c: char) -> char {
    if 'A' <= c && c <= 'Z' {
        ((c as u32) + 32) as char
    } else {
        c
    }
}

pub open spec fn ascii_upper(c: char) -> char {
    if 'a' <= c && c <= 'z' {
        ((c as u32) - 32) as char
    } else {
        c
    }
}

pub open spec fn lower(s: Seq<char>) -> Seq<char> {
    s.map_values(|c: char| ascii_lower(c))
}

pub open spec fn upper(s: Seq<char>) -> Seq<char> {
    s.map_values(|c: char| ascii_upper(c))
}

pub open spec fn eq_ignore_case(a: Seq<char>, b: Seq<char>) -> bool {
    lower(a) == lower(b)
}

/// `s` split at the first occurrence of `d` (the delimiter itself is dropped).
pub open spec fn split_once(s: Seq<char>, d: Seq<char>) -> Option<(Seq<char>, Seq<char>)> {
    match find_from(s, d, 0) {
        Some(k) => Some((s.subrange(0, k), s.subrange(k + d.len(), s.len() as int))),
        None => None,
    }
}

/// `s` split at the last occurrence of the single character `d`.
pub open spec fn last_index_of(s: Seq<char>, d: char) -> Option<int>
    decreases s.len(),
{
    if s.len() == 0 {
        None
    } else if s.last() == d {
        Some(s.len() - 1)
    } else {
        last_index_of(s.drop_last(), d)
    }
}

/// Where `last_index_of` finds the character, the index lies inside the text and holds it.
pub proof fn lemma_last_index_of_bounds(s: Seq<char>, d: char)
    ensures
        last_index_of(s, d) matches Some(k) ==> 0 <= k < s.len() && s[k] == d,
    decreases s.len(),
{
    if s.len() > 0 && s.last() != d {
        lemma_last_index_of_bounds(s.drop_last(), d);
    }
}

/// `s[i..]` with every non-overlapping occurrence of `from`, scanning left to
/// right, replaced by `to` (`str::replace`).
pub open spec fn replace_from(s: Seq<char>, from: Seq<char>, to: Seq<char>, i: int) -> Seq<char>
    decreases s.len() - i,
{
    if i < 0 || i >= s.len() {
        seq![]
    } else if from.len() > 0 && is_match_at(s, from, i) {
        to + replace_from(s, from, to, i + from.len())
    } else {
        seq![s[i]] + replace_from(s, from, to, i + 1)
    }
}

/// `v` with every character `c` written as the text `f(c)`.
pub open spec fn flat_map_chars(v: Seq<char>, f: spec_fn(char) -> Seq<char>) -> Seq<char>
    decreases v.len(),
{
    if v.len() == 0 {
        seq![]
    } else {
        f(v[0]) + flat_map_chars(v.drop_first(), f)
    }
}

/// In a text made of blocks `f(c)`, `p` can only occur as a whole block: every block
/// is non-empty, `p`'s first character starts a block wherever it occurs, and a block
/// other than `p` that starts like `p` differs from it before either ends.
pub open spec fn blocks_align(f: spec_fn(char) -> Seq<char>, p: Seq<char>) -> bool {
    &&& p.len() > 0
    &&& forall|c: char| #[trigger] f(c).len() > 0
    &&& forall|c: char, j: int| 0 < j < f(c).len() ==> #[trigger] f(c)[j] != p[0]
    &&& forall|c: char|
        #![trigger f(c)]
        f(c) != p && f(c)[0] == p[0] ==> exists|m: int|
            0 < m < f(c).len() && m < p.len() && f(c)[m] != p[m]
}

/// Replacing from a position inside the second part of `a + b` does not look at `a`.
pub proof fn lemma_replace_from_shift(
    a: Seq<char>,
    b: Seq<char>,
    p: Seq<char>,
    q: Seq<char>,
    i: int,
)
    requires
        0 <= i,
    ensures
        replace_from(a + b, p, q, a.len() + i) == replace_from(b, p, q, i),
    decreases b.len() - i,
{
    let s = a + b;
    if i < b.len() {
        if p.len() > 0 && i + p.len() <= b.len() {
            assert(s.subrange(a.len() + i, a.len() + i + p.len()) =~= b.subrange(i, i + p.len()));
        }
        assert(s[a.len() + i] == b[i]);
        lemma_replace_from_shift(a, b, p, q, i + 1);
        if p.len() > 0 && i + p.len() <= b.len() {
            lemma_replace_from_shift(a, b, p, q, i + p.len());
        }
    }
}

/// Where `p` matches nowhere from `j` to the end of `a`, replacing copies that part of `a`.
pub proof fn lemma_replace_through_block(
    a: Seq<char>,
    b: Seq<char>,
    p: Seq<char>,
    q: Seq<char>,
    j: int,
)
    requires
        0 <= j <= a.len(),
        forall|k: int| j <= k < a.len() ==> !is_match_at(a + b, p, k),
    ensures
        replace_from(a + b, p, q, j) == a.subrange(j, a.len() as int) + replace_from(
            a + b,
            p,
            q,
            a.len() as int,
        ),
    decreases a.len() - j,
{
    let r = replace_from(a + b, p, q, a.len() as int);
    if j < a.len() {
        lemma_replace_through_block(a, b, p, q, j + 1);
        assert((a + b)[j] == a[j]);
        assert(seq![a[j]] + (a.subrange(j + 1, a.len() as int) + r) =~= a.subrange(
            j,
            a.len() as int,
        ) + r);
    } else {
        assert(a.subrange(j, a.len() as int) + r =~= r);
    }
}

/// Replacing `p` by `q` in a text of aligned blocks replaces exactly the blocks equal to `p`.
pub proof fn lemma_replace_blocks(
    v: Seq<char>,
    f: spec_fn(char) -> Seq<char>,
    g: spec_fn(char) -> Seq<char>,
    p: Seq<char>,
    q: Seq<char>,
)
    requires
        blocks_align(f, p),
        forall|c: char|
            #[trigger] g(c) == if f(c) == p {
                q
            } else {
                f(c)
            },
    ensures
        replace_from(flat_map_chars(v, f), p, q, 0) == flat_map_chars(v, g),
    decreases v.len(),
{
    if v.len() > 0 {
        let c = v[0];
        let a = f(c);
        let rest = flat_map_chars(v.drop_first(), f);
        let s = flat_map_chars(v, f);
        assert(s == a + rest);
        assert(a.len() > 0);
        lemma_replace_blocks(v.drop_first(), f, g, p, q);
        if a == p {
            assert(s.subrange(0, p.len() as int) =~= p);
            lemma_replace_from_shift(a, rest, p, q, 0);
        } else {
            assert forall|k: int| 0 <= k < a.len() implies !is_match_at(s, p, k) by {
                if is_match_at(s, p, k) {
                    assert(s.subrange(k, k + p.len())[0] == p[0]);
                    assert(s[k] == a[k]);
                    if k == 0 {
                        let m = choose|m: int| 0 < m < a.len() && m < p.len() && a[m] != p[m];
                        assert(s.subrange(0, p.len() as int)[m] == p[m]);
                        assert(s[m] == a[m]);
                    } else {
                        assert(f(c)[k] != p[0]);
                    }
                }
            }
            lemma_replace_through_block(a, rest, p, q, 0);
            assert(a.subrange(0, a.len() as int) =~= a);
            lemma_replace_from_shift(a, rest, p, q, 0);
        }
    }
}

pub open spec fn replace_all(s: Seq<char>, from: Seq<char>, to: Seq<char>) -> Seq<char> {
    replace_from(s, from, to, 0)
}

pub open spec fn strip_prefix(s: Seq<char>, p: Seq<char>) -> Option<Seq<char>> {
    if seq_starts_with(s, p) {
        Some(s.subrange(p.len() as int, s.len() as int))
    } else {
        None
    }
}

pub open spec fn strip_suffix(s: Seq<char>, p: Seq<char>) -> Option<Seq<char>> {
    if seq_ends_with(s, p) {
        Some(s.subrange(0, s.len() - p.len()))
    } else {
        None
    }
}

/// A line without its trailing carriage return, as `str::lines` yields it.
pub open spec fn drop_cr(l: Seq<char>) -> Seq<char> {
    if l.len() > 0 && l.last() == '\r' {
        l.drop_last()
    } else {
        l
    }
}

/// The lines of `s`, as Rust's `str::lines` splits them.
pub open spec fn lines(s: Seq<char>) -> Seq<Seq<char>>
    decreases s.len(),
{
    if s.len() == 0 {
        seq![]
    } else {
        match find_from(s, seq!['\n'], 0) {
            Some(k) => {
                if 0 <= k < s.len() {
                    seq![drop_cr(s.subrange(0, k))] + lines(s.subrange(k + 1, s.len() as int))
                } else {
                    seq![]
                }
            },
            None => seq![s],
        }
    }
}

pub open spec fn is_digit(c: char) -> bool {
    '0' <= c && c <= '9'
}

pub open spec fn digit_value(c: char) -> nat {
    ((c as u32) - ('0' as u32)) as nat
}

/// The natural number that a non-empty run of decimal digits spells.
pub open spec fn digits_value(s: Seq<char>) -> nat
    decreases s.len(),
{
    if s.len() == 0 {
        0
    } else {
        digits_value(s.drop_last()) * 10 + digit_value(s.last())
    }
}

pub open spec fn all_digits(s: Seq<char>) -> bool {
    forall|i: int| 0 <= i < s.len() ==> is_digit(#[trigger] s[i])
}

/// What `str::parse::<u64>` returns for `s`.
pub open spec fn parse_u64(s: Seq<char>) -> Option<u64> {
    let body = if s.len() > 0 && s[0] == '+' {
        s.drop_first()
    } else {
        s
    };
    if body.len() > 0 && all_digits(body) && digits_value(body) <= u64::MAX {
        Some(digits_value(body) as u64)
    } else {
        None
    }
}

pub open spec fn digit_char(d: nat) -> char {
    ((d + ('0' as u32)) as u32) as char
}

/// Decimal rendering of `n`, as `u64::to_string` writes it.
pub open spec fn decimal(n: nat) -> Seq<char>
    decreases n,
{
    if n < 10 {
        seq![digit_char(n)]
    } else {
        decimal(n / 10).push(digit_char(n % 10))
    }
}

/// `s` padded on the right with spaces to at least `width` characters.
pub open spec fn pad_right(s: Seq<char>, width: nat) -> Seq<char> {
    if s.len() >= width {
        s
    } else {
        s + Seq::new((width - s.len()) as nat, |i: int| ' ')
    }
}

/// `parts` joined with `sep` between consecutive parts.
pub open spec fn join(parts: Seq<Seq<char>>, sep: Seq<char>) -> Seq<char>
    decreases parts.len(),
{
    if parts.len() == 0 {
        seq![]
    } else if parts.len() == 1 {
        parts[0]
    } else {
        join(parts.drop_last(), sep) + sep + parts.last()
    }
}

// ---------------------------------------------------------------------------
// Lemmas
// ---------------------------------------------------------------------------

pub proof fn lemma_find_from(h: Seq<char>, n: Seq<char>, start: int)
    requires
        0 <= start,
    ensures
        match find_from(h, n, start) {
            Some(k) => start <= k && is_match_at(h, n, k) && forall|j: int|
                start <= j < k ==> !is_match_at(h, n, j),
            None => forall|j: int| start <= j ==> !is_match_at(h, n, j),
        },
    decreases h.len() + 1 - start,
{
    if start + n.len() > h.len() {
    } else if is_match_at(h, n, start) {
    } else {
        lemma_find_from(h, n, start + 1);
    }
}

pub proof fn lemma_contains_find(h: Seq<char>, n: Seq<char>)
    ensures
        seq_contains(h, n) <==> find_from(h, n, 0) is Some,
{
    lemma_find_from(h, n, 0);
    if let Some(k) = find_from(h, n, 0) {
        assert(is_match_at(h, n, k));
    }
}

proof fn lemma_trim_start_skip(s: Seq<char>, i: int)
    requires
        0 <= i <= s.len(),
        forall|j: int| 0 <= j < i ==> is_ws(s[j]),
    ensures
        trim_start(s) == trim_start(s.subrange(i, s.len() as int)),
    decreases i,
{
    if i > 0 {
        assert(s.drop_first() =~= s.subrange(1, s.len() as int));
        lemma_trim_start_skip(s.drop_first(), i - 1);
        assert(s.drop_first().subrange(i - 1, s.drop_first().len() as int) =~= s.subrange(
            i,
            s.len() as int,
        ));
    } else {
        assert(s.subrange(0, s.len() as int) =~= s);
    }
}

proof fn lemma_trim_end_cut(s: Seq<char>, k: int)
    requires
        0 <= k <= s.len(),
        forall|j: int| k <= j < s.len() ==> is_ws(s[j]),
    ensures
        trim_end(s) == trim_end(s.subrange(0, k)),
    decreases s.len() - k,
{
    if k < s.len() {
        assert(s.drop_last() =~= s.subrange(0, s.len() - 1));
        lemma_trim_end_cut(s.drop_last(), k);
        assert(s.drop_last().subrange(0, k) =~= s.subrange(0, k));
    } else {
        assert(s.subrange(0, k) =~= s);
    }
}

proof fn lemma_lines_unfold(s: Seq<char>)
    requires
        s.len() > 0,
    ensures
        lines(s) == match find_from(s, seq!['\n'], 0) {
            Some(k) => if 0 <= k < s.len() {
                seq![drop_cr(s.subrange(0, k))] + lines(s.subrange(k + 1, s.len() as int))
            } else {
                seq![]
            },
            None => seq![s],
        },
{
}

// ---------------------------------------------------------------------------
// Executable operations
// ---------------------------------------------------------------------------

/// Append one character (`String::push`).
#[verifier::external_body]
pub(crate) fn push_char(s: &mut String, c: char)
    ensures
        final(s)@ == old(s)@.push(c),
{
    s.push(c);
}

/// An owned copy of `s`.
pub fn owned(s: &str) -> (r: String)
    ensures
        r@ == s@,
{
    String::from_str(s)
}

/// `a` followed by `b`.
pub fn concat2(a: &str, b: &str) -> (r: String)
    ensures
        r@ == a@ + b@,
{
    let mut r = String::from_str(a);
    r.append(b);
    r
}

/// `a`, `b` and `c` in order.
pub fn concat3(a: &str, b: &str, c: &str) -> (r: String)
    ensures
        r@ == a@ + b@ + c@,
{
    let mut r = String::from_str(a);
    r.append(b);
    r.append(c);
    r
}

pub fn str_eq(a: &str, b: &str) -> (r: bool)
    ensures
        r == (a@ == b@),
{
    let n = a.unicode_len();
    if n != b.unicode_len() {
        return false;
    }
    let mut i: usize = 0;
    while i < n
        invariant
            n == a@.len(),
            n == b@.len(),
            i <= n,
            forall|j: int| 0 <= j < i ==> a@[j] == b@[j],
        decreases n - i,
    {
        if a.get_char(i) != b.get_char(i) {
            return false;
        }
        i = i + 1;
    }
    assert(a@ =~= b@);
    true
}

pub fn opt_str_eq(a: Option<&str>, b: &str) -> (r: bool)
    ensures
        r == (a is Some && a.unwrap()@ == b@),
{
    match a {
        Some(x) => str_eq(x, b),
        None => false,
    }
}

/// Whether `n` occurs in `h` at char index `i`.
pub fn match_at(h: &str, n: &str, i: usize) -> (r: bool)
    ensures
        r == is_match_at(h@, n@, i as int),
{
    let hl = h.unicode_len();
    let nl = n.unicode_len();
    if i > hl || nl > hl - i {
        return false;
    }
    let mut j: usize = 0;
    while j < nl
        invariant
            hl == h@.len(),
            nl == n@.len(),
            i + nl <= hl,
            j <= nl,
            forall|k: int| 0 <= k < j ==> h@[i + k] == n@[k],
        decreases nl - j,
    {
        if h.get_char(i + j) != n.get_char(j) {
            assert(h@.subrange(i as int, i + nl)[j as int] != n@[j as int]);
            return false;
        }
        j = j + 1;
    }
    assert(h@.subrange(i as int, i + nl) =~= n@);
    true
}

/// First char index at or after `start` where `n` occurs in `h`.
pub fn find(h: &str, n: &str, start: usize) -> (r: Option<usize>)
    ensures
        match r {
            Some(k) => find_from(h@, n@, start as int) == Some(k as int),
            None => find_from(h@, n@, start as int) is None,
        },
{
    let hl = h.unicode_len();
    let nl = n.unicode_len();
    if start > hl || nl > hl - start {
        return None;
    }
    if nl == 0 {
        assert(h@.subrange(start as int, start as int) =~= n@);
        return Some(start);
    }
    let mut i: usize = start;
    while nl <= hl - i
        invariant
            hl == h@.len(),
            nl == n@.len(),
            nl > 0,
            start <= i,
            i <= hl,
            find_from(h@, n@, start as int) == find_from(h@, n@, i as int),
        decreases hl - i,
    {
        if match_at(h, n, i) {
            return Some(i);
        }
        i = i + 1;
    }
    None
}

pub fn contains(h: &str, n: &str) -> (r: bool)
    ensures
        r == seq_contains(h@, n@),
{
    proof {
        lemma_contains_find(h@, n@);
    }
    find(h, n, 0).is_some()
}

pub fn starts_with(h: &str, p: &str) -> (r: bool)
    ensures
        r == seq_starts_with(h@, p@),
{
    match_at(h, p, 0)
}

pub fn ends_with(h: &str, s: &str) -> (r: bool)
    ensures
        r == seq_ends_with(h@, s@),
{
    let hl = h.unicode_len();
    let sl = s.unicode_len();
    if sl > hl {
        return false;
    }
    match_at(h, s, hl - sl)
}

pub fn strip_prefix_str<'a>(s: &'a str, p: &str) -> (r: Option<&'a str>)
    ensures
        match r {
            Some(x) => strip_prefix(s@, p@) == Some(x@),
            None => strip_prefix(s@, p@) is None,
        },
{
    if starts_with(s, p) {
        Some(s.substring_char(p.unicode_len(), s.unicode_len()))
    } else {
        None
    }
}

pub fn strip_suffix_str<'a>(s: &'a str, p: &str) -> (r: Option<&'a str>)
    ensures
        match r {
            Some(x) => strip_suffix(s@, p@) == Some(x@),
            None => strip_suffix(s@, p@) is None,
        },
{
    if ends_with(s, p) {
        Some(s.substring_char(0, s.unicode_len() - p.unicode_len()))
    } else {
        None
    }
}

/// `s` cut at the first occurrence of `d`, without the delimiter.
pub fn split_once_str<'a>(s: &'a str, d: &str) -> (r: Option<(&'a str, &'a str)>)
    ensures
        match r {
            Some((a, b)) => split_once(s@, d@) == Some((a@, b@)),
            None => split_once(s@, d@) is None,
        },
{
    match find(s, d, 0) {
        Some(k) => {
            proof {
                lemma_find_from(s@, d@, 0);
            }
            let n = s.unicode_len();
            let a = s.substring_char(0, k);
            let b = s.substring_char(k + d.unicode_len(), n);
            Some((a, b))
        },
        None => None,
    }
}

/// `s` cut at the last occurrence of the character `d`.
pub fn rsplit_once_char<'a>(s: &'a str, d: char) -> (r: Option<(&'a str, &'a str)>)
    ensures
        match last_index_of(s@, d) {
            Some(k) => r is Some && r.unwrap().0@ == s@.subrange(0, k) && r.unwrap().1@
                == s@.subrange(k + 1, s@.len() as int),
            None => r is None,
        },
{
    let n = s.unicode_len();
    let mut i: usize = n;
    assert(s@.subrange(0, n as int) =~= s@);
    while i > 0
        invariant
            n == s@.len(),
            i <= n,
            last_index_of(s@, d) == last_index_of(s@.subrange(0, i as int), d),
        decreases i,
    {
        let c = s.get_char(i - 1);
        assert(s@.subrange(0, i as int).drop_last() =~= s@.subrange(0, i - 1));
        if c == d {
            return Some((s.substring_char(0, i - 1), s.substring_char(i, n)));
        }
        i = i - 1;
    }
    None
}

pub fn is_ws_char(c: char) -> (r: bool)
    ensures
        r == is_ws(c),
{
    ('\u{9}' <= c && c <= '\u{d}') || c == ' ' || c == '\u{85}' || c == '\u{a0}' || c
        == '\u{1680}' || ('\u{2000}' <= c && c <= '\u{200a}') || c == '\u{2028}' || c
        == '\u{2029}' || c == '\u{202f}' || c == '\u{205f}' || c == '\u{3000}'
}

/// `s` without leading and trailing whitespace (`str::trim`).
pub fn trim_str<'a>(s: &'a str) -> (r: &'a str)
    ensures
        r@ == trim(s@),
{
    let n = s.unicode_len();
    let mut lo: usize = 0;
    while lo < n && is_ws_char(s.get_char(lo))
        invariant
            n == s@.len(),
            lo <= n,
            forall|j: int| 0 <= j < lo ==> is_ws(s@[j]),
        decreases n - lo,
    {
        lo = lo + 1;
    }
    let mut hi: usize = n;
    while hi > lo && is_ws_char(s.get_char(hi - 1))
        invariant
            n == s@.len(),
            lo <= hi <= n,
            forall|j: int| hi <= j < n ==> is_ws(s@[j]),
        decreases hi - lo,
    {
        hi = hi - 1;
    }
    proof {
        lemma_trim_start_skip(s@, lo as int);
        let rest = s@.subrange(lo as int, n as int);
        if lo < n {
            assert(!is_ws(rest[0]));
        }
        assert(trim_start(rest) == rest);
        lemma_trim_end_cut(rest, hi - lo);
        assert(rest.subrange(0, hi - lo) =~= s@.subrange(lo as int, hi as int));
        let mid = s@.subrange(lo as int, hi as int);
        if hi > lo {
            assert(!is_ws(mid.last()));
        }
        assert(trim_end(mid) == mid);
    }
    s.substring_char(lo, hi)
}

pub fn ascii_lower_char(c: char) -> (r: char)
    ensures
        r == ascii_lower(c),
{
    if 'A' <= c && c <= 'Z' {
        let v: u8 = ((c as u32) + 32) as u8;
        v as char
    } else {
        c
    }
}

pub fn ascii_upper_char(c: char) -> (r: char)
    ensures
        r == ascii_upper(c),
{
    if 'a' <= c && c <= 'z' {
        let v: u8 = ((c as u32) - 32) as u8;
        v as char
    } else {
        c
    }
}

/// `s` with ASCII letters lowered (`str::to_ascii_lowercase`).
pub fn to_lower(s: &str) -> (r: String)
    ensures
        r@ == lower(s@),
{
    let n = s.unicode_len();
    let mut out = String::new();
    let mut i: usize = 0;
    while i < n
        invariant
            n == s@.len(),
            i <= n,
            out@ =~= lower(s@.subrange(0, i as int)),
        decreases n - i,
    {
        let c = ascii_lower_char(s.get_char(i));
        push_char(&mut out, c);
        assert(lower(s@.subrange(0, i + 1)) =~= lower(s@.subrange(0, i as int)).push(
            ascii_lower(s@[i as int]),
        ));
        i = i + 1;
    }
    assert(s@.subrange(0, n as int) =~= s@);
    out
}

/// `s` with ASCII letters raised (`str::to_ascii_uppercase`).
pub fn to_upper(s: &str) -> (r: String)
    ensures
        r@ == upper(s@),
{
    let n = s.unicode_len();
    let mut out = String::new();
    let mut i: usize = 0;
    while i < n
        invariant
            n == s@.len(),
            i <= n,
            out@ =~= upper(s@.subrange(0, i as int)),
        decreases n - i,
    {
        let c = ascii_upper_char(s.get_char(i));
        push_char(&mut out, c);
        assert(upper(s@.subrange(0, i + 1)) =~= upper(s@.subrange(0, i as int)).push(
            ascii_upper(s@[i as int]),
        ));
        i = i + 1;
    }
    assert(s@.subrange(0, n as int) =~= s@);
    out
}

/// Case-insensitive comparison over ASCII letters (`str::eq_ignore_ascii_case`).
pub fn eq_ignore_ascii_case(a: &str, b: &str) -> (r: bool)
    ensures
        r == eq_ignore_case(a@, b@),
{
    let n = a.unicode_len();
    if n != b.unicode_len() {
        assert(lower(a@).len() != lower(b@).len());
        return false;
    }
    let mut i: usize = 0;
    while i < n
        invariant
            n == a@.len(),
            n == b@.len(),
            i <= n,
            forall|j: int| 0 <= j < i ==> ascii_lower(a@[j]) == ascii_lower(b@[j]),
        decreases n - i,
    {
        if ascii_lower_char(a.get_char(i)) != ascii_lower_char(b.get_char(i)) {
            assert(lower(a@)[i as int] != lower(b@)[i as int]);
            return false;
        }
        i = i + 1;
    }
    assert(lower(a@) =~= lower(b@));
    true
}

/// `s` padded with spaces on the right to `width` characters.
pub fn pad_right_str(s: &str, width: usize) -> (r: String)
    ensures
        r@ == pad_right(s@, width as nat),
{
    let n = s.unicode_len();
    let mut out = String::from_str(s);
    if n >= width {
        return out;
    }
    let mut k: usize = n;
    while k < width
        invariant
            n == s@.len(),
            n <= k <= width,
            out@ =~= s@ + Seq::new((k - n) as nat, |i: int| ' '),
        decreases width - k,
    {
        push_char(&mut out, ' ');
        k = k + 1;
    }
    out
}

pub fn all_digits_str(s: &str) -> (r: bool)
    ensures
        r == all_digits(s@),
{
    let n = s.unicode_len();
    let mut i: usize = 0;
    while i < n
        invariant
            n == s@.len(),
            i <= n,
            forall|j: int| 0 <= j < i ==> is_digit(s@[j]),
        decreases n - i,
    {
        let c = s.get_char(i);
        if !('0' <= c && c <= '9') {
            return false;
        }
        i = i + 1;
    }
    true
}

proof fn lemma_digits_prefix(s: Seq<char>, i: int)
    requires
        0 <= i < s.len(),
    ensures
        digits_value(s.subrange(0, i + 1)) == digits_value(s.subrange(0, i)) * 10 + digit_value(
            s[i],
        ),
{
    assert(s.subrange(0, i + 1).drop_last() =~= s.subrange(0, i));
}

proof fn lemma_digits_monotone(s: Seq<char>, i: int)
    requires
        0 <= i <= s.len(),
        all_digits(s),
    ensures
        digits_value(s.subrange(0, i)) <= digits_value(s),
    decreases s.len() - i,
{
    if i < s.len() {
        lemma_digits_monotone(s, i + 1);
        lemma_digits_prefix(s, i);
    } else {
        assert(s.subrange(0, i) =~= s);
    }
}

/// `str::parse::<u64>`.
pub fn parse_u64_str(s: &str) -> (r: Option<u64>)
    ensures
        r == parse_u64(s@),
{
    let n = s.unicode_len();
    let start: usize = if n > 0 && s.get_char(0) == '+' {
        1
    } else {
        0
    };
    let body = s.substring_char(start, n);
    proof {
        if n > 0 && s@[0] == '+' {
            assert(body@ =~= s@.drop_first());
        } else {
            assert(body@ =~= s@);
        }
    }
    let bl = body.unicode_len();
    if bl == 0 || !all_digits_str(body) {
        return None;
    }
    let mut acc: u64 = 0;
    let mut i: usize = 0;
    while i < bl
        invariant
            bl == body@.len(),
            i <= bl,
            all_digits(body@),
            body@ == (if s@.len() > 0 && s@[0] == '+' {
                s@.drop_first()
            } else {
                s@
            }),
            acc == digits_value(body@.subrange(0, i as int)),
        decreases bl - i,
    {
        let c = body.get_char(i);
        let d: u64 = ((c as u32) - ('0' as u32)) as u64;
        proof {
            lemma_digits_prefix(body@, i as int);
            assert(is_digit(body@[i as int]));
            assert(d == digit_value(body@[i as int]));
        }
        if acc > (u64::MAX - d) / 10 {
            proof {
                lemma_digits_monotone(body@, i + 1);
                assert(acc * 10 + d > u64::MAX) by (nonlinear_arith)
                    requires
                        acc > (u64::MAX - d) / 10,
                        d <= 9,
                ;
                assert(digits_value(body@) > u64::MAX);
            }
            return None;
        }
        assert(acc * 10 + d <= u64::MAX) by (nonlinear_arith)
            requires
                acc <= (u64::MAX - d) / 10,
                d <= 9,
        ;
        acc = acc * 10 + d;
        i = i + 1;
    }
    assert(body@.subrange(0, bl as int) =~= body@);
    Some(acc)
}

proof fn lemma_decimal_len(n: nat)
    ensures
        decimal(n).len() >= 1,
    decreases n,
{
    if n >= 10 {
        lemma_decimal_len(n / 10);
    }
}

/// Decimal text of `n` (`u64::to_string`).
pub fn u64_to_text(n: u64) -> (r: String)
    ensures
        r@ == decimal(n as nat),
    decreases n,
{
    if n < 10 {
        let mut s = String::new();
        let c = ((n as u8) + 48) as char;
        push_char(&mut s, c);
        assert(s@ =~= seq![digit_char(n as nat)]);
        s
    } else {
        let mut s = u64_to_text(n / 10);
        let d = n % 10;
        let c = ((d as u8) + 48) as char;
        push_char(&mut s, c);
        s
    }
}

/// The lines of `s` (`str::lines`).
pub fn lines_of<'a>(s: &'a str) -> (r: Vec<&'a str>)
    ensures
        r@.map_values(|x: &str| x@) == lines(s@),
{
    let n = s.unicode_len();
    let mut out: Vec<&'a str> = Vec::new();
    let mut pos: usize = 0;
    assert(s@.subrange(0, n as int) =~= s@);
    assert(out@.map_values(|x: &str| x@) =~= Seq::<Seq<char>>::empty());
    assert(Seq::<Seq<char>>::empty() + lines(s@) =~= lines(s@));
    while pos < n
        invariant
            n == s@.len(),
            pos <= n,
            out@.map_values(|x: &str| x@) + lines(s@.subrange(pos as int, n as int)) == lines(
                s@,
            ),
        decreases n - pos,
    {
        let rest = s.substring_char(pos, n);
        let ghost old_out = out@;
        proof {
            lemma_lines_unfold(rest@);
            lemma_find_from(rest@, seq!['\n'], 0);
        }
        match find(rest, "\n", 0) {
            Some(k) => {
                proof {
                    reveal_strlit("\n");
                    assert("\n"@ =~= seq!['\n']);
                }
                let line = rest.substring_char(0, k);
                let ll = line.unicode_len();
                let clean = if ll > 0 && line.get_char(ll - 1) == '\r' {
                    line.substring_char(0, ll - 1)
                } else {
                    line
                };
                proof {
                    if ll > 0 && line@.last() == '\r' {
                        assert(clean@ =~= line@.drop_last());
                    }
                    assert(clean@ == drop_cr(rest@.subrange(0, k as int)));
                    assert(rest@.subrange(k + 1, rest@.len() as int) =~= s@.subrange(
                        pos + k + 1,
                        n as int,
                    ));
                }
                out.push(clean);
                proof {
                    assert(out@.map_values(|x: &str| x@) =~= old_out.map_values(|x: &str| x@).push(
                        clean@,
                    ));
                    assert(lines(rest@) =~= seq![clean@] + lines(
                        s@.subrange(pos + k + 1, n as int),
                    ));
                }
                pos = pos + k + 1;
            },
            None => {
                proof {
                    reveal_strlit("\n");
                    assert("\n"@ =~= seq!['\n']);
                }
                out.push(rest);
                proof {
                    assert(out@.map_values(|x: &str| x@) =~= old_out.map_values(|x: &str| x@).push(
                        rest@,
                    ));
                    assert(s@.subrange(n as int, n as int) =~= Seq::<char>::empty());
                }
                pos = n;
            },
        }
    }
    proof {
        assert(s@.subrange(pos as int, n as int) =~= Seq::<char>::empty());
        assert(out@.map_values(|x: &str| x@) =~= out@.map_values(|x: &str| x@) + Seq::<
            Seq<char>,
        >::empty());
    }
    out
}

/// `parts` joined by `sep` (`[String]::join`).
pub fn join_strings(parts: &Vec<String>, sep: &str) -> (r: String)
    ensures
        r@ == join(parts@.map_values(|p: String| p@), sep@),
{
    let ghost views = parts@.map_values(|p: String| p@);
    let mut out = String::new();
    let mut i: usize = 0;
    while i < parts.len()
        invariant
            views == parts@.map_values(|p: String| p@),
            i <= parts.len(),
            out@ == join(views.take(i as int), sep@),
        decreases parts.len() - i,
    {
        if i > 0 {
            out.append(sep);
        }
        out.append(parts[i].as_str());
        proof {
            let t = views.take(i + 1);
            assert(t.drop_last() =~= views.take(i as int));
            if i == 0 {
                assert(join(views.take(0), sep@) == Seq::<char>::empty());
            }
        }
        i = i + 1;
    }
    assert(views.take(parts.len() as int) =~= views);
    out
}


/// `s` with every occurrence of the non-empty `from` replaced by `to`.
pub fn replace_str(s: &str, from: &str, to: &str) -> (r: String)
    requires
        from@.len() > 0,
    ensures
        r@ == replace_all(s@, from@, to@),
{
    let n = s.unicode_len();
    let fl = from.unicode_len();
    let mut out = String::new();
    let mut i: usize = 0;
    while i < n
        invariant
            n == s@.len(),
            fl == from@.len(),
            fl > 0,
            i <= n,
            replace_all(s@, from@, to@) == out@ + replace_from(s@, from@, to@, i as int),
        decreases n - i,
    {
        if match_at(s, from, i) {
            out.append(to);
            i = i + fl;
        } else {
            push_char(&mut out, s.get_char(i));
            i = i + 1;
        }
    }
    assert(replace_from(s@, from@, to@, i as int) =~= seq![]);
    assert(out@ + seq![] =~= out@);
    out
}


pub open spec fn signed_decimal(n: int) -> Seq<char> {
    if n < 0 {
        seq!['-'] + decimal((-n) as nat)
    } else {
        decimal(n as nat)
    }
}

/// Decimal text of `n` (`i32::to_string`).
pub fn i32_to_text(n: i32) -> (r: String)
    ensures
        r@ == signed_decimal(n as int),
{
    if n < 0 {
        let m: u64 = (-(n as i64)) as u64;
        let digits = u64_to_text(m);
        let mut s = String::new();
        push_char(&mut s, '-');
        s.append(digits.as_str());
        assert(s@ =~= seq!['-'] + decimal((-n) as nat));
        s
    } else {
        u64_to_text(n as u64)
    }
}


pub open spec fn is_hex_digit(c: char) -> bool {
    ('0' <= c && c <= '9') || ('a' <= c && c <= 'f') || ('A' <= c && c <= 'F')
}

pub open spec fn hex_value(c: char) -> nat {
    if '0' <= c && c <= '9' {
        ((c as u32) - ('0' as u32)) as nat
    } else if 'a' <= c && c <= 'f' {
        ((c as u32) - ('a' as u32) + 10) as nat
    } else {
        ((c as u32) - ('A' as u32) + 10) as nat
    }
}

/// The natural number that a run of hexadecimal digits spells.
pub open spec fn hex_digits_value(s: Seq<char>) -> nat
    decreases s.len(),
{
    if s.len() == 0 {
        0
    } else {
        hex_digits_value(s.drop_last()) * 16 + hex_value(s.last())
    }
}

/// `s` without one leading `+`.
pub open spec fn without_plus(s: Seq<char>) -> Seq<char> {
    if s.len() > 0 && s[0] == '+' {
        s.drop_first()
    } else {
        s
    }
}

pub open spec fn all_hex(s: Seq<char>) -> bool {
    forall|i: int| 0 <= i < s.len() ==> is_hex_digit(#[trigger] s[i])
}

/// What `from_str_radix(s, 16)` returns for an unsigned type whose largest
/// value is `max`: an optional `+`, then at least one hex digit, in range.
pub open spec fn parse_hex(s: Seq<char>, max: nat) -> Option<nat> {
    let body = without_plus(s);
    if body.len() > 0 && all_hex(body) && hex_digits_value(body) <= max {
        Some(hex_digits_value(body))
    } else {
        None
    }
}

proof fn lemma_hex_prefix(s: Seq<char>, i: int)
    requires
        0 <= i < s.len(),
    ensures
        hex_digits_value(s.subrange(0, i + 1)) == hex_digits_value(s.subrange(0, i)) * 16
            + hex_value(s[i]),
{
    assert(s.subrange(0, i + 1).drop_last() =~= s.subrange(0, i));
}

proof fn lemma_hex_monotone(s: Seq<char>, i: int)
    requires
        0 <= i <= s.len(),
    ensures
        hex_digits_value(s.subrange(0, i)) <= hex_digits_value(s),
    decreases s.len() - i,
{
    if i < s.len() {
        lemma_hex_monotone(s, i + 1);
        lemma_hex_prefix(s, i);
    } else {
        assert(s.subrange(0, i) =~= s);
    }
}

/// `from_str_radix(s, 16)` into an unsigned type whose largest value is `max`.
pub fn parse_hex_str(s: &str, max: u64) -> (r: Option<u64>)
    ensures
        match r {
            Some(v) => parse_hex(s@, max as nat) == Some(v as nat),
            None => parse_hex(s@, max as nat) is None,
        },
{
    let n = s.unicode_len();
    let start: usize = if n > 0 && s.get_char(0) == '+' {
        1
    } else {
        0
    };
    let body = s.substring_char(start, n);
    let ghost expect = without_plus(s@);
    proof {
        assert(body@ =~= expect);
    }
    let bl = body.unicode_len();
    if bl == 0 {
        return None;
    }
    let mut acc: u64 = 0;
    let mut i: usize = 0;
    while i < bl
        invariant
            bl == body@.len(),
            body@ == expect,
            expect == without_plus(s@),
            i <= bl,
            forall|j: int| 0 <= j < i ==> is_hex_digit(#[trigger] body@[j]),
            acc == hex_digits_value(body@.subrange(0, i as int)),
            acc <= max,
        decreases bl - i,
    {
        let c = body.get_char(i);
        let d: u64 = if '0' <= c && c <= '9' {
            ((c as u32) - ('0' as u32)) as u64
        } else if 'a' <= c && c <= 'f' {
            ((c as u32) - ('a' as u32) + 10) as u64
        } else if 'A' <= c && c <= 'F' {
            ((c as u32) - ('A' as u32) + 10) as u64
        } else {
            assert(!is_hex_digit(expect[i as int]));
            assert(parse_hex(s@, max as nat) is None);
            return None;
        };
        proof {
            lemma_hex_prefix(body@, i as int);
            assert(d == hex_value(body@[i as int]));
        }
        if d > max || acc > (max - d) / 16 {
            proof {
                lemma_hex_monotone(body@, i + 1);
                assert(acc * 16 + d > max) by (nonlinear_arith)
                    requires
                        d > max || acc > (max - d) / 16,
                        d <= 15,
                ;
            }
            return None;
        }
        assert(acc * 16 + d <= max) by (nonlinear_arith)
            requires
                d <= max,
                acc <= (max - d) / 16,
        ;
        acc = acc * 16 + d;
        i = i + 1;
    }
    assert(body@.subrange(0, bl as int) =~= body@);
    Some(acc)
}

/// The text of each string.
pub open spec fn texts(v: Seq<String>) -> Seq<Seq<char>> {
    v.map_values(|s: String| s@)
}

/// Append a line of output.
pub fn push_line(v: &mut Vec<String>, line: String)
    ensures
        texts(final(v)@) == texts(old(v)@).push(line@),
{
    v.push(line);
    assert(texts(v@) =~= texts(old(v)@).push(line@));
}

} // verus!
