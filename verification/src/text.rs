//! Character-level text helpers shared by the whole agent: building strings,
//! searching, trimming, splitting into lines and words, and decimal numbers.
//! Every helper is stated over the `Seq<char>` view of its strings.
use vstd::prelude::*;

verus! {

// ---------------------------------------------------------------------------
// Building strings
// ---------------------------------------------------------------------------

/// Appends one character to a string: std's `String::push`, which the
/// documentation describes as appending the given char to the end.
#[verifier::external_body]
pub(crate) fn push_char(s: &mut String, c: char)
    ensures
        final(s)@ == old(s)@.push(c),
{
    s.push(c);
}

/// The characters of a string slice, in order.
pub fn chars_of(s: &str) -> (v: Vec<char>)
    ensures
        v@ == s@,
{
    let mut v: Vec<char> = Vec::new();
    for c in it: s.chars()
        invariant
            v@ == it.seq().take(it.index() as int),
    {
        v.push(c);
    }
    v
}

/// A new string holding `v[lo..hi]`.
pub fn string_from_range(v: &Vec<char>, lo: usize, hi: usize) -> (s: String)
    requires
        lo <= hi <= v@.len(),
    ensures
        s@ == v@.subrange(lo as int, hi as int),
{
    let mut s = String::new();
    let mut i = lo;
    while i < hi
        invariant
            lo <= i <= hi <= v@.len(),
            s@ == v@.subrange(lo as int, i as int),
        decreases hi - i,
    {
        push_char(&mut s, v[i]);
        assert(v@.subrange(lo as int, i + 1) == v@.subrange(lo as int, i as int).push(v@[i as int]));
        i = i + 1;
    }
    s
}

// ---------------------------------------------------------------------------
// Searching for a character
// ---------------------------------------------------------------------------

/// Position of the first `c` in `s`, or `s.len()` when there is none.
pub open spec fn index_of(s: Seq<char>, c: char) -> int
    decreases s.len(),
{
    if s.len() == 0 {
        0
    } else if s[0] == c {
        0
    } else {
        1 + index_of(s.drop_first(), c)
    }
}

/// `index_of` is the first position holding `c`, or the length.
pub proof fn lemma_index_of(s: Seq<char>, c: char, k: int)
    requires
        0 <= k <= s.len(),
        forall|j: int| 0 <= j < k ==> s[j] != c,
        k == s.len() || s[k] == c,
    ensures
        index_of(s, c) == k,
    decreases k,
{
    if k > 0 {
        let t = s.drop_first();
        assert forall|j: int| 0 <= j < k - 1 implies t[j] != c by {
            assert(t[j] == s[j + 1]);
        }
        if k < s.len() {
            assert(t[k - 1] == s[k]);
        }
        lemma_index_of(t, c, k - 1);
    }
}

/// The index of `index_of` lies within the sequence, and nothing before it is `c`.
pub proof fn lemma_index_of_bounds(s: Seq<char>, c: char)
    ensures
        0 <= index_of(s, c) <= s.len(),
        index_of(s, c) < s.len() ==> s[index_of(s, c)] == c,
        forall|j: int| 0 <= j < index_of(s, c) ==> s[j] != c,
    decreases s.len(),
{
    if s.len() > 0 && s[0] != c {
        let t = s.drop_first();
        lemma_index_of_bounds(t, c);
        assert forall|j: int| 0 <= j < index_of(s, c) implies s[j] != c by {
            if j > 0 {
                assert(s[j] == t[j - 1]);
            }
        }
    }
}

/// The first position `k` in `lo..hi` with `v[k] == c`, or `hi`.
pub fn find_char(v: &Vec<char>, lo: usize, hi: usize, c: char) -> (k: usize)
    requires
        lo <= hi <= v@.len(),
    ensures
        lo <= k <= hi,
        k - lo == index_of(v@.subrange(lo as int, hi as int), c),
{
    let mut k = lo;
    while k < hi && v[k] != c
        invariant
            lo <= k <= hi <= v@.len(),
            forall|j: int| lo <= j < k ==> v@[j] != c,
        decreases hi - k,
    {
        k = k + 1;
    }
    proof {
        let s = v@.subrange(lo as int, hi as int);
        assert forall|j: int| 0 <= j < k - lo implies s[j] != c by {
            assert(s[j] == v@[lo + j]);
        }
        if k < hi {
            assert(s[k - lo] == v@[k as int]);
        }
        lemma_index_of(s, c, k - lo);
    }
    k
}

// ---------------------------------------------------------------------------
// Whitespace and trimming
// ---------------------------------------------------------------------------

/// The Unicode `White_Space` property, the one std's `char::is_whitespace`
/// tests: U+0009..U+000D, U+0020, U+0085, U+00A0, U+1680, U+2000..U+200A,
/// U+2028, U+2029, U+202F, U+205F and U+3000.
pub open spec fn is_white(c: char) -> bool {
    let u = c as u32;
    ||| 0x9 <= u <= 0xD
    ||| u == 0x20
    ||| u == 0x85
    ||| u == 0xA0
    ||| u == 0x1680
    ||| 0x2000 <= u <= 0x200A
    ||| u == 0x2028
    ||| u == 0x2029
    ||| u == 0x202F
    ||| u == 0x205F
    ||| u == 0x3000
}

/// Whether `c` is Unicode whitespace.
pub fn is_whitespace(c: char) -> (b: bool)
    ensures
        b == is_white(c),
{
    let u = c as u32;
    (0x9 <= u && u <= 0xD) || u == 0x20 || u == 0x85 || u == 0xA0 || u == 0x1680 || (0x2000 <= u
        && u <= 0x200A) || u == 0x2028 || u == 0x2029 || u == 0x202F || u == 0x205F || u == 0x3000
}

/// `s` without its leading whitespace.
pub open spec fn trim_start(s: Seq<char>) -> Seq<char>
    decreases s.len(),
{
    if s.len() > 0 && is_white(s[0]) {
        trim_start(s.drop_first())
    } else {
        s
    }
}

/// `s` without its trailing whitespace.
pub open spec fn trim_end(s: Seq<char>) -> Seq<char>
    decreases s.len(),
{
    if s.len() > 0 && is_white(s.last()) {
        trim_end(s.drop_last())
    } else {
        s
    }
}

/// `s` without leading and trailing whitespace, as `str::trim` gives it.
pub open spec fn trim(s: Seq<char>) -> Seq<char> {
    trim_end(trim_start(s))
}

proof fn lemma_trim_start_skip(s: Seq<char>, i: int)
    requires
        0 <= i <= s.len(),
        forall|j: int| 0 <= j < i ==> is_white(s[j]),
    ensures
        trim_start(s) == trim_start(s.subrange(i, s.len() as int)),
    decreases i,
{
    if i > 0 {
        let t = s.drop_first();
        assert forall|j: int| 0 <= j < i - 1 implies is_white(t[j]) by {
            assert(t[j] == s[j + 1]);
        }
        lemma_trim_start_skip(t, i - 1);
        assert(t.subrange(i - 1, t.len() as int) == s.subrange(i, s.len() as int));
    } else {
        assert(s.subrange(0, s.len() as int) == s);
    }
}

proof fn lemma_trim_end_cut(s: Seq<char>, i: int)
    requires
        0 <= i <= s.len(),
        forall|j: int| i <= j < s.len() ==> is_white(s[j]),
    ensures
        trim_end(s) == trim_end(s.subrange(0, i)),
    decreases s.len() - i,
{
    if i < s.len() {
        let t = s.drop_last();
        lemma_trim_end_cut(t, i);
        assert(t.subrange(0, i) == s.subrange(0, i));
    } else {
        assert(s.subrange(0, s.len() as int) == s);
    }
}

/// The bounds `a..b` of `trim(v[lo..hi])` inside `v`.
pub fn trim_range(v: &Vec<char>, lo: usize, hi: usize) -> (r: (usize, usize))
    requires
        lo <= hi <= v@.len(),
    ensures
        lo <= r.0 <= r.1 <= hi,
        v@.subrange(r.0 as int, r.1 as int) == trim(v@.subrange(lo as int, hi as int)),
{
    let ghost s = v@.subrange(lo as int, hi as int);
    let mut a = lo;
    while a < hi && is_whitespace(v[a])
        invariant
            lo <= a <= hi <= v@.len(),
            s == v@.subrange(lo as int, hi as int),
            forall|j: int| lo <= j < a ==> is_white(v@[j]),
        decreases hi - a,
    {
        a = a + 1;
    }
    proof {
        assert forall|j: int| 0 <= j < a - lo implies is_white(s[j]) by {
            assert(s[j] == v@[lo + j]);
        }
        lemma_trim_start_skip(s, a - lo);
        assert(s.subrange(a - lo, s.len() as int) == v@.subrange(a as int, hi as int));
        if a < hi {
            assert(!is_white(v@.subrange(a as int, hi as int)[0]));
        }
    }
    let mut b = hi;
    while b > a && is_whitespace(v[b - 1])
        invariant
            lo <= a <= b <= hi <= v@.len(),
            forall|j: int| b <= j < hi ==> is_white(v@[j]),
        decreases b - a,
    {
        b = b - 1;
    }
    proof {
        let t = v@.subrange(a as int, hi as int);
        assert(trim_start(s) == t);
        assert forall|j: int| b - a <= j < t.len() implies is_white(t[j]) by {
            assert(t[j] == v@[a + j]);
        }
        lemma_trim_end_cut(t, b - a);
        assert(t.subrange(0, b - a) == v@.subrange(a as int, b as int));
        if b > a {
            assert(v@.subrange(a as int, b as int).last() == v@[b - 1]);
        }
    }
    (a, b)
}

/// A copy of `s` without leading and trailing whitespace (`str::trim`).
pub fn trimmed(s: &str) -> (r: String)
    ensures
        r@ == trim(s@),
{
    let v = chars_of(s);
    let (a, b) = trim_range(&v, 0, v.len());
    assert(v@.subrange(0, v@.len() as int) == v@);
    string_from_range(&v, a, b)
}

// ---------------------------------------------------------------------------
// Decimal numbers
// ---------------------------------------------------------------------------

/// The character of a decimal digit.
pub open spec fn digit_char(d: nat) -> char {
    if d == 0 { '0' }
    else if d == 1 { '1' }
    else if d == 2 { '2' }
    else if d == 3 { '3' }
    else if d == 4 { '4' }
    else if d == 5 { '5' }
    else if d == 6 { '6' }
    else if d == 7 { '7' }
    else if d == 8 { '8' }
    else { '9' }
}

/// The decimal representation of `n`, without sign or leading zeros.
pub open spec fn decimal(n: nat) -> Seq<char>
    decreases n,
{
    if n < 10 {
        seq![digit_char(n)]
    } else {
        decimal(n / 10).push(digit_char(n % 10))
    }
}

/// The character of the decimal digit `d`.
pub fn digit_of(d: u32) -> (c: char)
    requires
        d < 10,
    ensures
        c == digit_char(d as nat),
{
    digit(d as u64)
}

fn digit(d: u64) -> (c: char)
    requires
        d < 10,
    ensures
        c == digit_char(d as nat),
{
    if d == 0 { '0' }
    else if d == 1 { '1' }
    else if d == 2 { '2' }
    else if d == 3 { '3' }
    else if d == 4 { '4' }
    else if d == 5 { '5' }
    else if d == 6 { '6' }
    else if d == 7 { '7' }
    else if d == 8 { '8' }
    else { '9' }
}

/// Appends the decimal representation of `n` to `s`.
pub fn push_decimal(s: &mut String, n: u64)
    ensures
        final(s)@ == old(s)@ + decimal(n as nat),
    decreases n,
{
    if n >= 10 {
        push_decimal(s, n / 10);
    }
    push_char(s, digit(n % 10));
    proof {
        if n >= 10 {
            assert(old(s)@ + decimal(n as nat) == (old(s)@ + decimal((n / 10) as nat)).push(
                digit_char((n % 10) as nat),
            ));
        } else {
            assert(old(s)@ + decimal(n as nat) == old(s)@.push(digit_char(n as nat)));
        }
    }
}


// ---------------------------------------------------------------------------
// Lines
// ---------------------------------------------------------------------------

/// A line without the `'\r'` that ends it, if any.
pub open spec fn strip_cr(l: Seq<char>) -> Seq<char> {
    if l.len() > 0 && l.last() == '\r' {
        l.drop_last()
    } else {
        l
    }
}

/// The lines of `s`, as `str::lines` yields them: split at `'\n'`, a `'\r'`
/// right before a `'\n'` dropped, and no empty line after a final `'\n'`.
pub open spec fn lines(s: Seq<char>) -> Seq<Seq<char>>
    decreases s.len(),
{
    if s.len() == 0 {
        seq![]
    } else {
        let k = index_of(s, '\n');
        proof {
            lemma_index_of_bounds(s, '\n');
        }
        if k >= s.len() {
            seq![s]
        } else {
            seq![strip_cr(s.take(k))] + lines(s.skip(k + 1))
        }
    }
}

/// The bounds of each line of `v` (see `lines`).
pub fn line_ranges(v: &Vec<char>) -> (r: Vec<(usize, usize)>)
    ensures
        r@.len() == lines(v@).len(),
        forall|i: int|
            0 <= i < r@.len() ==> #[trigger] r@[i].0 <= r@[i].1 <= v@.len() && v@.subrange(
                r@[i].0 as int,
                r@[i].1 as int,
            ) == lines(v@)[i],
{
    let n = v.len();
    let mut r: Vec<(usize, usize)> = Vec::new();
    let mut pos: usize = 0;
    let ghost mut done: Seq<Seq<char>> = seq![];
    assert(v@.subrange(0, n as int) == v@);
    while pos < n
        invariant
            n == v@.len(),
            pos <= n,
            r@.len() == done.len(),
            done + lines(v@.subrange(pos as int, n as int)) == lines(v@),
            forall|i: int|
                0 <= i < r@.len() ==> #[trigger] r@[i].0 <= r@[i].1 <= v@.len() && v@.subrange(
                    r@[i].0 as int,
                    r@[i].1 as int,
                ) == done[i],
        decreases n - pos,
    {
        let ghost s = v@.subrange(pos as int, n as int);
        let k = find_char(v, pos, n, '\n');
        if k == n {
            r.push((pos, n));
            proof {
                assert(lines(s) == seq![s]);
                done = done.push(s);
                assert(v@.subrange(n as int, n as int).len() == 0);
                assert(done + lines(v@.subrange(n as int, n as int)) == done);
            }
            pos = n;
        } else {
            let end = if k > pos && v[k - 1] == '\r' {
                k - 1
            } else {
                k
            };
            r.push((pos, end));
            proof {
                let line = s.take(k - pos);
                assert(line == v@.subrange(pos as int, k as int));
                if k > pos && v@[k - 1] == '\r' {
                    assert(line.last() == v@[k - 1]);
                    assert(strip_cr(line) == v@.subrange(pos as int, end as int));
                } else {
                    if line.len() > 0 {
                        assert(line.last() == v@[k - 1]);
                    }
                    assert(strip_cr(line) == v@.subrange(pos as int, end as int));
                }
                assert(s.skip(k - pos + 1) == v@.subrange(k + 1, n as int));
                assert(lines(s) == seq![strip_cr(line)] + lines(s.skip(k - pos + 1)));
                let old_done = done;
                done = done.push(strip_cr(line));
                assert(done + lines(v@.subrange(k + 1, n as int)) == old_done + lines(s));
            }
            pos = k + 1;
        }
    }
    r
}

// ---------------------------------------------------------------------------
// Words
// ---------------------------------------------------------------------------

/// Position of the first whitespace character of `s`, or `s.len()`.
pub open spec fn ws_index(s: Seq<char>) -> int
    decreases s.len(),
{
    if s.len() == 0 {
        0
    } else if is_white(s[0]) {
        0
    } else {
        1 + ws_index(s.drop_first())
    }
}

proof fn lemma_ws_index(s: Seq<char>, k: int)
    requires
        0 <= k <= s.len(),
        forall|j: int| 0 <= j < k ==> !is_white(s[j]),
        k == s.len() || is_white(s[k]),
    ensures
        ws_index(s) == k,
    decreases k,
{
    if k > 0 {
        let t = s.drop_first();
        assert forall|j: int| 0 <= j < k - 1 implies !is_white(t[j]) by {
            assert(t[j] == s[j + 1]);
        }
        if k < s.len() {
            assert(t[k - 1] == s[k]);
        }
        lemma_ws_index(t, k - 1);
    }
}

pub proof fn lemma_ws_index_bounds(s: Seq<char>)
    ensures
        0 <= ws_index(s) <= s.len(),
    decreases s.len(),
{
    if s.len() > 0 && !is_white(s[0]) {
        lemma_ws_index_bounds(s.drop_first());
    }
}

/// The whitespace-separated words of `s`, as `str::split_whitespace` yields them.
pub open spec fn words(s: Seq<char>) -> Seq<Seq<char>>
    decreases s.len(),
{
    if s.len() == 0 {
        seq![]
    } else if is_white(s[0]) {
        words(s.drop_first())
    } else {
        let k = ws_index(s);
        proof {
            lemma_ws_index_bounds(s.drop_first());
        }
        seq![s.take(k)] + words(s.skip(k))
    }
}

/// The bounds of each word of `v[lo..hi]` (see `words`).
#[verifier::spinoff_prover]
pub fn word_ranges(v: &Vec<char>, lo: usize, hi: usize) -> (r: Vec<(usize, usize)>)
    requires
        lo <= hi <= v@.len(),
    ensures
        r@.len() == words(v@.subrange(lo as int, hi as int)).len(),
        forall|i: int| 0 <= i < r@.len() ==> #[trigger] r@[i].0 <= r@[i].1 <= v@.len(),
        forall|i: int|
            0 <= i < r@.len() ==> v@.subrange(#[trigger] r@[i].0 as int, r@[i].1 as int) == words(
                v@.subrange(lo as int, hi as int),
            )[i],
{
    let mut r: Vec<(usize, usize)> = Vec::new();
    let mut pos = lo;
    let ghost mut done: Seq<Seq<char>> = seq![];
    while pos < hi
        invariant
            lo <= pos <= hi <= v@.len(),
            r@.len() == done.len(),
            done + words(v@.subrange(pos as int, hi as int)) == words(
                v@.subrange(lo as int, hi as int),
            ),
            forall|i: int|
                0 <= i < r@.len() ==> {
                    &&& #[trigger] r@[i].0 <= r@[i].1 <= v@.len()
                    &&& v@.subrange(r@[i].0 as int, r@[i].1 as int) == done[i]
                },
        decreases hi - pos,
    {
        let ghost s = v@.subrange(pos as int, hi as int);
        if is_whitespace(v[pos]) {
            proof {
                assert(s[0] == v@[pos as int]);
                assert(s.drop_first() == v@.subrange(pos + 1, hi as int));
            }
            pos = pos + 1;
        } else {
            let mut k = pos + 1;
            while k < hi && !is_whitespace(v[k])
                invariant
                    pos < k <= hi <= v@.len(),
                    forall|j: int| pos <= j < k ==> !is_white(v@[j]),
                decreases hi - k,
            {
                k = k + 1;
            }
            let ghost r_before = r@;
            r.push((pos, k));
            proof {
                assert(s[0] == v@[pos as int]);
                assert forall|j: int| 0 <= j < k - pos implies !is_white(s[j]) by {
                    assert(s[j] == v@[pos + j]);
                }
                if k < hi {
                    assert(s[k - pos] == v@[k as int]);
                }
                lemma_ws_index(s, k - pos);
                assert(s.take(k - pos) == v@.subrange(pos as int, k as int));
                assert(s.skip(k - pos) == v@.subrange(k as int, hi as int));
                let old_done = done;
                done = done.push(s.take(k - pos));
                assert(done + words(v@.subrange(k as int, hi as int)) == old_done + words(s));
                assert forall|i: int| 0 <= i < r@.len() implies {
                    &&& #[trigger] r@[i].0 <= r@[i].1 <= v@.len()
                    &&& v@.subrange(r@[i].0 as int, r@[i].1 as int) == done[i]
                } by {
                    if i < r_before.len() {
                        assert(r@[i] == r_before[i]);
                        assert(done[i] == old_done[i]);
                    } else {
                        assert(r@[i] == (pos, k));
                    }
                }
            }
            pos = k;
        }
    }
    proof {
        assert(words(v@.subrange(hi as int, hi as int)) == Seq::<Seq<char>>::empty());
        assert(done + words(v@.subrange(hi as int, hi as int)) == done);
        assert(done == words(v@.subrange(lo as int, hi as int)));
    }
    r
}

// ---------------------------------------------------------------------------
// Substrings
// ---------------------------------------------------------------------------

/// Whether `p` occurs in `s` at position `i`.
pub open spec fn occurs_at(s: Seq<char>, p: Seq<char>, i: int) -> bool {
    0 <= i && i + p.len() <= s.len() && s.subrange(i, i + p.len()) == p
}

/// Whether `p` occurs anywhere in `s` (`str::contains`).
pub open spec fn contains(s: Seq<char>, p: Seq<char>) -> bool {
    exists|i: int| occurs_at(s, p, i)
}

/// `p` does not occur in `s` when no position of `s` starts with the first
/// two characters of `p`.
pub proof fn lemma_absent(s: Seq<char>, p: Seq<char>)
    requires
        p.len() >= 2,
        forall|i: int| 0 <= i && i + p.len() <= s.len() ==> (#[trigger] s[i] != p[0] || s[i + 1] != p[1]),
    ensures
        !contains(s, p),
{
    assert forall|i: int| !occurs_at(s, p, i) by {
        if occurs_at(s, p, i) {
            assert(s.subrange(i, i + p.len())[0] == s[i]);
            assert(s.subrange(i, i + p.len())[1] == s[i + 1]);
        }
    }
}

/// Whether `s` begins with `p` (`str::starts_with`).
pub open spec fn starts_with(s: Seq<char>, p: Seq<char>) -> bool {
    occurs_at(s, p, 0)
}

/// Whether `p` occurs in `v` at position `i`.
pub fn matches_at(v: &Vec<char>, p: &Vec<char>, i: usize) -> (b: bool)
    ensures
        b == occurs_at(v@, p@, i as int),
{
    let vl = v.len();
    if i > vl || p.len() > vl - i {
        return false;
    }
    let mut j: usize = 0;
    while j < p.len()
        invariant
            vl == v@.len(),
            i <= v@.len(),
            i + p@.len() <= v@.len(),
            j <= p@.len(),
            forall|t: int| 0 <= t < j ==> v@[i + t] == p@[t],
        decreases p@.len() - j,
    {
        assert(i + j < v@.len());
        if v[i + j] != p[j] {
            proof {
                assert(v@.subrange(i as int, i + p@.len())[j as int] == v@[i + j]);
            }
            return false;
        }
        j = j + 1;
    }
    assert(v@.subrange(i as int, i + p@.len()) == p@);
    true
}

/// Whether `p` occurs in `s`.
pub fn contains_str(s: &str, p: &str) -> (b: bool)
    ensures
        b == contains(s@, p@),
{
    let v = chars_of(s);
    let w = chars_of(p);
    if w.len() > v.len() {
        return false;
    }
    if w.len() == 0 {
        assert(v@.subrange(0, 0) == w@);
        assert(occurs_at(v@, w@, 0));
        return true;
    }
    let mut i: usize = 0;
    let vl = v.len();
    while i <= vl - w.len()
        invariant
            vl == v@.len(),
            v@ == s@,
            w@ == p@,
            0 < w@.len() <= v@.len(),
            i <= v@.len() - w@.len() + 1,
            forall|t: int| 0 <= t < i ==> !occurs_at(v@, w@, t),
        decreases v@.len() + 1 - i,
    {
        if matches_at(&v, &w, i) {
            return true;
        }
        i = i + 1;
    }
    false
}

/// Whether `s` begins with `p`.
pub fn starts_with_str(s: &str, p: &str) -> (b: bool)
    ensures
        b == starts_with(s@, p@),
{
    let v = chars_of(s);
    let w = chars_of(p);
    matches_at(&v, &w, 0)
}

/// `s` with every non-overlapping occurrence of `from`, found left to right,
/// replaced by `to` (`str::replace` with a non-empty pattern).
pub open spec fn replace_all(s: Seq<char>, from: Seq<char>, to: Seq<char>) -> Seq<char>
    decreases s.len(),
{
    if s.len() == 0 {
        seq![]
    } else if from.len() > 0 && starts_with(s, from) {
        to + replace_all(s.skip(from.len() as int), from, to)
    } else {
        seq![s[0]] + replace_all(s.drop_first(), from, to)
    }
}

/// Whether `s` holds the text `t`.
pub fn same_text(s: &String, t: &str) -> (b: bool)
    ensures
        b == (s@ == t@),
{
    let owned = String::from_str(t);
    *s == owned
}

/// `s` with each occurrence of `from` replaced by `to`.
pub fn replace_str(s: &str, from: &str, to: &str) -> (r: String)
    requires
        from@.len() > 0,
    ensures
        r@ == replace_all(s@, from@, to@),
{
    let v = chars_of(s);
    let w = chars_of(from);
    let n = v.len();
    let mut out = String::new();
    let mut i: usize = 0;
    assert(v@.subrange(0, n as int) == v@);
    while i < n
        invariant
            n == v@.len(),
            v@ == s@,
            w@ == from@,
            w@.len() > 0,
            i <= n,
            out@ + replace_all(v@.subrange(i as int, n as int), from@, to@) == replace_all(
                s@,
                from@,
                to@,
            ),
        decreases n - i,
    {
        let ghost rest = v@.subrange(i as int, n as int);
        let ghost before = out@;
        if matches_at(&v, &w, i) {
            out.append(to);
            proof {
                assert(rest.subrange(0, w@.len() as int) == v@.subrange(i as int, i + w@.len()));
                assert(starts_with(rest, from@));
                assert(rest.skip(w@.len() as int) == v@.subrange(i + w@.len(), n as int));
                assert(before + replace_all(rest, from@, to@) == out@ + replace_all(
                    v@.subrange(i + w@.len(), n as int),
                    from@,
                    to@,
                ));
            }
            i = i + w.len();
        } else {
            push_char(&mut out, v[i]);
            proof {
                if starts_with(rest, from@) {
                    assert(v@.subrange(i as int, i + w@.len()) == rest.subrange(
                        0,
                        w@.len() as int,
                    ));
                }
                assert(rest[0] == v@[i as int]);
                assert(rest.drop_first() == v@.subrange(i + 1, n as int));
                assert(before + replace_all(rest, from@, to@) == out@ + replace_all(
                    v@.subrange(i + 1, n as int),
                    from@,
                    to@,
                ));
            }
            i = i + 1;
        }
    }
    assert(out@ + replace_all(v@.subrange(n as int, n as int), from@, to@) == out@);
    out
}

// ---------------------------------------------------------------------------
// Case
// ---------------------------------------------------------------------------

/// The code point of `c` after ASCII lowercasing.
pub open spec fn ascii_lower_code(c: char) -> u32 {
    if 'A' <= c <= 'Z' {
        (c as u32 + 32) as u32
    } else {
        c as u32
    }
}

/// Whether two strings match ignoring ASCII case (`str::eq_ignore_ascii_case`).
pub open spec fn eq_ignore_ascii_case(a: Seq<char>, b: Seq<char>) -> bool {
    a.len() == b.len() && forall|i: int|
        0 <= i < a.len() ==> #[trigger] ascii_lower_code(a[i]) == ascii_lower_code(b[i])
}

fn lower_code(c: char) -> (u: u32)
    ensures
        u == ascii_lower_code(c),
{
    if 'A' <= c && c <= 'Z' {
        c as u32 + 32
    } else {
        c as u32
    }
}

/// Whether `a[alo..ahi]` and `b` match ignoring ASCII case.
pub fn eq_ignore_ascii_case_range(a: &Vec<char>, alo: usize, ahi: usize, b: &Vec<char>) -> (r: bool)
    requires
        alo <= ahi <= a@.len(),
    ensures
        r == eq_ignore_ascii_case(a@.subrange(alo as int, ahi as int), b@),
{
    let ghost s = a@.subrange(alo as int, ahi as int);
    if ahi - alo != b.len() {
        return false;
    }
    let mut i: usize = 0;
    while i < b.len()
        invariant
            alo <= ahi <= a@.len(),
            ahi - alo == b@.len(),
            s == a@.subrange(alo as int, ahi as int),
            i <= b@.len(),
            forall|t: int| 0 <= t < i ==> #[trigger] ascii_lower_code(s[t]) == ascii_lower_code(b@[t]),
        decreases b@.len() - i,
    {
        assert(s[i as int] == a@[alo + i]);
        if lower_code(a[alo + i]) != lower_code(b[i]) {
            return false;
        }
        i = i + 1;
    }
    true
}

/// The lowercase form of a string, as std's `str::to_lowercase` computes it
/// by the Unicode `Lowercase` mapping.
pub uninterp spec fn lowercase(s: Seq<char>) -> Seq<char>;

/// Whether every character of `s` is ASCII.
pub open spec fn is_ascii(s: Seq<char>) -> bool {
    forall|i: int| 0 <= i < s.len() ==> (#[trigger] s[i] as u32) < 128
}

/// An ASCII capital letter made small; any other character unchanged.
pub open spec fn ascii_lower_char(c: char) -> char {
    if 'A' <= c <= 'Z' {
        ((c as u32) + 32) as char
    } else {
        c
    }
}

/// An ASCII small letter made capital; any other character unchanged.
pub open spec fn ascii_upper_char(c: char) -> char {
    if 'a' <= c <= 'z' {
        ((c as u32) - 32) as char
    } else {
        c
    }
}

/// `s` with its ASCII capital letters made small.
pub open spec fn ascii_lowered(s: Seq<char>) -> Seq<char> {
    s.map_values(|c: char| ascii_lower_char(c))
}

/// `s` with its ASCII small letters made capital.
pub open spec fn ascii_uppered(s: Seq<char>) -> Seq<char> {
    s.map_values(|c: char| ascii_upper_char(c))
}

/// std's `str::to_lowercase`: a new string holding the lowercase equivalent
/// of `s`, by the Unicode `Lowercase` mapping that std documents. Its result
/// is named `lowercase(s@)`. On ASCII text that mapping takes `A`-`Z` to
/// `a`-`z` and leaves every other character, which has no lowercase mapping,
/// as it is; nothing more is claimed of other text.
#[verifier::external_body]
pub(crate) fn to_lowercase(s: &str) -> (r: String)
    ensures
        r@ == lowercase(s@),
        is_ascii(s@) ==> r@ == ascii_lowered(s@),
{
    s.to_lowercase()
}

// ---------------------------------------------------------------------------
// Parsing a decimal number
// ---------------------------------------------------------------------------

/// Whether `c` is an ASCII decimal digit.
pub open spec fn is_digit(c: char) -> bool {
    '0' <= c <= '9'
}

/// The value of a string of decimal digits.
pub open spec fn digits_value(s: Seq<char>) -> nat
    decreases s.len(),
{
    if s.len() == 0 {
        0
    } else {
        digits_value(s.drop_last()) * 10 + ((s.last() as u32) - 48) as nat
    }
}

/// The unsigned digits that `usize::from_str` reads: an optional `'+'`
/// followed by the digits themselves.
pub open spec fn unsigned_digits(s: Seq<char>) -> Seq<char> {
    if s.len() > 0 && s[0] == '+' {
        s.drop_first()
    } else {
        s
    }
}

/// What `s.parse::<usize>().ok()` gives: `Some` exactly when `s` is an
/// optional `'+'` followed by at least one digit, and the value fits.
pub open spec fn parse_usize(s: Seq<char>) -> Option<usize> {
    let d = unsigned_digits(s);
    if d.len() == 0 || (exists|i: int| 0 <= i < d.len() && !is_digit(d[i])) || digits_value(d)
        > usize::MAX {
        None
    } else {
        Some(digits_value(d) as usize)
    }
}

proof fn lemma_digits_value_grows(s: Seq<char>, i: int)
    requires
        0 <= i <= s.len(),
        forall|j: int| 0 <= j < s.len() ==> is_digit(s[j]),
    ensures
        digits_value(s.take(i)) <= digits_value(s),
    decreases s.len() - i,
{
    if i < s.len() {
        let t = s.drop_last();
        assert(t.take(i) == s.take(i));
        assert forall|j: int| 0 <= j < t.len() implies is_digit(t[j]) by {
            assert(t[j] == s[j]);
        }
        lemma_digits_value_grows(t, i);
    } else {
        assert(s.take(i) == s);
    }
}

/// Parses `v[lo..hi]` as `str::parse::<usize>` does, giving `None` on error.
pub fn parse_usize_range(v: &Vec<char>, lo: usize, hi: usize) -> (r: Option<usize>)
    requires
        lo <= hi <= v@.len(),
    ensures
        r == parse_usize(v@.subrange(lo as int, hi as int)),
{
    let ghost s = v@.subrange(lo as int, hi as int);
    let mut start = lo;
    if lo < hi && v[lo] == '+' {
        start = lo + 1;
    }
    proof {
        if lo < hi {
            assert(s[0] == v@[lo as int]);
        }
        assert(unsigned_digits(s) == v@.subrange(start as int, hi as int));
    }
    let ghost d = v@.subrange(start as int, hi as int);
    if start == hi {
        return None;
    }
    let mut acc: usize = 0;
    let mut i = start;
    while i < hi
        invariant
            lo <= start < hi <= v@.len(),
            start <= i <= hi,
            s == v@.subrange(lo as int, hi as int),
            unsigned_digits(s) == d,
            d == v@.subrange(start as int, hi as int),
            forall|j: int| start <= j < i ==> is_digit(v@[j]),
            acc == digits_value(d.take(i - start)),
        decreases hi - i,
    {
        let c = v[i];
        if !('0' <= c && c <= '9') {
            proof {
                assert(d[i - start] == c);
                assert(!is_digit(d[i - start]));
            }
            return None;
        }
        let dv = (c as u32 - 48) as usize;
        proof {
            assert(d.take(i - start + 1).drop_last() == d.take(i - start));
            assert(d.take(i - start + 1).last() == c);
        }
        match acc.checked_mul(10) {
            Some(m) => match m.checked_add(dv) {
                Some(a) => {
                    acc = a;
                },
                None => {
                    proof {
                        if forall|j: int| 0 <= j < d.len() ==> is_digit(d[j]) {
                            lemma_digits_value_grows(d, i - start + 1);
                        }
                    }
                    return None;
                },
            },
            None => {
                proof {
                    if forall|j: int| 0 <= j < d.len() ==> is_digit(d[j]) {
                        lemma_digits_value_grows(d, i - start + 1);
                    }
                }
                return None;
            },
        }
        i = i + 1;
    }
    proof {
        assert(d.take(hi - start) == d);
        assert forall|j: int| 0 <= j < d.len() implies is_digit(d[j]) by {
            assert(d[j] == v@[start + j]);
        }
    }
    Some(acc)
}

} // verus!
