//! When a request has been read in full: the head ends at the first blank
//! line, and the body is as long as the `Content-Length` header says. The
//! caller reads from the socket until this says the request is complete.
use vstd::prelude::*;
use crate::text::{
    chars_of, find_char, index_of, lines, line_ranges, lowercase, parse_usize, parse_usize_range,
    starts_with, starts_with_str, string_from_range, to_lowercase, trim, trim_range,
};

verus! {

/// The largest request the gateway reads, in bytes.
pub const MAX_REQUEST_BYTES: usize = 10485760;

/// Where reading a request stands.
#[derive(Debug, Clone, Copy, PartialEq, Eq, Structural)]
pub enum ReadProgress {
    NeedMore,
    Complete,
    TooLarge,
}

/// The first position at or after `i` where the bytes `\r\n\r\n` start, or -1.
pub open spec fn blank_line_from(b: Seq<u8>, i: int) -> int
    decreases b.len() + 1 - i,
{
    if i < 0 || i + 4 > b.len() {
        -1
    } else if b[i] == 13 && b[i + 1] == 10 && b[i + 2] == 13 && b[i + 3] == 10 {
        i
    } else {
        blank_line_from(b, i + 1)
    }
}

/// The text of bytes with invalid UTF-8 replaced, as
/// `String::from_utf8_lossy` makes it.
pub uninterp spec fn utf8_lossy(bytes: Seq<u8>) -> Seq<char>;

/// std's `String::from_utf8_lossy`, made an owned string: the bytes as text
/// with each invalid sequence replaced by U+FFFD. Its result is named
/// `utf8_lossy(bytes@)`.
#[verifier::external_body]
fn lossy_text(bytes: &[u8]) -> (s: String)
    ensures
        s@ == utf8_lossy(bytes@),
{
    String::from_utf8_lossy(bytes).into_owned()
}

/// The length a `Content-Length` line gives: the text between its first and
/// second `:` (or the end), trimmed and read as a number; 0 when unreadable.
pub open spec fn length_line_value(l: Seq<char>) -> nat {
    let k1 = index_of(l, ':');
    if k1 >= l.len() {
        0
    } else {
        let rest = l.skip(k1 + 1);
        match parse_usize(trim(rest.take(index_of(rest, ':')))) {
            Some(n) => n as nat,
            None => 0,
        }
    }
}

/// The body length declared by the first line that starts, in lowercase,
/// with `content-length:`; 0 when no line does.
pub open spec fn declared_length(ls: Seq<Seq<char>>) -> nat
    decreases ls.len(),
{
    if ls.len() == 0 {
        0
    } else if starts_with(lowercase(ls[0]), "content-length:"@) {
        length_line_value(ls[0])
    } else {
        declared_length(ls.drop_first())
    }
}

/// Where reading stands with `b` read so far: too large past the cap;
/// complete once the head has ended and the declared body has arrived.
pub open spec fn read_progress(b: Seq<u8>) -> ReadProgress {
    let pos = blank_line_from(b, 0);
    if b.len() > MAX_REQUEST_BYTES {
        ReadProgress::TooLarge
    } else if pos < 0 {
        ReadProgress::NeedMore
    } else if b.len() >= pos + 4 + declared_length(lines(utf8_lossy(b.take(pos)))) {
        ReadProgress::Complete
    } else {
        ReadProgress::NeedMore
    }
}

fn line_length_value(v: &Vec<char>, a: usize, b: usize) -> (n: usize)
    requires
        a <= b <= v@.len(),
    ensures
        n as nat == length_line_value(v@.subrange(a as int, b as int)),
{
    let ghost l = v@.subrange(a as int, b as int);
    let k1 = find_char(v, a, b, ':');
    if k1 == b {
        return 0;
    }
    let k2 = find_char(v, k1 + 1, b, ':');
    let (ta, tb) = trim_range(v, k1 + 1, k2);
    proof {
        let rest = l.skip(k1 - a + 1);
        assert(rest == v@.subrange(k1 + 1, b as int));
        assert(rest.take(k2 - k1 - 1) == v@.subrange(k1 + 1, k2 as int));
    }
    match parse_usize_range(v, ta, tb) {
        Some(n) => n,
        None => 0,
    }
}

fn declared_length_of(text: &str) -> (n: usize)
    ensures
        n as nat == declared_length(lines(text@)),
{
    let v = chars_of(text);
    let ranges = line_ranges(&v);
    let ghost ls = lines(v@);
    let mut i: usize = 0;
    assert(ls.skip(0) == ls);
    while i < ranges.len()
        invariant
            v@ == text@,
            ls == lines(v@),
            ranges@.len() == ls.len(),
            forall|j: int|
                0 <= j < ranges@.len() ==> #[trigger] ranges@[j].0 <= ranges@[j].1 <= v@.len()
                    && v@.subrange(ranges@[j].0 as int, ranges@[j].1 as int) == ls[j],
            i <= ranges@.len(),
            declared_length(ls) == declared_length(ls.skip(i as int)),
        decreases ranges@.len() - i,
    {
        let (a, b) = ranges[i];
        let line = string_from_range(&v, a, b);
        let lower = to_lowercase(line.as_str());
        proof {
            assert(ls.skip(i as int)[0] == ls[i as int]);
            assert(ls.skip(i as int).drop_first() == ls.skip(i + 1));
        }
        if starts_with_str(lower.as_str(), "content-length:") {
            return line_length_value(&v, a, b);
        }
        i = i + 1;
    }
    proof {
        assert(ls.skip(i as int).len() == 0);
    }
    0
}

/// Where reading stands with `buffer` read so far.
pub fn assess_request(buffer: &Vec<u8>) -> (p: ReadProgress)
    ensures
        p == read_progress(buffer@),
{
    let n = buffer.len();
    if n > MAX_REQUEST_BYTES {
        return ReadProgress::TooLarge;
    }
    let mut i: usize = 0;
    while n >= 4 && i <= n - 4 && !(buffer[i] == 13 && buffer[i + 1] == 10 && buffer[i + 2] == 13
        && buffer[i + 3] == 10)
        invariant
            n == buffer@.len(),
            i <= n,
            blank_line_from(buffer@, 0) == blank_line_from(buffer@, i as int),
        decreases n - i,
    {
        i = i + 1;
    }
    if !(n >= 4 && i <= n - 4) {
        assert(blank_line_from(buffer@, i as int) == -1);
        return ReadProgress::NeedMore;
    }
    assert(blank_line_from(buffer@, i as int) == i);
    let mut head: Vec<u8> = Vec::new();
    let mut j: usize = 0;
    while j < i
        invariant
            i <= n == buffer@.len(),
            j <= i,
            head@ == buffer@.take(j as int),
        decreases i - j,
    {
        head.push(buffer[j]);
        assert(buffer@.take(j + 1) == buffer@.take(j as int).push(buffer@[j as int]));
        j = j + 1;
    }
    let text = lossy_text(head.as_slice());
    let declared = declared_length_of(text.as_str());
    if (n as u128) >= (i as u128) + 4 + (declared as u128) {
        ReadProgress::Complete
    } else {
        ReadProgress::NeedMore
    }
}

} // verus!
