//! Byte-level text handling for the assembler: splitting source text into
//! lines, trimming surrounding whitespace, and splitting a line into
//! lowercased tokens.
//!
//! Assembly source is treated as a byte sequence. Line breaks, whitespace,
//! separators, digits and letters are all ASCII, so every byte of interest
//! stands for exactly the character it encodes.

use vstd::prelude::*;

verus! {

/// Line feed.
pub const B_NL: u8 = 10;

/// Horizontal tab.
pub const B_TAB: u8 = 9;

/// Carriage return, trimmed so that lines ending `\r\n` read like lines
/// ending `\n`.
pub const B_CR: u8 = 13;

/// Space.
pub const B_SPACE: u8 = 32;

/// Comma, a token separator.
pub const B_COMMA: u8 = 44;

/// Semicolon, which starts a full-line comment.
pub const B_SEMI: u8 = 59;

/// Colon, which ends a label line.
pub const B_COLON: u8 = 58;

/// Whitespace trimmed from both ends of a line.
pub open spec fn is_ws(b: u8) -> bool {
    b == B_SPACE || b == B_TAB || b == B_CR
}

/// Token separators inside a line: space, tab and comma.
pub open spec fn is_sep(b: u8) -> bool {
    b == B_SPACE || b == B_TAB || b == B_COMMA
}

/// ASCII decimal digit.
pub open spec fn is_digit(b: u8) -> bool {
    48 <= b && b <= 57
}

/// ASCII lowercasing of one byte; other bytes pass through.
pub open spec fn to_lower(b: u8) -> u8 {
    if 65 <= b && b <= 90 {
        (b + 32) as u8
    } else {
        b
    }
}

/// ASCII lowercasing of a byte sequence.
pub open spec fn lower(s: Seq<u8>) -> Seq<u8> {
    s.map_values(|b: u8| to_lower(b))
}

/// The lines of `s` from position `i` on, with `cur` the part of the current
/// line read so far. Splitting is on line feeds alone; a final line feed
/// yields a last empty line, which the assembler skips anyway.
pub open spec fn lines_acc(s: Seq<u8>, i: int, cur: Seq<u8>) -> Seq<Seq<u8>>
    decreases s.len() - i,
{
    if i < 0 || i >= s.len() {
        seq![cur]
    } else if s[i] == B_NL {
        seq![cur] + lines_acc(s, i + 1, Seq::empty())
    } else {
        lines_acc(s, i + 1, cur.push(s[i]))
    }
}

/// The lines of a source text: what splitting on line feeds yields.
pub open spec fn spec_lines(s: Seq<u8>) -> Seq<Seq<u8>> {
    lines_acc(s, 0, Seq::empty())
}

/// First position at or after `i` holding a byte that is not whitespace.
pub open spec fn first_non_ws(s: Seq<u8>, i: int) -> int
    decreases s.len() - i,
{
    if i < 0 || i >= s.len() {
        s.len() as int
    } else if is_ws(s[i]) {
        first_non_ws(s, i + 1)
    } else {
        i
    }
}

/// Position just past the last non-whitespace byte strictly before `j`.
pub open spec fn last_non_ws(s: Seq<u8>, j: int) -> int
    decreases j,
{
    if j <= 0 || j > s.len() {
        0
    } else if is_ws(s[j - 1]) {
        last_non_ws(s, j - 1)
    } else {
        j
    }
}

/// `s` without leading and trailing whitespace.
pub open spec fn spec_trim(s: Seq<u8>) -> Seq<u8> {
    let a = first_non_ws(s, 0);
    let b = last_non_ws(s, s.len() as int);
    if a >= b {
        Seq::empty()
    } else {
        s.subrange(a, b)
    }
}

/// The lowercased tokens of `s` from position `i` on, with `cur` the token
/// being read. Tokens are the maximal runs of non-separator bytes; empty
/// runs between consecutive separators yield no token.
pub open spec fn toks_acc(s: Seq<u8>, i: int, cur: Seq<u8>) -> Seq<Seq<u8>>
    decreases s.len() - i,
{
    if i < 0 || i >= s.len() {
        if cur.len() > 0 {
            seq![cur]
        } else {
            Seq::empty()
        }
    } else if is_sep(s[i]) {
        if cur.len() > 0 {
            seq![cur] + toks_acc(s, i + 1, Seq::empty())
        } else {
            toks_acc(s, i + 1, Seq::empty())
        }
    } else {
        toks_acc(s, i + 1, cur.push(to_lower(s[i])))
    }
}

/// The lowercased tokens of a line.
pub open spec fn spec_tokenize(s: Seq<u8>) -> Seq<Seq<u8>> {
    toks_acc(s, 0, Seq::empty())
}

/// The byte sequences a list of byte vectors holds, in order.
pub open spec fn views(ss: Seq<Vec<u8>>) -> Seq<Seq<u8>> {
    ss.map_values(|v: Vec<u8>| v@)
}

/// Whether every byte of `s` is an ASCII decimal digit.
pub open spec fn all_digits(s: Seq<u8>) -> bool {
    forall|i: int| 0 <= i < s.len() ==> is_digit(s[i])
}

/// Whether two byte slices hold the same bytes.
pub fn bytes_eq(x: &[u8], y: &[u8]) -> (r: bool)
    ensures
        r == (x@ == y@),
{
    let n = x.len();
    if n != y.len() {
        return false;
    }
    let mut i: usize = 0;
    while i < n
        invariant
            n == x@.len(),
            n == y@.len(),
            i <= n,
            forall|j: int| 0 <= j < i ==> x@[j] == y@[j],
        decreases n - i,
    {
        if x[i] != y[i] {
            return false;
        }
        i = i + 1;
    }
    proof {
        assert(x@ =~= y@);
    }
    true
}

/// ASCII lowercasing of a whole byte slice.
pub fn lower_bytes(s: &[u8]) -> (r: Vec<u8>)
    ensures
        r@ == lower(s@),
{
    let n = s.len();
    let mut r: Vec<u8> = Vec::new();
    let mut i: usize = 0;
    while i < n
        invariant
            n == s@.len(),
            i <= n,
            r@.len() == i,
            forall|j: int| 0 <= j < i ==> r@[j] == to_lower(s@[j]),
        decreases n - i,
    {
        r.push(to_lower_byte(s[i]));
        i = i + 1;
    }
    proof {
        assert(r@ =~= lower(s@));
    }
    r
}

/// ASCII lowercasing of one byte.
pub fn to_lower_byte(b: u8) -> (r: u8)
    ensures
        r == to_lower(b),
{
    if 65 <= b && b <= 90 {
        b + 32
    } else {
        b
    }
}

/// Splits source text into its lines, dropping the line feeds.
pub fn split_lines(src: &[u8]) -> (lines: Vec<Vec<u8>>)
    ensures
        views(lines@) == spec_lines(src@),
{
    let n = src.len();
    let mut lines: Vec<Vec<u8>> = Vec::new();
    let mut cur: Vec<u8> = Vec::new();
    let mut i: usize = 0;
    while i < n
        invariant
            n == src@.len(),
            i <= n,
            spec_lines(src@) == views(lines@) + lines_acc(src@, i as int, cur@),
        decreases n - i,
    {
        let b = src[i];
        if b == B_NL {
            let ghost prev = views(lines@);
            let done = cur;
            cur = Vec::new();
            lines.push(done);
            proof {
                assert(views(lines@) =~~= prev.push(done@));
                assert(prev.push(done@) + lines_acc(src@, i + 1, cur@) =~~= prev + lines_acc(
                    src@,
                    i as int,
                    done@,
                ));
            }
        } else {
            cur.push(b);
        }
        i = i + 1;
    }
    let ghost prev = views(lines@);
    let done = cur;
    lines.push(done);
    proof {
        assert(views(lines@) =~~= prev.push(done@));
        assert(prev.push(done@) =~~= prev + lines_acc(src@, i as int, done@));
    }
    lines
}

proof fn lemma_first_non_ws_bounds(s: Seq<u8>, i: int)
    requires
        0 <= i <= s.len(),
    ensures
        i <= first_non_ws(s, i) <= s.len(),
    decreases s.len() - i,
{
    if i < s.len() && is_ws(s[i]) {
        lemma_first_non_ws_bounds(s, i + 1);
    }
}

proof fn lemma_last_non_ws_bounds(s: Seq<u8>, j: int)
    requires
        0 <= j <= s.len(),
    ensures
        0 <= last_non_ws(s, j) <= j,
    decreases j,
{
    if j > 0 && is_ws(s[j - 1]) {
        lemma_last_non_ws_bounds(s, j - 1);
    }
}

/// `line` without leading and trailing whitespace.
pub fn trim(line: &[u8]) -> (t: Vec<u8>)
    ensures
        t@ == spec_trim(line@),
{
    let n = line.len();
    let mut a: usize = 0;
    while a < n && (line[a] == B_SPACE || line[a] == B_TAB || line[a] == B_CR)
        invariant
            n == line@.len(),
            a <= n,
            first_non_ws(line@, 0) == first_non_ws(line@, a as int),
        decreases n - a,
    {
        a = a + 1;
    }
    let mut b: usize = n;
    while b > a && (line[b - 1] == B_SPACE || line[b - 1] == B_TAB || line[b - 1] == B_CR)
        invariant
            n == line@.len(),
            a <= b <= n,
            last_non_ws(line@, n as int) == last_non_ws(line@, b as int),
        decreases b,
    {
        b = b - 1;
    }
    proof {
        lemma_first_non_ws_bounds(line@, 0);
        lemma_last_non_ws_bounds(line@, b as int);
        assert(first_non_ws(line@, a as int) == a);
        assert(last_non_ws(line@, n as int) == last_non_ws(line@, b as int));
    }
    if a >= b {
        Vec::new()
    } else {
        proof {
            assert(last_non_ws(line@, b as int) == b);
        }
        vstd::slice::slice_to_vec(&line[a..b])
    }
}

/// Splits a line into its lowercased tokens.
pub fn tokenize(line: &[u8]) -> (toks: Vec<Vec<u8>>)
    ensures
        views(toks@) == spec_tokenize(line@),
{
    let n = line.len();
    let mut toks: Vec<Vec<u8>> = Vec::new();
    let mut cur: Vec<u8> = Vec::new();
    let mut i: usize = 0;
    while i < n
        invariant
            n == line@.len(),
            i <= n,
            spec_tokenize(line@) == views(toks@) + toks_acc(line@, i as int, cur@),
        decreases n - i,
    {
        let b = line[i];
        if b == B_SPACE || b == B_TAB || b == B_COMMA {
            if cur.len() > 0 {
                let ghost prev = views(toks@);
                let done = cur;
                cur = Vec::new();
                toks.push(done);
                proof {
                    assert(views(toks@) =~~= prev.push(done@));
                    assert(prev.push(done@) + toks_acc(line@, i + 1, cur@) =~~= prev + toks_acc(
                        line@,
                        i as int,
                        done@,
                    ));
                }
            } else {
                proof {
                    assert(cur@ =~~= Seq::<u8>::empty());
                }
            }
        } else {
            cur.push(to_lower_byte(b));
        }
        i = i + 1;
    }
    if cur.len() > 0 {
        let ghost prev = views(toks@);
        let done = cur;
        toks.push(done);
        proof {
            assert(views(toks@) =~~= prev.push(done@));
            assert(prev.push(done@) =~~= prev + toks_acc(line@, i as int, done@));
        }
    } else {
        proof {
            assert(views(toks@) + toks_acc(line@, i as int, cur@) =~~= views(toks@));
        }
    }
    toks
}

} // verus!
