//! Character-level scanning shared by the parsers.
use vstd::prelude::*;

verus! {

/// A parse failed; `position` is the character offset where it failed.
#[derive(Debug, PartialEq, Eq)]
pub struct ParseError {
    pub position: usize,
}

pub open spec fn is_space(c: char) -> bool {
    c == ' ' || c == '\t' || c == '\n' || c == '\r'
}

pub open spec fn is_digit(c: char) -> bool {
    '0' <= c && c <= '9'
}

pub open spec fn is_ident_start(c: char) -> bool {
    ('a' <= c && c <= 'z') || ('A' <= c && c <= 'Z') || c == '_'
}

pub open spec fn is_ident_char(c: char) -> bool {
    is_ident_start(c) || is_digit(c)
}

/// The number that a string of decimal digits denotes.
pub open spec fn decimal_value(s: Seq<char>) -> int
    decreases s.len(),
{
    if s.len() == 0 {
        0
    } else {
        10 * decimal_value(s.drop_last()) + (s.last() as int - '0' as int)
    }
}

/// What a successful parse of one item starting at `pos` promises.
pub open spec fn advanced(cs: Seq<char>, pos: usize, end: usize) -> bool {
    pos < end <= cs.len()
}

pub fn space_at(cs: &Vec<char>, pos: usize) -> (r: bool)
    requires
        pos < cs@.len(),
    ensures
        r == is_space(cs@[pos as int]),
{
    let c = cs[pos];
    c == ' ' || c == '\t' || c == '\n' || c == '\r'
}

pub fn digit_at(cs: &Vec<char>, pos: usize) -> (r: bool)
    ensures
        r == (pos < cs@.len() && is_digit(cs@[pos as int])),
{
    pos < cs.len() && '0' <= cs[pos] && cs[pos] <= '9'
}

pub fn ident_start_at(cs: &Vec<char>, pos: usize) -> (r: bool)
    ensures
        r == (pos < cs@.len() && is_ident_start(cs@[pos as int])),
{
    if pos >= cs.len() {
        return false;
    }
    let c = cs[pos];
    ('a' <= c && c <= 'z') || ('A' <= c && c <= 'Z') || c == '_'
}

pub fn ident_char_at(cs: &Vec<char>, pos: usize) -> (r: bool)
    ensures
        r == (pos < cs@.len() && is_ident_char(cs@[pos as int])),
{
    ident_start_at(cs, pos) || digit_at(cs, pos)
}

pub fn char_at(cs: &Vec<char>, pos: usize, c: char) -> (r: bool)
    ensures
        r == (pos < cs@.len() && cs@[pos as int] == c),
{
    pos < cs.len() && cs[pos] == c
}

/// The first position at or after `pos` that does not hold whitespace.
pub fn skip_space(cs: &Vec<char>, pos: usize) -> (r: usize)
    requires
        cs@.len() < usize::MAX,
        pos <= cs@.len(),
    ensures
        pos <= r <= cs@.len(),
        r == cs@.len() || !is_space(cs@[r as int]),
        forall|i: int| pos <= i < r ==> is_space(#[trigger] cs@[i]),
{
    let mut p = pos;
    while p < cs.len() && space_at(cs, p)
        invariant
            cs@.len() < usize::MAX,
            pos <= p <= cs@.len(),
            forall|i: int| pos <= i < p ==> is_space(#[trigger] cs@[i]),
        decreases cs@.len() - p,
    {
        p += 1;
    }
    p
}

/// The end of the run of identifier characters that starts at `pos`.
pub fn scan_ident(cs: &Vec<char>, pos: usize) -> (r: usize)
    requires
        cs@.len() < usize::MAX,
        pos <= cs@.len(),
    ensures
        pos <= r <= cs@.len(),
        forall|i: int| pos <= i < r ==> is_ident_char(#[trigger] cs@[i]),
        r == cs@.len() || !is_ident_char(cs@[r as int]),
{
    let mut p = pos;
    while ident_char_at(cs, p)
        invariant
            cs@.len() < usize::MAX,
            pos <= p <= cs@.len(),
            forall|i: int| pos <= i < p ==> is_ident_char(#[trigger] cs@[i]),
        decreases cs@.len() - p,
    {
        p += 1;
    }
    p
}

/// Whether the word `w` stands at `pos`, not followed by an identifier character.
pub fn word_at(cs: &Vec<char>, pos: usize, w: &str) -> (r: bool)
    requires
        cs@.len() < usize::MAX,
        pos <= cs@.len(),
    ensures
        r ==> pos + w@.len() <= cs@.len() && cs@.subrange(pos as int, pos + w@.len()) == w@,
        r ==> pos + w@.len() == cs@.len() || !is_ident_char(cs@[pos + w@.len()]),
{
    let n = w.unicode_len();
    if n > cs.len() - pos {
        return false;
    }
    let mut i: usize = 0;
    while i < n
        invariant
            n == w@.len(),
            cs@.len() < usize::MAX,
            pos + n <= cs@.len(),
            i <= n,
            forall|j: int| 0 <= j < i ==> cs@[pos + j] == w@[j],
        decreases n - i,
    {
        if cs[pos + i] != w.get_char(i) {
            return false;
        }
        i += 1;
    }
    assert(cs@.subrange(pos as int, pos + n) =~= w@);
    !ident_char_at(cs, pos + n)
}

/// Skips whitespace, then expects the character `c`; returns the position after it.
pub fn expect(cs: &Vec<char>, pos: usize, c: char) -> (r: Result<usize, ParseError>)
    requires
        cs@.len() < usize::MAX,
        pos <= cs@.len(),
    ensures
        r is Ok ==> pos < r->Ok_0 <= cs@.len() && cs@[r->Ok_0 - 1] == c,
{
    let p = skip_space(cs, pos);
    if char_at(cs, p, c) {
        Ok(p + 1)
    } else {
        Err(ParseError { position: p })
    }
}

/// The decimal literal that starts at `pos`, and the position after it.
pub fn parse_int(cs: &Vec<char>, pos: usize) -> (r: Result<(i64, usize), ParseError>)
    requires
        cs@.len() < usize::MAX,
        pos < cs@.len(),
        is_digit(cs@[pos as int]),
    ensures
        r is Ok ==> advanced(cs@, pos, r->Ok_0.1),
        r is Ok ==> r->Ok_0.0 == decimal_value(cs@.subrange(pos as int, r->Ok_0.1 as int)),
        r is Err ==> decimal_value(cs@.subrange(pos as int, r->Err_0.position as int)) > i64::MAX,
{
    let mut value: i64 = 0;
    let mut p = pos;
    while digit_at(cs, p)
        invariant
            cs@.len() < usize::MAX,
            pos <= p <= cs@.len(),
            forall|i: int| pos <= i < p ==> is_digit(#[trigger] cs@[i]),
            0 <= value,
            value == decimal_value(cs@.subrange(pos as int, p as int)),
        decreases cs@.len() - p,
    {
        let d = (cs[p] as u32 - '0' as u32) as i64;
        assert(cs@.subrange(pos as int, p + 1).drop_last() =~= cs@.subrange(pos as int, p as int));
        if value > (i64::MAX - d) / 10 {
            assert(10 * value + d > i64::MAX) by (nonlinear_arith)
                requires
                    value > (i64::MAX - d) / 10,
                    0 <= d <= 9,
            ;
            return Err(ParseError { position: p + 1 });
        }
        assert(10 * value + d <= i64::MAX) by (nonlinear_arith)
            requires
                value <= (i64::MAX - d) / 10,
                0 <= d <= 9,
                0 <= value,
        ;
        value = value * 10 + d;
        p += 1;
    }
    Ok((value, p))
}

/// The characters of `s`, in order.
pub fn chars_of(s: &str) -> (r: Vec<char>)
    ensures
        r@ == s@,
{
    let n = s.unicode_len();
    let mut cs: Vec<char> = Vec::new();
    let mut i: usize = 0;
    while i < n
        invariant
            n == s@.len(),
            i <= n,
            cs@ == s@.subrange(0, i as int),
        decreases n - i,
    {
        cs.push(s.get_char(i));
        i += 1;
        assert(cs@ =~= s@.subrange(0, i as int));
    }
    assert(cs@ =~= s@);
    cs
}

} // verus!
