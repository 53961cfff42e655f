//! Text facts and the few std string calls the library relies on.

use vstd::prelude::*;

verus! {

/// What `str::to_lowercase` returns for a string: full Unicode lowercase
/// mapping, which depends on the characters alone.
pub uninterp spec fn lower_of(s: Seq<char>) -> Seq<char>;

/// Whether every character of `s` is ASCII.
pub open spec fn all_ascii(s: Seq<char>) -> bool {
    forall|i: int| 0 <= i < s.len() ==> (#[trigger] s[i] as u32) < 128
}

/// `t` is `s` with each ASCII capital letter replaced by its small letter.
pub open spec fn ascii_lowered(s: Seq<char>, t: Seq<char>) -> bool {
    &&& t.len() == s.len()
    &&& forall|i: int|
        0 <= i < s.len() ==> (#[trigger] t[i] as u32) as int == if 'A' <= s[i] <= 'Z' {
            s[i] as u32 + 32
        } else {
            s[i] as u32 as int
        }
}

/// Whether `needle` occurs as a contiguous run of characters in `hay`.
/// The empty needle occurs in every string.
pub open spec fn occurs_in(needle: Seq<char>, hay: Seq<char>) -> bool {
    exists|i: int|
        0 <= i && i + needle.len() <= hay.len() && #[trigger] hay.subrange(i, i + needle.len())
            == needle
}

/// The ten decimal digits, in order of value.
pub open spec fn digit_chars() -> Seq<char> {
    seq!['0', '1', '2', '3', '4', '5', '6', '7', '8', '9']
}

/// Base-ten text of a natural number, without leading zeros.
pub open spec fn decimal(n: nat) -> Seq<char>
    decreases n,
{
    if n < 10 {
        seq![digit_chars()[n as int]]
    } else {
        decimal(n / 10).push(digit_chars()[(n % 10) as int])
    }
}

/// Base-ten text of an integer, with a leading '-' when negative.
pub open spec fn signed_decimal(n: int) -> Seq<char> {
    if n < 0 {
        seq!['-'] + decimal((-n) as nat)
    } else {
        decimal(n as nat)
    }
}

/// The strings of `parts` with `sep` between each two neighbours.
pub open spec fn joined(parts: Seq<Seq<char>>, sep: Seq<char>) -> Seq<char>
    decreases parts.len(),
{
    if parts.len() == 0 {
        Seq::empty()
    } else if parts.len() == 1 {
        parts[0]
    } else {
        joined(parts.drop_last(), sep) + sep + parts.last()
    }
}

/// The views of a sequence of strings.
pub open spec fn texts(v: Seq<String>) -> Seq<Seq<char>> {
    v.map_values(|s: String| s@)
}

/// Relies on `str::to_lowercase`: the result depends on the characters alone,
/// the empty string stays empty, and ASCII text has its capital letters
/// A to Z replaced by a to z and nothing else changed.
#[verifier::external_body]
pub(crate) fn lowercase(s: &str) -> (r: String)
    ensures
        r@ == lower_of(s@),
        s@.len() == 0 ==> r@.len() == 0,
        all_ascii(s@) ==> ascii_lowered(s@, r@),
{
    s.to_lowercase()
}

/// Relies on `str::contains` with a string pattern: true exactly when
/// `needle` occurs in `hay`.
#[verifier::external_body]
pub(crate) fn contains_text(hay: &str, needle: &str) -> (r: bool)
    ensures
        r == occurs_in(needle@, hay@),
{
    hay.contains(needle)
}

/// Relies on `ToString` through `Display` for `i64`: base ten, a leading '-'
/// for negative values, no leading zeros.
#[verifier::external_body]
pub(crate) fn decimal_text(n: i64) -> (r: String)
    ensures
        r@ == signed_decimal(n as int),
{
    n.to_string()
}

/// Relies on `String::push`: appends one character.
#[verifier::external_body]
pub(crate) fn push_char(s: &mut String, c: char)
    ensures
        final(s)@ == old(s)@.push(c),
{
    s.push(c)
}

/// Relies on `String::pop`: removes the last character, if there is one.
#[verifier::external_body]
pub(crate) fn pop_char(s: &mut String)
    ensures
        final(s)@ == if old(s)@.len() > 0 {
            old(s)@.drop_last()
        } else {
            old(s)@
        },
{
    s.pop();
}

/// Lemma: the empty string occurs in every string.
pub proof fn lemma_empty_occurs(hay: Seq<char>)
    ensures
        occurs_in(Seq::empty(), hay),
{
    let e = Seq::<char>::empty();
    assert(hay.subrange(0int, 0int + e.len()) =~= e);
}

/// The characters of a string, one by one.
pub fn chars_of(s: &str) -> (v: Vec<char>)
    ensures
        v@ == s@,
{
    broadcast use vstd::string::axiom_spec_iter;
    let mut v: Vec<char> = Vec::new();
    for c in it: s.chars()
        invariant
            it.seq() == s@,
            v@ == it.seq().take(it.index() as int),
    {
        v.push(c);
    }
    v
}

/// The strings of `parts` joined with `sep` between neighbours.
pub fn join_texts(parts: &Vec<String>, sep: &str) -> (r: String)
    ensures
        r@ == joined(texts(parts@), sep@),
{
    let mut out = String::new();
    let mut i: usize = 0;
    while i < parts.len()
        invariant
            i <= parts.len(),
            out@ == joined(texts(parts@.subrange(0, i as int)), sep@),
        decreases parts.len() - i,
    {
        proof {
            let pre = texts(parts@.subrange(0, i as int));
            let next = texts(parts@.subrange(0, i + 1));
            assert(next.drop_last() =~= pre);
            assert(next.last() == parts@[i as int]@);
        }
        if i > 0 {
            out.append(sep);
        }
        out.append(parts[i].as_str());
        i = i + 1;
    }
    assert(parts@.subrange(0, parts.len() as int) =~= parts@);
    out
}

} // verus!
