//! Splitting text into pieces and reading unsigned decimal numbers, over the
//! characters of a string.

use vstd::prelude::*;

verus! {

/// The kinds of separator text is split at.
#[derive(Clone, Copy, Debug, PartialEq, Eq, Structural)]
pub enum Sep {
    /// A line feed.
    Newline,
    /// A Unicode white-space character.
    Space,
    /// A colon.
    Colon,
}

/// Unicode white space, as `char::is_whitespace` has it.
pub open spec fn is_space(c: char) -> bool {
    ||| c == ' '
    ||| '\t' <= c <= '\r'
    ||| c == '\u{85}'
    ||| c == '\u{A0}'
    ||| c == '\u{1680}'
    ||| '\u{2000}' <= c <= '\u{200A}'
    ||| c == '\u{2028}'
    ||| c == '\u{2029}'
    ||| c == '\u{202F}'
    ||| c == '\u{205F}'
    ||| c == '\u{3000}'
}

pub open spec fn is_sep(k: Sep, c: char) -> bool {
    match k {
        Sep::Newline => c == '\n',
        Sep::Space => is_space(c),
        Sep::Colon => c == ':',
    }
}

/// The pieces of `s` between separators of kind `k`, empty ones included:
/// `n` separators give `n + 1` pieces.
pub open spec fn pieces(s: Seq<char>, k: Sep) -> Seq<Seq<char>>
    decreases s.len(),
{
    if s.len() == 0 {
        seq![Seq::empty()]
    } else {
        let p = pieces(s.drop_last(), k);
        if is_sep(k, s.last()) {
            p.push(Seq::empty())
        } else {
            p.update(p.len() - 1, p.last().push(s.last()))
        }
    }
}

/// The non-empty runs of non-space characters of `s`, in order.
pub open spec fn words(s: Seq<char>) -> Seq<Seq<char>> {
    pieces(s, Sep::Space).filter(|w: Seq<char>| w.len() > 0)
}

/// The texts that index ranges pick out of `s`.
pub open spec fn texts_at(s: Seq<char>, r: Seq<(usize, usize)>) -> Seq<Seq<char>> {
    r.map_values(|p: (usize, usize)| s.subrange(p.0 as int, p.1 as int))
}

pub open spec fn is_digit(c: char) -> bool {
    '0' <= c <= '9'
}

pub open spec fn digit_value(c: char) -> nat {
    (c as u32 - '0' as u32) as nat
}

/// The value of a run of decimal digits.
pub open spec fn digits_value(s: Seq<char>) -> nat
    decreases s.len(),
{
    if s.len() == 0 {
        0
    } else {
        digits_value(s.drop_last()) * 10 + digit_value(s.last())
    }
}

pub open spec fn all_digits(s: Seq<char>) -> bool {
    forall|i: int| 0 <= i < s.len() ==> is_digit(#[trigger] s[i])
}

/// `s` without one leading '+'.
pub open spec fn unsigned_digits(s: Seq<char>) -> Seq<char> {
    if s.len() > 0 && s[0] == '+' {
        s.drop_first()
    } else {
        s
    }
}

/// The value of `s` read as an unsigned number no larger than `max`, as
/// `str::parse` reads one: an optional '+', then one or more decimal digits.
pub open spec fn parsed_unsigned(s: Seq<char>, max: nat) -> Option<nat> {
    let d = unsigned_digits(s);
    if d.len() > 0 && all_digits(d) && digits_value(d) <= max {
        Some(digits_value(d))
    } else {
        None
    }
}

/// A run of digits is worth at least as much as any of its prefixes.
proof fn lemma_prefix_value(s: Seq<char>, m: int)
    requires
        0 <= m <= s.len(),
        all_digits(s),
    ensures
        digits_value(s.subrange(0, m)) <= digits_value(s),
    decreases s.len(),
{
    if m < s.len() {
        assert(all_digits(s.drop_last()));
        lemma_prefix_value(s.drop_last(), m);
        assert(s.drop_last().subrange(0, m) =~= s.subrange(0, m));
    } else {
        assert(s.subrange(0, m) =~= s);
    }
}

/// Whether `c` is a separator of kind `k`.
pub fn sep_at(k: Sep, c: char) -> (r: bool)
    ensures
        r == is_sep(k, c),
{
    match k {
        Sep::Newline => c == '\n',
        Sep::Colon => c == ':',
        Sep::Space => {
            c == ' ' || ('\t' <= c && c <= '\r') || c == '\u{85}' || c == '\u{A0}' || c
                == '\u{1680}' || ('\u{2000}' <= c && c <= '\u{200A}') || c == '\u{2028}' || c
                == '\u{2029}' || c == '\u{202F}' || c == '\u{205F}' || c == '\u{3000}'
        },
    }
}

/// The index ranges of the pieces of `chars[lo..hi]` between separators of kind `k`.
pub fn split_ranges(chars: &Vec<char>, lo: usize, hi: usize, k: Sep) -> (r: Vec<(usize, usize)>)
    requires
        lo <= hi <= chars.len(),
    ensures
        r.len() >= 1,
        texts_at(chars@, r@) == pieces(chars@.subrange(lo as int, hi as int), k),
        forall|i: int| 0 <= i < r.len() ==> lo <= #[trigger] r@[i].0 <= r@[i].1 <= hi,
{
    let mut r: Vec<(usize, usize)> = Vec::new();
    r.push((lo, lo));
    let mut j: usize = lo;
    proof {
        assert(chars@.subrange(lo as int, lo as int) =~= Seq::<char>::empty());
        assert(texts_at(chars@, r@) =~= seq![Seq::<char>::empty()]);
    }
    while j < hi
        invariant
            lo <= j <= hi <= chars.len(),
            r.len() >= 1,
            r@.last().1 == j,
            texts_at(chars@, r@) == pieces(chars@.subrange(lo as int, j as int), k),
            forall|i: int| 0 <= i < r.len() ==> lo <= #[trigger] r@[i].0 <= r@[i].1 <= j,
        decreases hi - j,
    {
        let c = chars[j];
        let ghost prev = r@;
        let ghost sub = chars@.subrange(lo as int, j + 1);
        proof {
            assert(sub.drop_last() =~= chars@.subrange(lo as int, j as int));
            assert(sub.last() == c);
        }
        if sep_at(k, c) {
            r.push((j + 1, j + 1));
            proof {
                assert forall|i: int| 0 <= i < r.len() implies lo <= #[trigger] r@[i].0 <= r@[i].1
                    <= j + 1 by {
                    if i < prev.len() {
                        assert(r@[i] == prev[i]);
                    }
                }
                assert(chars@.subrange(j + 1, j + 1) =~= Seq::<char>::empty());
                assert(texts_at(chars@, r@) =~= texts_at(chars@, prev).push(Seq::empty()));
            }
        } else {
            let last = r.len() - 1;
            let start = r[last].0;
            r.set(last, (start, j + 1));
            proof {
                assert forall|i: int| 0 <= i < r.len() implies lo <= #[trigger] r@[i].0 <= r@[i].1
                    <= j + 1 by {
                    if i < last {
                        assert(r@[i] == prev[i]);
                    }
                }
                assert(chars@.subrange(start as int, j + 1) =~= chars@.subrange(
                    start as int,
                    j as int,
                ).push(c));
                assert(texts_at(chars@, r@) =~= texts_at(chars@, prev).update(
                    last as int,
                    texts_at(chars@, prev).last().push(c),
                ));
            }
        }
        j = j + 1;
    }
    r
}

/// The index ranges of the words of `chars[lo..hi]`.
pub fn word_ranges(chars: &Vec<char>, lo: usize, hi: usize) -> (r: Vec<(usize, usize)>)
    requires
        lo <= hi <= chars.len(),
    ensures
        texts_at(chars@, r@) == words(chars@.subrange(lo as int, hi as int)),
        forall|i: int| 0 <= i < r.len() ==> lo <= #[trigger] r@[i].0 <= r@[i].1 <= hi,
{
    let all = split_ranges(chars, lo, hi, Sep::Space);
    let ghost ps = pieces(chars@.subrange(lo as int, hi as int), Sep::Space);
    let mut r: Vec<(usize, usize)> = Vec::new();
    let mut i: usize = 0;
    while i < all.len()
        invariant
            i <= all.len(),
            texts_at(chars@, all@) == ps,
            forall|m: int| 0 <= m < all.len() ==> lo <= #[trigger] all@[m].0 <= all@[m].1 <= hi,
            hi <= chars.len(),
            texts_at(chars@, r@) == ps.subrange(0, i as int).filter(|w: Seq<char>| w.len() > 0),
            forall|m: int| 0 <= m < r.len() ==> lo <= #[trigger] r@[m].0 <= r@[m].1 <= hi,
        decreases all.len() - i,
    {
        let (a, b) = all[i];
        let ghost prev = r@;
        proof {
            reveal(Seq::filter);
            assert(ps.subrange(0, i + 1).drop_last() =~= ps.subrange(0, i as int));
            assert(ps.subrange(0, i + 1).last() == chars@.subrange(a as int, b as int));
        }
        if a < b {
            r.push((a, b));
            proof {
                assert(texts_at(chars@, r@) =~= texts_at(chars@, prev).push(
                    chars@.subrange(a as int, b as int),
                ));
            }
        }
        i = i + 1;
    }
    proof {
        assert(ps.subrange(0, all.len() as int) =~= ps);
    }
    r
}

/// `chars[lo..hi]` read as an unsigned number no larger than `max`.
pub fn parse_unsigned(chars: &Vec<char>, lo: usize, hi: usize, max: u64) -> (r: Option<u64>)
    requires
        lo <= hi <= chars.len(),
    ensures
        r == match parsed_unsigned(chars@.subrange(lo as int, hi as int), max as nat) {
            Some(v) => Some(v as u64),
            None => None::<u64>,
        },
{
    let ghost s = chars@.subrange(lo as int, hi as int);
    let mut k = lo;
    if k < hi && chars[k] == '+' {
        k = k + 1;
    }
    let start = k;
    let ghost d = chars@.subrange(start as int, hi as int);
    proof {
        assert(unsigned_digits(s) =~= d);
    }
    if k == hi {
        return None;
    }
    let mut acc: u64 = 0;
    while k < hi
        invariant
            lo <= start <= k <= hi <= chars.len(),
            d == chars@.subrange(start as int, hi as int),
            s == chars@.subrange(lo as int, hi as int),
            unsigned_digits(s) == d,
            d.len() > 0,
            acc as nat == digits_value(d.subrange(0, k - start)),
            acc <= max,
            all_digits(d.subrange(0, k - start)),
        decreases hi - k,
    {
        let c = chars[k];
        proof {
            assert(d.subrange(0, k + 1 - start).drop_last() =~= d.subrange(0, k - start));
            assert(d.subrange(0, k + 1 - start).last() == c);
        }
        assert(d[k - start] == c);
        if !('0' <= c && c <= '9') {
            assert(!is_digit(d[k - start]));
            assert(!all_digits(d));
            assert(parsed_unsigned(s, max as nat) is None);
            return None;
        }
        let v = (c as u32 - '0' as u32) as u64;
        assert(digit_value(c) == v as nat);
        assert(digits_value(d.subrange(0, k + 1 - start)) == acc * 10 + v);
        if v > max || acc > (max - v) / 10 {
            proof {
                assert(acc * 10 + v > max) by (nonlinear_arith)
                    requires
                        v > max || acc > (max - v) / 10,
                        acc >= 0,
                ;
                if all_digits(d) {
                    lemma_prefix_value(d, k + 1 - start);
                }
                assert(parsed_unsigned(s, max as nat) is None);
            }
            return None;
        }
        proof {
            assert(acc * 10 + v <= max) by (nonlinear_arith)
                requires
                    acc <= (max - v) / 10,
                    v <= max,
            ;
        }
        acc = acc * 10 + v;
        k = k + 1;
    }
    proof {
        assert(d.subrange(0, hi - start) =~= d);
    }
    Some(acc)
}

} // verus!
