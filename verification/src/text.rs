//! Text handling for query parameters: whitespace trimming, splitting on
//! commas and parsing decimal integers, as `str::trim`, `str::split` and
//! `i64::from_str` define them.

use vstd::prelude::*;

verus! {

/// Whether `c` has the Unicode `White_Space` property (`char::is_whitespace`).
pub open spec fn spec_is_whitespace(c: char) -> bool {
    let u: u32 = c as u32;
    ||| 0x9 <= u <= 0xD
    ||| u == 0x20
    ||| u == 0x85
    ||| u == 0xA0
    ||| u == 0x1680
    ||| 0x2000 <= u <= 0x200A
    ||| u == 0x2028
    ||| u == 0x2029
    ||| u == 0x202F
    ||| u == 0x205F
    ||| u == 0x3000
}

/// Whether `c` has the Unicode `White_Space` property.
pub fn is_whitespace(c: char) -> (res: bool)
    ensures
        res == spec_is_whitespace(c),
{
    let u: u32 = c as u32;
    (0x9 <= u && u <= 0xD) || u == 0x20 || u == 0x85 || u == 0xA0 || u == 0x1680 || (0x2000 <= u
        && u <= 0x200A) || u == 0x2028 || u == 0x2029 || u == 0x202F || u == 0x205F || u == 0x3000
}

/// `s` without its leading whitespace.
pub open spec fn spec_trim_start(s: Seq<char>) -> Seq<char>
    decreases s.len(),
{
    if s.len() > 0 && spec_is_whitespace(s[0]) {
        spec_trim_start(s.drop_first())
    } else {
        s
    }
}

/// `s` without its trailing whitespace.
pub open spec fn spec_trim_end(s: Seq<char>) -> Seq<char>
    decreases s.len(),
{
    if s.len() > 0 && spec_is_whitespace(s.last()) {
        spec_trim_end(s.drop_last())
    } else {
        s
    }
}

/// `s` without leading and trailing whitespace.
pub open spec fn spec_trim(s: Seq<char>) -> Seq<char> {
    spec_trim_end(spec_trim_start(s))
}

/// `s` without leading and trailing whitespace.
pub fn trim(s: &str) -> (res: &str)
    ensures
        res@ == spec_trim(s@),
{
    let n: usize = s.unicode_len();
    let mut i: usize = 0;
    proof {
        assert(s@.subrange(0, n as int) =~= s@);
    }
    while i < n && is_whitespace(s.get_char(i))
        invariant
            i <= n,
            n == s@.len(),
            spec_trim_start(s@) == spec_trim_start(s@.subrange(i as int, n as int)),
        decreases n - i,
    {
        proof {
            let t = s@.subrange(i as int, n as int);
            assert(t.drop_first() =~= s@.subrange(i + 1, n as int));
        }
        i = i + 1;
    }
    proof {
        let t = s@.subrange(i as int, n as int);
        if i < n {
            assert(t[0] == s@[i as int]);
        }
        assert(spec_trim_start(s@) == t);
    }
    let mut j: usize = n;
    while j > i && is_whitespace(s.get_char(j - 1))
        invariant
            i <= j <= n,
            n == s@.len(),
            spec_trim_start(s@) == s@.subrange(i as int, n as int),
            spec_trim(s@) == spec_trim_end(s@.subrange(i as int, j as int)),
        decreases j,
    {
        proof {
            let t = s@.subrange(i as int, j as int);
            assert(t.drop_last() =~= s@.subrange(i as int, j - 1));
            assert(t.last() == s@[j - 1]);
        }
        j = j - 1;
    }
    proof {
        let t = s@.subrange(i as int, j as int);
        if j > i {
            assert(t.last() == s@[j - 1]);
        }
    }
    s.substring_char(i, j)
}

/// Whether `c` is an ASCII decimal digit.
pub open spec fn spec_is_digit(c: char) -> bool {
    0x30 <= (c as u32) <= 0x39
}

/// The value of the decimal digit `c`.
pub open spec fn spec_digit_value(c: char) -> int {
    (c as u32) - 0x30
}

/// Whether every character of `s` is a decimal digit.
pub open spec fn spec_all_digits(s: Seq<char>) -> bool {
    forall|i: int| 0 <= i < s.len() ==> spec_is_digit(#[trigger] s[i])
}

/// The value of the decimal numeral `s`.
pub open spec fn spec_digits_value(s: Seq<char>) -> int
    decreases s.len(),
{
    if s.len() == 0 {
        0
    } else {
        spec_digits_value(s.drop_last()) * 10 + spec_digit_value(s.last())
    }
}

/// The value of a numeral of decimal digits, negated when `negative`; none
/// when `digits` is empty, holds a non-digit, or the value does not fit in
/// an `i64`.
pub open spec fn spec_signed_value(negative: bool, digits: Seq<char>) -> Option<i64> {
    if digits.len() == 0 || !spec_all_digits(digits) {
        None
    } else {
        let v = if negative {
            -spec_digits_value(digits)
        } else {
            spec_digits_value(digits)
        };
        if i64::MIN <= v <= i64::MAX {
            Some(v as i64)
        } else {
            None
        }
    }
}

/// The integer that `s` denotes, as `i64::from_str` reads it: an optional
/// `+` or `-` sign followed by at least one decimal digit and nothing else,
/// whose value fits in an `i64`.
pub open spec fn spec_parse_i64(s: Seq<char>) -> Option<i64> {
    if s.len() > 0 && (s[0] == '-' || s[0] == '+') {
        spec_signed_value(s[0] == '-', s.drop_first())
    } else {
        spec_signed_value(false, s)
    }
}

proof fn lemma_digits_value_nonneg(s: Seq<char>)
    requires
        spec_all_digits(s),
    ensures
        spec_digits_value(s) >= 0,
    decreases s.len(),
{
    if s.len() > 0 {
        assert(spec_is_digit(s[s.len() - 1]));
        lemma_digits_value_nonneg(s.drop_last());
    }
}

proof fn lemma_digits_value_prefix(s: Seq<char>, k: int)
    requires
        spec_all_digits(s),
        0 <= k <= s.len(),
    ensures
        spec_digits_value(s.subrange(0, k)) <= spec_digits_value(s),
    decreases s.len(),
{
    if k < s.len() {
        let t = s.drop_last();
        assert(spec_all_digits(t)) by {
            assert forall|i: int| 0 <= i < t.len() implies spec_is_digit(#[trigger] t[i]) by {
                assert(t[i] == s[i]);
            }
        }
        lemma_digits_value_prefix(t, k);
        assert(t.subrange(0, k) =~= s.subrange(0, k));
        lemma_digits_value_nonneg(t);
        assert(spec_is_digit(s[s.len() - 1]));
    } else {
        assert(s.subrange(0, k) =~= s);
    }
}

/// The integer that `s` denotes, if it is an optionally signed decimal
/// numeral that fits in an `i64`.
pub fn parse_i64(s: &str) -> (res: Option<i64>)
    ensures
        res == spec_parse_i64(s@),
{
    let n: usize = s.unicode_len();
    let mut start: usize = 0;
    let mut negative = false;
    if n > 0 {
        let c = s.get_char(0);
        if c == '-' {
            negative = true;
            start = 1;
        } else if c == '+' {
            start = 1;
        }
    }
    let ghost digits = s@.subrange(start as int, n as int);
    proof {
        if start == 1 {
            assert(digits =~= s@.drop_first());
        } else {
            assert(digits =~= s@);
        }
        assert(spec_parse_i64(s@) == spec_signed_value(negative, digits));
    }
    if start == n {
        return None;
    }
    let mut i: usize = start;
    let mut acc: i128 = 0;
    proof {
        assert(digits.subrange(0, 0) =~= Seq::<char>::empty());
    }
    while i < n
        invariant
            start <= i <= n,
            n == s@.len(),
            digits == s@.subrange(start as int, n as int),
            spec_all_digits(digits.subrange(0, i - start)),
            acc == spec_digits_value(digits.subrange(0, i - start)),
            0 <= acc <= 0x8000_0000_0000_0000,
            digits.len() > 0,
            spec_parse_i64(s@) == spec_signed_value(negative, digits),
        decreases n - i,
    {
        let c = s.get_char(i);
        let u: u32 = c as u32;
        if u < 0x30 || u > 0x39 {
            proof {
                assert(digits[i - start] == c);
                assert(!spec_all_digits(digits));
            }
            return None;
        }
        let ghost prefix = digits.subrange(0, i - start + 1);
        proof {
            assert(prefix.drop_last() =~= digits.subrange(0, i - start));
            assert(prefix.last() == c);
            assert(spec_all_digits(prefix)) by {
                assert forall|k: int| 0 <= k < prefix.len() implies spec_is_digit(
                    #[trigger] prefix[k],
                ) by {
                    if k < prefix.len() - 1 {
                        assert(prefix[k] == digits.subrange(0, i - start)[k]);
                    }
                }
            }
        }
        acc = acc * 10 + (u - 0x30) as i128;
        if acc > 0x8000_0000_0000_0000 {
            proof {
                // the whole numeral is at least this prefix, so it is out of range
                if spec_all_digits(digits) {
                    lemma_digits_value_prefix(digits, i - start + 1);
                }
            }
            return None;
        }
        i = i + 1;
    }
    proof {
        assert(digits.subrange(0, n - start) =~= digits);
    }
    if negative {
        Some((-acc) as i64)
    } else if acc <= 0x7fff_ffff_ffff_ffff {
        Some(acc as i64)
    } else {
        None
    }
}

/// The pieces of `s` between commas, as `str::split(',')` yields them: one
/// more piece than there are commas.
pub open spec fn spec_split_commas(s: Seq<char>) -> Seq<Seq<char>>
    decreases s.len(),
{
    if s.len() == 0 {
        seq![Seq::empty()]
    } else {
        let p = spec_split_commas(s.drop_last());
        if s.last() == ',' {
            p.push(Seq::empty())
        } else {
            p.update(p.len() - 1, p.last().push(s.last()))
        }
    }
}

proof fn lemma_split_nonempty(s: Seq<char>)
    ensures
        spec_split_commas(s).len() >= 1,
    decreases s.len(),
{
    if s.len() > 0 {
        lemma_split_nonempty(s.drop_last());
    }
}

/// Splitting a longer prefix keeps every finished piece of a shorter one.
proof fn lemma_split_prefix_stable(s: Seq<char>, k: int, m: int)
    requires
        0 <= k <= m <= s.len(),
    ensures
        spec_split_commas(s.subrange(0, k)).len() <= spec_split_commas(s.subrange(0, m)).len(),
        forall|idx: int|
            0 <= idx < spec_split_commas(s.subrange(0, k)).len() - 1 ==> #[trigger] spec_split_commas(
                s.subrange(0, m),
            )[idx] == spec_split_commas(s.subrange(0, k))[idx],
    decreases m - k,
{
    if k < m {
        lemma_split_prefix_stable(s, k, m - 1);
        let t = s.subrange(0, m);
        assert(t.drop_last() =~= s.subrange(0, m - 1));
        lemma_split_nonempty(s.subrange(0, m - 1));
    }
}

/// The integers of a comma-separated list, each piece trimmed of
/// whitespace; none when some piece is not an `i64` numeral.
pub open spec fn spec_parse_numbers(s: Seq<char>) -> Option<Seq<i64>> {
    let pieces = spec_split_commas(s);
    if forall|i: int| 0 <= i < pieces.len() ==> (#[trigger] spec_parse_i64(spec_trim(pieces[i])))
        is Some {
        Some(pieces.map_values(|p: Seq<char>| spec_parse_i64(spec_trim(p))->0))
    } else {
        None
    }
}

/// The integers of a comma-separated list such as `1, 2,3`, or `None` when
/// some piece, trimmed of whitespace, is not an `i64` numeral.
pub fn parse_numbers(s: &str) -> (res: Option<Vec<i64>>)
    ensures
        match res {
            Some(v) => spec_parse_numbers(s@) == Some(v@),
            None => spec_parse_numbers(s@) is None,
        },
{
    let n: usize = s.unicode_len();
    let mut out: Vec<i64> = Vec::new();
    let mut start: usize = 0;
    let mut i: usize = 0;
    let ghost mut done: Seq<Seq<char>> = Seq::empty();
    proof {
        assert(s@.subrange(0, 0) =~= Seq::<char>::empty());
        assert(spec_split_commas(s@.subrange(0, 0)) =~= done.push(s@.subrange(0, 0)));
    }
    while i < n
        invariant
            start <= i <= n,
            n == s@.len(),
            spec_split_commas(s@.subrange(0, i as int)) == done.push(
                s@.subrange(start as int, i as int),
            ),
            out@.len() == done.len(),
            forall|k: int|
                0 <= k < done.len() ==> spec_parse_i64(spec_trim(#[trigger] done[k])) == Some(
                    out@[k],
                ),
        decreases n - i,
    {
        let c = s.get_char(i);
        let ghost before = s@.subrange(0, i as int);
        let ghost after = s@.subrange(0, i + 1);
        proof {
            assert(after.drop_last() =~= before);
            assert(after.last() == c);
        }
        if c == ',' {
            let piece = s.substring_char(start, i);
            let t = trim(piece);
            match parse_i64(t) {
                Some(v) => {
                    out.push(v);
                    proof {
                        assert(spec_split_commas(after) =~= done.push(piece@).push(Seq::empty()));
                        done = done.push(piece@);
                        assert(s@.subrange((i + 1) as int, (i + 1) as int) =~= Seq::<char>::empty());
                    }
                    start = i + 1;
                },
                None => {
                    proof {
                        let pieces = spec_split_commas(s@);
                        assert(spec_split_commas(after) =~= done.push(piece@).push(Seq::empty()));
                        lemma_split_prefix_stable(s@, i + 1, n as int);
                        assert(s@.subrange(0, n as int) =~= s@);
                        assert(pieces[done.len() as int] == piece@);
                        assert(spec_parse_i64(spec_trim(pieces[done.len() as int])) is None);
                    }
                    return None;
                },
            }
        } else {
            proof {
                assert(s@.subrange(start as int, i + 1) =~= s@.subrange(start as int, i as int).push(
                    c,
                ));
                assert(spec_split_commas(after) =~= done.push(s@.subrange(start as int, i + 1)));
            }
        }
        i = i + 1;
    }
    let piece = s.substring_char(start, n);
    let t = trim(piece);
    proof {
        assert(s@.subrange(0, n as int) =~= s@);
    }
    match parse_i64(t) {
        Some(v) => {
            out.push(v);
            proof {
                let pieces = spec_split_commas(s@);
                done = done.push(piece@);
                assert(pieces == done);
                assert forall|k: int| 0 <= k < pieces.len() implies (#[trigger] spec_parse_i64(
                    spec_trim(pieces[k]),
                )) is Some by {
                    assert(spec_parse_i64(spec_trim(done[k])) == Some(out@[k]));
                }
                assert(out@ =~= pieces.map_values(|p: Seq<char>| spec_parse_i64(spec_trim(p))->0));
            }
            Some(out)
        },
        None => {
            proof {
                let pieces = spec_split_commas(s@);
                assert(pieces[done.len() as int] == piece@);
            }
            None
        },
    }
}

/// The decimal digit character for `d`.
pub open spec fn spec_digit_char(d: nat) -> char {
    ((d + 0x30) as u32) as char
}

/// The decimal numeral of `n`, without leading zeros.
pub open spec fn spec_natural_numeral(n: nat) -> Seq<char>
    decreases n,
{
    if n < 10 {
        seq![spec_digit_char(n)]
    } else {
        spec_natural_numeral(n / 10).push(spec_digit_char(n % 10))
    }
}

/// The decimal numeral of `x`, with a `-` sign when it is negative (as
/// `i64`'s `Display` writes it).
pub open spec fn spec_decimal(x: i64) -> Seq<char> {
    if x < 0 {
        seq!['-'] + spec_natural_numeral((-x) as nat)
    } else {
        spec_natural_numeral(x as nat)
    }
}

/// `pieces` joined with commas.
pub open spec fn spec_join_with_commas(pieces: Seq<Seq<char>>) -> Seq<char>
    decreases pieces.len(),
{
    if pieces.len() == 0 {
        Seq::empty()
    } else if pieces.len() == 1 {
        pieces[0]
    } else {
        spec_join_with_commas(pieces.drop_last()) + seq![','] + pieces.last()
    }
}

} // verus!
