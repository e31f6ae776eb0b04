//! Small verified text utilities: decimal parsing and rendering, and
//! space trimming, used by the configuration loader, the response
//! models, and the credential extractor.

use vstd::prelude::*;

verus! {

/// Whether `c` is a decimal digit.
pub open spec fn spec_is_digit(c: char) -> bool {
    '0' <= c && c <= '9'
}

/// Numeric value of a digit character.
pub open spec fn spec_digit_value(c: char) -> int {
    c as int - '0' as int
}

/// The character for a single decimal digit value.
pub open spec fn spec_digit_char(d: int) -> char
    recommends
        0 <= d < 10,
{
    ((48 + d) as u8) as char
}

/// Whether every character of `s` is a decimal digit.
pub open spec fn spec_all_digits(s: Seq<char>) -> bool {
    forall|i: int| 0 <= i < s.len() ==> spec_is_digit(#[trigger] s[i])
}

/// The number denoted by a digit string, most significant digit first.
pub open spec fn spec_digits_value(s: Seq<char>) -> int
    decreases s.len(),
{
    if s.len() == 0 {
        0
    } else {
        spec_digits_value(s.drop_last()) * 10 + spec_digit_value(s.last())
    }
}

/// What parsing a decimal string yields: the denoted number for a
/// non-empty, all-digit string whose value fits in `u64`, nothing
/// otherwise.
pub open spec fn spec_parse_u64(s: Seq<char>) -> Option<u64> {
    if s.len() > 0 && spec_all_digits(s) && spec_digits_value(s) <= u64::MAX {
        Some(spec_digits_value(s) as u64)
    } else {
        None
    }
}

/// A digit string's value is non-negative.
proof fn lemma_digits_value_nonneg(s: Seq<char>)
    requires
        spec_all_digits(s),
    ensures
        spec_digits_value(s) >= 0,
    decreases s.len(),
{
    if s.len() > 0 {
        assert(spec_all_digits(s.drop_last()));
        lemma_digits_value_nonneg(s.drop_last());
    }
}

/// Parses a decimal unsigned integer.  Returns the denoted value exactly
/// when the input is a non-empty string of digits whose value fits.
pub fn parse_u64(s: &str) -> (r: Option<u64>)
    ensures
        r == spec_parse_u64(s@),
{
    let n = s.unicode_len();
    if n == 0 {
        return None;
    }
    let mut acc: u64 = 0;
    let mut i: usize = 0;
    while i < n
        invariant
            0 < n == s@.len(),
            0 <= i <= n,
            spec_all_digits(s@.subrange(0, i as int)),
            acc == spec_digits_value(s@.subrange(0, i as int)),
        decreases n - i,
    {
        let c = s.get_char(i);
        if c < '0' || c > '9' {
            proof {
                assert(!spec_is_digit(s@[i as int]));
                assert(!spec_all_digits(s@)) by {
                    assert(0 <= i < s@.len() && !spec_is_digit(s@[i as int]));
                }
            }
            return None;
        }
        let d: u32 = c as u32 - 48;
        proof {
            lemma_digits_value_nonneg(s@.subrange(0, i as int));
        }
        if acc > (u64::MAX - d as u64) / 10 {
            proof {
                let prefix = s@.subrange(0, i + 1);
                assert(prefix.drop_last() =~= s@.subrange(0, i as int));
                assert(prefix.last() == s@[i as int]);
                assert(spec_digits_value(prefix) > u64::MAX);
                if spec_all_digits(s@) {
                    lemma_digits_value_monotonic(s@, i + 1);
                    assert(spec_digits_value(s@) >= spec_digits_value(prefix));
                }
            }
            return None;
        }
        acc = acc * 10 + d as u64;
        proof {
            let prefix = s@.subrange(0, i + 1);
            assert(prefix.drop_last() =~= s@.subrange(0, i as int));
            assert(prefix.last() == s@[i as int]);
        }
        i = i + 1;
    }
    proof {
        assert(s@.subrange(0, n as int) =~= s@);
    }
    Some(acc)
}

/// Appending digits never decreases a digit string's value: the value of
/// the whole string is at least the value of any of its prefixes.
proof fn lemma_digits_value_monotonic(s: Seq<char>, i: int)
    requires
        0 <= i <= s.len(),
    ensures
        spec_all_digits(s) ==> spec_digits_value(s) >= spec_digits_value(s.subrange(0, i)),
    decreases s.len() - i,
{
    if i < s.len() && spec_all_digits(s) {
        lemma_digits_value_monotonic(s, i + 1);
        let shorter = s.subrange(0, i);
        let longer = s.subrange(0, i + 1);
        assert(longer.drop_last() =~= shorter);
        lemma_digits_value_nonneg(shorter);
        assert(spec_digits_value(longer) >= spec_digits_value(shorter));
    } else {
        assert(s.subrange(0, s.len() as int) =~= s);
    }
}

/// The decimal rendering of a non-negative number, most significant
/// digit first, with no leading zeros (a single zero for zero).
pub open spec fn spec_format_u64(n: int) -> Seq<char>
    recommends
        n >= 0,
    decreases n,
{
    if n < 10 {
        seq![spec_digit_char(n)]
    } else {
        spec_format_u64(n / 10).push(spec_digit_char(n % 10))
    }
}

/// The decimal rendering of a signed number: a minus sign and then the
/// rendering of the magnitude.
pub open spec fn spec_format_i64(v: int) -> Seq<char> {
    if v < 0 {
        seq!['-'] + spec_format_u64(-v)
    } else {
        spec_format_u64(v)
    }
}

/// Relies on String::push: appends exactly the one character.
#[verifier::external_body]
fn push_char(s: &mut String, c: char)
    ensures
        final(s)@ == old(s)@.push(c),
{
    s.push(c);
}

/// Renders `n` in decimal.
pub fn format_u64(n: u64) -> (r: String)
    ensures
        r@ == spec_format_u64(n as int),
{
    let mut digits: Vec<char> = Vec::new();
    let mut m: u64 = n;
    loop
        invariant_except_break
            digits@.len() == 0 ==> m == n,
            digits@.len() > 0 ==> m > 0 && spec_format_u64(n as int) =~= spec_format_u64(m as int)
                + digits@,
        ensures
            spec_format_u64(n as int) =~= digits@,
        decreases m, (if digits@.len() == 0 { 1int } else { 0int }),
    {
        let ghost before = digits@;
        let d = m % 10;
        let next = m / 10;
        digits.insert(0, (48 + d as u8) as char);
        proof {
            assert(digits@ =~= seq![spec_digit_char(d as int)] + before);
            if next > 0 {
                assert(m >= 10);
                assert(spec_format_u64(m as int) == spec_format_u64(m as int / 10).push(
                    spec_digit_char(m as int % 10),
                ));
                assert(spec_format_u64(next as int) + digits@ =~= spec_format_u64(
                    next as int,
                ).push(spec_digit_char(d as int)) + before);
            } else {
                assert(m < 10);
                assert(spec_format_u64(m as int) =~= seq![spec_digit_char(d as int)]);
            }
        }
        m = next;
        if m == 0 {
            break;
        }
    }
    let mut r = String::new();
    let k = digits.len();
    let mut i: usize = 0;
    while i < k
        invariant
            k == digits@.len(),
            0 <= i <= k,
            r@ == digits@.subrange(0, i as int),
        decreases k - i,
    {
        push_char(&mut r, digits[i]);
        proof {
            assert(digits@.subrange(0, i + 1) =~= digits@.subrange(0, i as int).push(
                digits@[i as int],
            ));
        }
        i = i + 1;
    }
    proof {
        assert(digits@.subrange(0, k as int) =~= digits@);
    }
    r
}

/// Renders `v` in decimal, with a leading minus sign when negative.
pub fn format_i64(v: i64) -> (r: String)
    ensures
        r@ == spec_format_i64(v as int),
{
    if v >= 0 {
        format_u64(v as u64)
    } else {
        let mag: u64 = if v == i64::MIN {
            9223372036854775808u64
        } else {
            (-v) as u64
        };
        let mut r = String::new();
        push_char(&mut r, '-');
        let digits = format_u64(mag);
        r.append(digits.as_str());
        proof {
            assert(r@ =~= seq!['-'] + spec_format_u64(mag as int));
        }
        r
    }
}

/// How many spaces `s` starts with.
pub open spec fn spec_leading_spaces(s: Seq<char>) -> int
    decreases s.len(),
{
    if s.len() == 0 || s[0] != ' ' {
        0
    } else {
        1 + spec_leading_spaces(s.drop_first())
    }
}

/// How many spaces `s` ends with.
pub open spec fn spec_trailing_spaces(s: Seq<char>) -> int
    decreases s.len(),
{
    if s.len() == 0 || s.last() != ' ' {
        0
    } else {
        1 + spec_trailing_spaces(s.drop_last())
    }
}

/// `s` with leading and trailing spaces removed.
pub open spec fn spec_trim_spaces(s: Seq<char>) -> Seq<char> {
    if spec_leading_spaces(s) == s.len() {
        Seq::empty()
    } else {
        s.subrange(spec_leading_spaces(s), s.len() - spec_trailing_spaces(s))
    }
}

/// The leading-space count is the first non-space position.
proof fn lemma_leading_spaces_character(s: Seq<char>, i: int)
    requires
        0 <= i <= s.len(),
        forall|j: int| 0 <= j < i ==> s[j] == ' ',
        i < s.len() ==> s[i] != ' ',
    ensures
        spec_leading_spaces(s) == i,
    decreases s.len(),
{
    if s.len() > 0 && s[0] == ' ' {
        let t = s.drop_first();
        lemma_leading_spaces_character(t, i - 1);
    }
}

/// The trailing-space count is fixed by the last non-space position.
proof fn lemma_trailing_spaces_character(s: Seq<char>, i: int)
    requires
        0 <= i <= s.len(),
        forall|j: int| i <= j < s.len() ==> s[j] == ' ',
        i > 0 ==> s[i - 1] != ' ',
    ensures
        spec_trailing_spaces(s) == s.len() - i,
    decreases s.len(),
{
    if s.len() > 0 && s.last() == ' ' {
        let t = s.drop_last();
        lemma_trailing_spaces_character(t, i);
    }
}

/// Removes leading and trailing spaces.
pub fn trim_spaces(s: &str) -> (r: String)
    ensures
        r@ == spec_trim_spaces(s@),
{
    let n = s.unicode_len();
    let mut start: usize = 0;
    while start < n && s.get_char(start) == ' '
        invariant
            n == s@.len(),
            0 <= start <= n,
            forall|j: int| 0 <= j < start ==> s@[j] == ' ',
        decreases n - start,
    {
        start = start + 1;
    }
    proof {
        lemma_leading_spaces_character(s@, start as int);
    }
    if start == n {
        let r = String::new();
        return r;
    }
    let mut end: usize = n;
    while end > start && s.get_char(end - 1) == ' '
        invariant
            n == s@.len(),
            start <= end <= n,
            start < n,
            s@[start as int] != ' ',
            forall|j: int| end <= j < n ==> s@[j] == ' ',
        decreases end,
    {
        end = end - 1;
    }
    proof {
        assert(end > start);
        lemma_trailing_spaces_character(s@, end as int);
    }
    let r = s.substring_char(start, end);
    r.to_owned()
}

} // verus!
