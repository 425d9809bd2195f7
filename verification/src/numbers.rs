//! Reading decimal numbers out of form fields, as `i32::from_str` reads them.
use vstd::prelude::*;

verus! {

/// `c` is one of the ASCII digits `0` to `9`.
pub open spec fn is_digit(c: char) -> bool {
    '0' as int <= c as int <= '9' as int
}

/// Every character of `ds` is an ASCII digit.
pub open spec fn all_digits(ds: Seq<char>) -> bool {
    forall|i: int| 0 <= i < ds.len() ==> is_digit(#[trigger] ds[i])
}

/// The number that the digit string `ds` denotes in base ten (0 for the empty string).
pub open spec fn decimal_value(ds: Seq<char>) -> int
    decreases ds.len(),
{
    if ds.len() == 0 {
        0
    } else {
        decimal_value(ds.drop_last()) * 10 + (ds.last() as int - '0' as int)
    }
}

/// The characters after an optional leading sign.
pub open spec fn unsigned_part(s: Seq<char>) -> Seq<char> {
    if s.len() > 0 && (s[0] == '-' || s[0] == '+') {
        s.drop_first()
    } else {
        s
    }
}

/// What `i32::from_str` gives for `s`: an optional `+` or `-`, then at least one
/// ASCII digit and nothing else, denoting a value in the range of `i32`.
/// Anything else (empty text, a lone sign, spaces, other characters, a value out
/// of range) is `None`.
pub open spec fn parse_i32_spec(s: Seq<char>) -> Option<i32> {
    let digits = unsigned_part(s);
    let magnitude = decimal_value(digits);
    let value = if s.len() > 0 && s[0] == '-' { -magnitude } else { magnitude };
    if digits.len() > 0 && all_digits(digits) && i32::MIN <= value <= i32::MAX {
        Some(value as i32)
    } else {
        None
    }
}

proof fn lemma_decimal_value_nonneg(ds: Seq<char>)
    requires
        all_digits(ds),
    ensures
        decimal_value(ds) >= 0,
    decreases ds.len(),
{
    if ds.len() > 0 {
        assert(is_digit(ds[ds.len() - 1]));
        lemma_decimal_value_nonneg(ds.drop_last());
    }
}

/// A digit string denotes at least as much as any of its prefixes.
proof fn lemma_decimal_value_prefix(ds: Seq<char>, k: int)
    requires
        all_digits(ds),
        0 <= k <= ds.len(),
    ensures
        decimal_value(ds.take(k)) <= decimal_value(ds),
    decreases ds.len(),
{
    if k < ds.len() {
        assert(is_digit(ds[ds.len() - 1]));
        let rest = ds.drop_last();
        assert(rest.take(k) =~= ds.take(k));
        lemma_decimal_value_prefix(rest, k);
        lemma_decimal_value_nonneg(rest);
    } else {
        assert(ds.take(k) =~= ds);
    }
}

/// Reads `s` as `i32::from_str` does (see `parse_i32_spec`).
pub fn parse_i32(s: &str) -> (r: Option<i32>)
    ensures
        r == parse_i32_spec(s@),
{
    let n = s.unicode_len();
    if n == 0 {
        return None;
    }
    let first = s.get_char(0);
    let negative = first == '-';
    let start: usize = if first == '-' || first == '+' { 1 } else { 0 };
    let ghost digits = unsigned_part(s@);
    assert(digits =~= s@.subrange(start as int, n as int));
    if start == n {
        return None;
    }
    let mut acc: i64 = 0;
    let mut i: usize = start;
    assert(s@.subrange(start as int, start as int) =~= Seq::<char>::empty());
    while i < n
        invariant
            start <= i <= n,
            n == s@.len(),
            start <= 1,
            digits == s@.subrange(start as int, n as int),
            digits == unsigned_part(s@),
            all_digits(s@.subrange(start as int, i as int)),
            acc == decimal_value(s@.subrange(start as int, i as int)),
            0 <= acc <= 2147483648,
        decreases n - i,
    {
        let c = s.get_char(i);
        if !(c >= '0' && c <= '9') {
            assert(digits[i - start] == c);
            return None;
        }
        let d = (c as u32 - '0' as u32) as i64;
        let ghost before = s@.subrange(start as int, i as int);
        let ghost after = s@.subrange(start as int, i + 1);
        assert(after.drop_last() =~= before);
        assert(after.last() == c);
        acc = acc * 10 + d;
        i = i + 1;
        assert forall|j: int| 0 <= j < after.len() implies is_digit(#[trigger] after[j]) by {
            if j < before.len() {
                assert(after[j] == before[j]);
            }
        }
        if acc > 2147483648 {
            proof {
                if all_digits(digits) {
                    assert(digits.take(i - start) =~= after);
                    lemma_decimal_value_prefix(digits, i - start);
                }
            }
            return None;
        }
    }
    assert(s@.subrange(start as int, i as int) =~= digits);
    if negative {
        Some((-acc) as i32)
    } else if acc <= 2147483647 {
        Some(acc as i32)
    } else {
        None
    }
}

/// How a text is read as an `i32`, case by case: empty text, a lone sign, or a
/// character other than an ASCII digit after the first place is refused; an
/// unsigned or `+` signed digit string gives its value when that fits in `i32`
/// and is refused otherwise; a `-` signed digit string gives minus its value
/// when that fits.
pub proof fn law_parse_i32_cases(s: Seq<char>)
    ensures
        s.len() == 0 ==> parse_i32_spec(s) is None,
        s =~= seq!['-'] || s =~= seq!['+'] ==> parse_i32_spec(s) is None,
        (exists|i: int|
            1 <= i < s.len() && !('0' as int <= #[trigger] s[i] as int <= '9' as int))
            ==> parse_i32_spec(s) is None,
        s.len() > 0 && s[0] != '-' && s[0] != '+' && !('0' as int <= s[0] as int <= '9' as int)
            ==> parse_i32_spec(s) is None,
        ({
            let unsigned = s.len() > 0 && forall|i: int|
                0 <= i < s.len() ==> '0' as int <= #[trigger] s[i] as int <= '9' as int;
            &&& unsigned && decimal_value(s) <= 2147483647 ==> parse_i32_spec(s) == Some(
                decimal_value(s) as i32,
            )
            &&& unsigned && decimal_value(s) > 2147483647 ==> parse_i32_spec(s) is None
        }),
        ({
            let rest = s.drop_first();
            let signed = s.len() > 1 && forall|i: int|
                0 <= i < rest.len() ==> '0' as int <= #[trigger] rest[i] as int <= '9' as int;
            &&& signed && s[0] == '+' && decimal_value(rest) <= 2147483647 ==> parse_i32_spec(s)
                == Some(decimal_value(rest) as i32)
            &&& signed && s[0] == '+' && decimal_value(rest) > 2147483647 ==> parse_i32_spec(
                s,
            ) is None
            &&& signed && s[0] == '-' && decimal_value(rest) <= 2147483648 ==> parse_i32_spec(s)
                == Some((-decimal_value(rest)) as i32)
            &&& signed && s[0] == '-' && decimal_value(rest) > 2147483648 ==> parse_i32_spec(
                s,
            ) is None
        }),
{
    if exists|i: int| 1 <= i < s.len() && !('0' as int <= #[trigger] s[i] as int <= '9' as int) {
        let i = choose|i: int| 1 <= i < s.len() && !('0' as int <= #[trigger] s[i] as int <= '9' as int);
        let d = unsigned_part(s);
        if s[0] == '-' || s[0] == '+' {
            assert(d[i - 1] == s[i]);
        } else {
            assert(d[i] == s[i]);
        }
    }
    if s.len() > 0 && s[0] != '-' && s[0] != '+' && !('0' as int <= s[0] as int <= '9' as int) {
        assert(unsigned_part(s)[0] == s[0]);
    }
    if s.len() > 0 && s[0] != '-' && s[0] != '+' {
        assert(unsigned_part(s) == s);
    }
    if s.len() > 0 && (s[0] == '-' || s[0] == '+') {
        assert(unsigned_part(s) == s.drop_first());
    }
    lemma_decimal_nonneg_any(unsigned_part(s));
}

proof fn lemma_decimal_nonneg_any(ds: Seq<char>)
    ensures
        all_digits(ds) ==> decimal_value(ds) >= 0,
{
    if all_digits(ds) {
        lemma_decimal_value_nonneg(ds);
    }
}

} // verus!
