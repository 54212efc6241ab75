use vstd::prelude::*;

verus! {

/// An ASCII decimal digit.
pub open spec fn is_digit(c: char) -> bool {
    '0' <= c && c <= '9'
}

pub open spec fn digit_value(c: char) -> int {
    (c as int) - ('0' as int)
}

pub open spec fn all_digits(ds: Seq<char>) -> bool {
    forall|i: int| 0 <= i < ds.len() ==> is_digit(#[trigger] ds[i])
}

/// The number that a string of decimal digits denotes, most significant digit first.
pub open spec fn digits_value(ds: Seq<char>) -> int
    decreases ds.len(),
{
    if ds.len() == 0 {
        0
    } else {
        digits_value(ds.drop_last()) * 10 + digit_value(ds.last())
    }
}

/// Splits an optional leading sign off a numeral: `+` always, `-` only for a signed type.
/// The boolean is true for a leading `-`.
pub open spec fn sign_split(s: Seq<char>, signed: bool) -> (bool, Seq<char>) {
    if s.len() > 0 && s[0] == '+' {
        (false, s.skip(1))
    } else if signed && s.len() > 0 && s[0] == '-' {
        (true, s.skip(1))
    } else {
        (false, s)
    }
}

/// The integer that `s` denotes when read the way Rust reads an integer from a string:
/// an optional sign followed by one or more ASCII digits, and nothing else.
pub open spec fn decimal_value(s: Seq<char>, signed: bool) -> Option<int> {
    let (negative, ds) = sign_split(s, signed);
    if ds.len() > 0 && all_digits(ds) {
        Some(
            if negative {
                -digits_value(ds)
            } else {
                digits_value(ds)
            },
        )
    } else {
        None
    }
}

/// `decimal_value`, kept only when it lies in `lo..=hi`.
pub open spec fn decimal_in_range(s: Seq<char>, signed: bool, lo: int, hi: int) -> Option<int> {
    match decimal_value(s, signed) {
        Some(v) => if lo <= v && v <= hi {
            Some(v)
        } else {
            None
        },
        None => None,
    }
}

/// What `s.parse::<i32>()` gives, with every error as `None`.
pub open spec fn parse_i32_spec(s: Seq<char>) -> Option<i32> {
    match decimal_in_range(s, true, i32::MIN as int, i32::MAX as int) {
        Some(v) => Some(v as i32),
        None => None,
    }
}

/// What `s.parse::<u16>()` gives, with every error as `None`.
pub open spec fn parse_u16_spec(s: Seq<char>) -> Option<u16> {
    match decimal_in_range(s, false, 0, u16::MAX as int) {
        Some(v) => Some(v as u16),
        None => None,
    }
}

/// The value of a form field that holds a number: the number, or 0 where it does not parse.
pub open spec fn int_field_value(s: Seq<char>) -> i32 {
    match parse_i32_spec(s) {
        Some(v) => v,
        None => 0,
    }
}

proof fn lemma_all_digits_drop_last(ds: Seq<char>)
    requires
        ds.len() > 0,
        all_digits(ds),
    ensures
        all_digits(ds.drop_last()),
{
    assert forall|i: int| 0 <= i < ds.drop_last().len() implies is_digit(
        #[trigger] ds.drop_last()[i],
    ) by {
        assert(ds.drop_last()[i] == ds[i]);
    }
}

proof fn lemma_digits_value_nonneg(ds: Seq<char>)
    requires
        all_digits(ds),
    ensures
        digits_value(ds) >= 0,
    decreases ds.len(),
{
    if ds.len() > 0 {
        lemma_all_digits_drop_last(ds);
        lemma_digits_value_nonneg(ds.drop_last());
        assert(is_digit(ds[ds.len() - 1]));
    }
}

/// A prefix of a string of digits never denotes more than the whole string.
proof fn lemma_digits_value_prefix(ds: Seq<char>, k: int)
    requires
        all_digits(ds),
        0 <= k <= ds.len(),
    ensures
        digits_value(ds.take(k)) <= digits_value(ds),
    decreases ds.len(),
{
    if k == ds.len() {
        assert(ds.take(k) =~= ds);
    } else {
        lemma_all_digits_drop_last(ds);
        lemma_digits_value_prefix(ds.drop_last(), k);
        assert(ds.drop_last().take(k) =~= ds.take(k));
        lemma_digits_value_nonneg(ds.drop_last());
        assert(is_digit(ds[ds.len() - 1]));
    }
}

/// Reads `s` as a decimal integer and keeps it when it lies in `lo..=hi`.
fn decimal_within(s: &str, signed: bool, lo: i64, hi: i64) -> (res: Option<i64>)
    requires
        -0x100_0000_0000 <= lo <= 0 <= hi <= 0x100_0000_0000,
    ensures
        res == (match decimal_in_range(s@, signed, lo as int, hi as int) {
            Some(v) => Some(v as i64),
            None => None,
        }),
{
    let n = s.unicode_len();
    if n == 0 {
        return None;
    }
    let first = s.get_char(0);
    let mut negative = false;
    let mut start: usize = 0;
    if first == '+' {
        start = 1;
    } else if signed && first == '-' {
        negative = true;
        start = 1;
    }
    let ghost split = sign_split(s@, signed);
    let ghost ds = s@.skip(start as int);
    assert(split.0 == negative && split.1 =~= ds);
    if start == n {
        return None;
    }
    let cap: i64 = if negative {
        -lo
    } else {
        hi
    };
    let mut acc: i64 = 0;
    let mut i: usize = start;
    assert(ds.take(0) =~= Seq::<char>::empty());
    while i < n
        invariant
            start <= i <= n,
            n == s@.len(),
            start <= 1,
            ds =~= s@.skip(start as int),
            0 <= acc <= cap <= 0x100_0000_0000,
            -0x100_0000_0000 <= lo <= 0 <= hi <= 0x100_0000_0000,
            cap == (if negative {
                -lo
            } else {
                hi as int
            }),
            split == sign_split(s@, signed),
            split.0 == negative,
            split.1 =~= ds,
            ds.len() > 0,
            all_digits(ds.take(i - start)),
            acc == digits_value(ds.take(i - start)),
        decreases n - i,
    {
        let c = s.get_char(i);
        assert(ds[i - start] == c);
        if c < '0' || c > '9' {
            assert(!all_digits(ds));
            return None;
        }
        let d: i64 = (c as u32 - '0' as u32) as i64;
        let ghost k = i - start;
        assert(ds.take(k + 1).drop_last() =~= ds.take(k));
        assert(ds.take(k + 1).last() == c);
        assert(all_digits(ds.take(k + 1))) by {
            assert forall|j: int| 0 <= j < ds.take(k + 1).len() implies is_digit(
                #[trigger] ds.take(k + 1)[j],
            ) by {
                if j < k {
                    assert(ds.take(k + 1)[j] == ds.take(k)[j]);
                }
            }
        }
        acc = acc * 10 + d;
        i = i + 1;
        if acc > cap {
            proof {
                if all_digits(ds) {
                    lemma_digits_value_prefix(ds, k + 1);
                }
            }
            return None;
        }
    }
    assert(ds.take(n - start) =~= ds);
    if negative {
        Some(-acc)
    } else {
        Some(acc)
    }
}

/// Reads a decimal `i32` the way `str::parse::<i32>` does.
pub fn parse_i32(s: &str) -> (res: Option<i32>)
    ensures
        res == parse_i32_spec(s@),
{
    match decimal_within(s, true, -2147483648, 2147483647) {
        Some(v) => Some(v as i32),
        None => None,
    }
}

/// Reads a decimal `u16` the way `str::parse::<u16>` does.
pub fn parse_u16(s: &str) -> (res: Option<u16>)
    ensures
        res == parse_u16_spec(s@),
{
    match decimal_within(s, false, 0, 65535) {
        Some(v) => Some(v as u16),
        None => None,
    }
}

/// The number a numeric form field holds, 0 where it does not parse.
pub fn int_field(s: &str) -> (res: i32)
    ensures
        res == int_field_value(s@),
{
    match parse_i32(s) {
        Some(v) => v,
        None => 0,
    }
}

} // verus!
