//! Decimal text codec. Tenant (guild) identifiers travel on the wire as
//! decimal strings and must be decoded to `u64`; identifiers and ports are
//! rendered back into URLs and headers. Both directions are verified against
//! one pair of spec functions, together with a round-trip proof.

use vstd::prelude::*;
use vstd::string::StrSliceExecFns;
use vstd::string::StringExecFns;
use vstd::arithmetic::div_mod::lemma_fundamental_div_mod;

verus! {

/// A decimal digit, `'0'` through `'9'`.
pub open spec fn is_digit_char(c: char) -> bool {
    48 <= c as u32 <= 57
}

/// Numeric value of a digit character.
pub open spec fn digit_val(c: char) -> int {
    c as u32 - 48
}

/// Digit character for a value below ten.
pub open spec fn digit_char(d: int) -> char {
    if d == 0 {
        '0'
    } else if d == 1 {
        '1'
    } else if d == 2 {
        '2'
    } else if d == 3 {
        '3'
    } else if d == 4 {
        '4'
    } else if d == 5 {
        '5'
    } else if d == 6 {
        '6'
    } else if d == 7 {
        '7'
    } else if d == 8 {
        '8'
    } else {
        '9'
    }
}

/// Every character of `s` is a decimal digit.
pub open spec fn all_digits(s: Seq<char>) -> bool {
    forall|i: int| 0 <= i < s.len() ==> is_digit_char(#[trigger] s[i])
}

/// Value of a digit string, most significant digit first.
pub open spec fn digits_val(s: Seq<char>) -> int
    decreases s.len(),
{
    if s.len() == 0 {
        0
    } else {
        digits_val(s.drop_last()) * 10 + digit_val(s.last())
    }
}

/// What parsing a decimal string yields: the value of the digits when the
/// string is non-empty, all digits, and the value fits in a `u64`; nothing
/// otherwise.
pub open spec fn spec_parse_u64(s: Seq<char>) -> Option<u64> {
    if s.len() > 0 && all_digits(s) && digits_val(s) <= u64::MAX {
        Some(digits_val(s) as u64)
    } else {
        None
    }
}

/// The decimal rendering of a non-negative integer, without leading zeros.
pub open spec fn spec_u64_digits(n: int) -> Seq<char>
    recommends
        n >= 0,
    decreases n,
{
    if n < 10 {
        seq![digit_char(n)]
    } else {
        spec_u64_digits(n / 10).push(digit_char(n % 10))
    }
}

/// A digit string of non-negative digits has a non-negative value.
proof fn lemma_digits_val_nonneg(s: Seq<char>)
    requires
        all_digits(s),
    ensures
        digits_val(s) >= 0,
    decreases s.len(),
{
    if s.len() > 0 {
        lemma_digits_val_nonneg(s.drop_last());
    }
}

/// Extending a digit string cannot decrease its value.
proof fn lemma_digits_val_prefix_le(s: Seq<char>, j: int)
    requires
        all_digits(s),
        0 <= j <= s.len(),
    ensures
        digits_val(s.take(j)) <= digits_val(s),
    decreases s.len() - j,
{
    if j < s.len() {
        let t = s.take(j + 1);
        assert(t.drop_last() =~= s.take(j));
        lemma_digits_val_nonneg(s.take(j));
        lemma_digits_val_prefix_le(s, j + 1);
    } else {
        assert(s.take(j) =~= s);
    }
}

/// Parse a decimal string into a `u64`. Returns the digits' value exactly
/// when the input is a non-empty run of digits whose value fits.
pub fn parse_u64(s: &str) -> (r: Option<u64>)
    ensures
        r == spec_parse_u64(s@),
{
    let len = s.unicode_len();
    if len == 0 {
        return None;
    }
    let mut acc: u64 = 0;
    let mut i: usize = 0;
    while i < len
        invariant
            0 <= i <= len,
            len == s@.len(),
            all_digits(s@.take(i as int)),
            acc == digits_val(s@.take(i as int)),
        decreases len - i,
    {
        let c = s.get_char(i);
        let u = c as u32;
        if u < 48 || u > 57 {
            assert(!is_digit_char(s@[i as int]));
            return None;
        }
        let d = (u - 48) as u64;
        assert(s@.take(i + 1).drop_last() =~= s@.take(i as int));
        assert(s@.take(i + 1).last() == s@[i as int]);
        if acc > (u64::MAX - d) / 10 {
            proof {
                let hi = (u64::MAX - d) as int;
                lemma_fundamental_div_mod(hi, 10);
                assert(acc * 10 + d > u64::MAX) by (nonlinear_arith)
                    requires
                        acc > hi / 10,
                        hi == u64::MAX - d,
                        hi / 10 * 10 + hi % 10 == hi,
                        0 <= hi % 10 < 10,
                        d <= 9,
                ;
                if all_digits(s@) {
                    lemma_digits_val_prefix_le(s@, i + 1);
                    assert(digits_val(s@) > u64::MAX);
                }
            }
            return None;
        }
        proof {
            let hi = (u64::MAX - d) as int;
            lemma_fundamental_div_mod(hi, 10);
            assert(acc * 10 + d <= u64::MAX) by (nonlinear_arith)
                requires
                    acc <= hi / 10,
                    hi == u64::MAX - d,
                    hi / 10 * 10 + hi % 10 == hi,
                    0 <= hi % 10 < 10,
                    0 <= d,
                    0 <= acc,
            ;
        }
        acc = acc * 10 + d;
        i = i + 1;
    }
    assert(s@.take(len as int) =~= s@);
    Some(acc)
}

/// One-character string for a digit value.
fn digit_str(d: u64) -> (r: &'static str)
    requires
        d < 10,
    ensures
        r@ =~= seq![digit_char(d as int)],
{
    proof {
        reveal_strlit("0");
        reveal_strlit("1");
        reveal_strlit("2");
        reveal_strlit("3");
        reveal_strlit("4");
        reveal_strlit("5");
        reveal_strlit("6");
        reveal_strlit("7");
        reveal_strlit("8");
        reveal_strlit("9");
    }
    match d {
        0 => "0",
        1 => "1",
        2 => "2",
        3 => "3",
        4 => "4",
        5 => "5",
        6 => "6",
        7 => "7",
        8 => "8",
        _ => "9",
    }
}

/// Render a `u64` as its decimal string.
pub fn format_u64(n: u64) -> (s: String)
    ensures
        s@ == spec_u64_digits(n as int),
    decreases n,
{
    if n < 10 {
        String::from_str(digit_str(n))
    } else {
        let prefix = format_u64(n / 10);
        let s = prefix.concat(digit_str(n % 10));
        assert(s@ =~= spec_u64_digits(n as int));
        s
    }
}

/// The decimal rendering consists of digits only.
proof fn lemma_u64_digits_all_digits(n: int)
    requires
        n >= 0,
    ensures
        all_digits(spec_u64_digits(n)),
        spec_u64_digits(n).len() > 0,
    decreases n,
{
    if n < 10 {
        assert(is_digit_char(digit_char(n)));
    } else {
        lemma_u64_digits_all_digits(n / 10);
        let s = spec_u64_digits(n);
        let p = spec_u64_digits(n / 10);
        assert(is_digit_char(digit_char(n % 10)));
        assert(forall|i: int| 0 <= i < s.len() ==> is_digit_char(#[trigger] s[i])) by {
            assert(forall|i: int| 0 <= i < p.len() ==> is_digit_char(#[trigger] p[i]));
            assert(forall|i: int| 0 <= i < s.len() - 1 ==> s[i] == p[i]);
            assert(s[s.len() - 1] == digit_char(n % 10));
        }
    }
}

/// The digits of `n` evaluate back to `n`.
proof fn lemma_u64_digits_val(n: int)
    requires
        0 <= n <= u64::MAX,
    ensures
        digits_val(spec_u64_digits(n)) == n,
    decreases n,
{
    if n < 10 {
        let s = spec_u64_digits(n);
        assert(s.len() == 1);
        assert(s.last() == digit_char(n));
        assert(s.drop_last() =~= Seq::<char>::empty());
        assert(digit_val(digit_char(n)) == n);
        assert(digits_val(s) == digits_val(s.drop_last()) * 10 + digit_val(s.last()));
    } else {
        lemma_u64_digits_val(n / 10);
        let s = spec_u64_digits(n);
        let p = spec_u64_digits(n / 10);
        assert(s.last() == digit_char(n % 10));
        assert(s.drop_last() =~= p);
        assert(digit_val(digit_char(n % 10)) == n % 10);
        assert(digits_val(s) == digits_val(p) * 10 + (n % 10));
        lemma_fundamental_div_mod(n, 10);
    }
}

/// Rendering a value and parsing it back returns the value: the two text
/// codecs are mutually inverse on every `u64`.
pub proof fn lemma_decimal_round_trip(n: u64)
    ensures
        spec_parse_u64(spec_u64_digits(n as int)) == Some(n),
{
    lemma_u64_digits_all_digits(n as int);
    lemma_u64_digits_val(n as int);
}

} // verus!
