//! Decimal text handling: parsing an unsigned 64-bit amount from a decimal
//! string, rendering an integer back to decimal, exact string comparison,
//! and bounded address previews.

use vstd::prelude::*;

verus! {

/// A decimal digit, by its scalar value ('0' is 48, '9' is 57).
pub open spec fn is_digit(c: char) -> bool {
    48 <= c as int && c as int <= 57
}

/// Numeric value of a digit character.
pub open spec fn digit_val(c: char) -> nat
    recommends
        is_digit(c),
{
    (c as int - 48) as nat
}

/// The digit character for a value below ten.
pub open spec fn digit_char(d: nat) -> char
    recommends
        d < 10,
{
    if d == 0 {
        '0'
    } else if d == 1 {
        '1'
    } else if d == 2 {
        '2'
    } else if d == 3 {
        '3'
    } else if d == 4 {
        '4'
    } else if d == 5 {
        '5'
    } else if d == 6 {
        '6'
    } else if d == 7 {
        '7'
    } else if d == 8 {
        '8'
    } else {
        '9'
    }
}

/// Canonical decimal rendering of a natural number, most significant
/// digit first, with no leading zeros (except for zero itself).
pub open spec fn dec_digits(n: nat) -> Seq<char>
    decreases n,
{
    if n < 10 {
        seq![digit_char(n)]
    } else {
        dec_digits(n / 10) + seq![digit_char(n % 10)]
    }
}

/// Value of a digit sequence read as a decimal number.
pub open spec fn dec_value(s: Seq<char>) -> nat
    decreases s.len(),
{
    if s.len() == 0 {
        0
    } else {
        dec_value(s.drop_last()) * 10 + digit_val(s.last())
    }
}

/// Every character of the sequence is a decimal digit.
pub open spec fn all_digits(s: Seq<char>) -> bool {
    forall|j: int| 0 <= j < s.len() ==> is_digit(s[j])
}

/// The sequence is a well-formed decimal encoding of an unsigned 64-bit
/// amount: non-empty, all digits, and within range.
pub open spec fn is_amount_digits(s: Seq<char>) -> bool {
    s.len() > 0 && all_digits(s) && dec_value(s) <= u64::MAX
}

/// Extending a prefix by one character multiplies its value by ten and
/// adds the new digit.
proof fn lemma_dec_prefix(s: Seq<char>, i: int)
    requires
        0 <= i < s.len(),
    ensures
        dec_value(s.take(i + 1)) == dec_value(s.take(i)) * 10 + digit_val(s[i]),
{
    assert(s.take(i + 1).drop_last() =~= s.take(i));
    assert(s.take(i + 1).last() == s[i]);
}

/// The decimal value of a prefix never exceeds the value of a longer
/// prefix of the same sequence.
proof fn lemma_dec_value_mono(s: Seq<char>, i: int, j: int)
    requires
        0 <= i <= j <= s.len(),
    ensures
        dec_value(s.take(i)) <= dec_value(s.take(j)),
    decreases j - i,
{
    if i < j {
        lemma_dec_value_mono(s, i, j - 1);
        lemma_dec_prefix(s, j - 1);
    }
}

/// The canonical rendering of a number is a non-empty digit sequence
/// whose decimal value is that number.
pub proof fn lemma_dec_digits_value(n: nat)
    ensures
        dec_digits(n).len() >= 1,
        all_digits(dec_digits(n)),
        dec_value(dec_digits(n)) == n,
    decreases n,
{
    if n < 10 {
        assert(dec_digits(n).drop_last() =~= Seq::<char>::empty());
        assert(dec_digits(n).last() == digit_char(n));
        assert(dec_value(Seq::<char>::empty()) == 0);
        assert(dec_value(dec_digits(n)) == digit_val(digit_char(n)));
    } else {
        lemma_dec_digits_value(n / 10);
        assert(dec_digits(n).drop_last() =~= dec_digits(n / 10));
        assert(dec_digits(n).last() == digit_char(n % 10));
        vstd::arithmetic::div_mod::lemma_fundamental_div_mod(n as int, 10);
        vstd::arithmetic::div_mod::lemma_mod_bound(n as int, 10);
        assert(digit_val(digit_char(n % 10)) == n % 10);
        assert forall|j: int| 0 <= j < dec_digits(n).len() implies is_digit(
            dec_digits(n)[j],
        ) by {
            if j < dec_digits(n / 10).len() {
                assert(dec_digits(n)[j] == dec_digits(n / 10)[j]);
            } else {
                assert(dec_digits(n)[j] == digit_char(n % 10));
            }
        }
    }
}

/// A rendered amount parses back to the same number: rendering and
/// parsing are inverse on every unsigned 64-bit value.
pub proof fn lemma_amount_round_trip(n: u64)
    ensures
        is_amount_digits(dec_digits(n as nat)),
        dec_value(dec_digits(n as nat)) == n as nat,
{
    lemma_dec_digits_value(n as nat);
}

/// One-character string for a digit value.
fn digit_str(d: u64) -> (r: &'static str)
    requires
        d < 10,
    ensures
        r@.len() == 1,
        r@[0] == digit_char(d as nat),
{
    proof {
        reveal_strlit("0");
        reveal_strlit("1");
        reveal_strlit("2");
        reveal_strlit("3");
        reveal_strlit("4");
        reveal_strlit("5");
        reveal_strlit("6");
        reveal_strlit("7");
        reveal_strlit("8");
        reveal_strlit("9");
    }
    if d == 0 {
        "0"
    } else if d == 1 {
        "1"
    } else if d == 2 {
        "2"
    } else if d == 3 {
        "3"
    } else if d == 4 {
        "4"
    } else if d == 5 {
        "5"
    } else if d == 6 {
        "6"
    } else if d == 7 {
        "7"
    } else if d == 8 {
        "8"
    } else {
        "9"
    }
}

/// Render an unsigned 64-bit number as its canonical decimal string.
pub fn u64_to_dec(n: u64) -> (r: String)
    ensures
        r@ == dec_digits(n as nat),
    decreases n,
{
    if n < 10 {
        let r = String::from_str(digit_str(n));
        proof {
            assert(r@ =~= dec_digits(n as nat));
        }
        r
    } else {
        let mut s = u64_to_dec(n / 10);
        s.append(digit_str(n % 10));
        proof {
            assert(s@ =~= dec_digits(n as nat));
        }
        s
    }
}

/// Parse a decimal string into an unsigned 64-bit amount. Returns a
/// value exactly when the string is non-empty, made of digits only, and
/// within range; anything else (sign, letters, overflow) is rejected.
pub fn parse_u64_decimal(s: &str) -> (r: Option<u64>)
    ensures
        r is Some <==> is_amount_digits(s@),
        is_amount_digits(s@) ==> r == Some((dec_value(s@) as u64)),
{
    let n = s.unicode_len();
    if n == 0 {
        return None;
    }
    let mut acc: u64 = 0;
    let mut i: usize = 0;
    while i < n
        invariant
            n == s@.len(),
            0 <= i <= n,
            forall|j: int| 0 <= j < i ==> is_digit(s@[j]),
            acc as nat == dec_value(s@.take(i as int)),
        decreases n - i,
    {
        let c = s.get_char(i);
        let u = c as u32;
        if u < 48 || u > 57 {
            proof {
                assert(!is_digit(s@[i as int]));
            }
            return None;
        }
        let d = (u - 48) as u64;
        proof {
            assert(is_digit(s@[i as int]));
            assert(digit_val(s@[i as int]) == d as nat);
            lemma_dec_prefix(s@, i as int);
        }
        let limit = (u64::MAX - d) / 10;
        proof {
            vstd::arithmetic::div_mod::lemma_fundamental_div_mod(
                u64::MAX as int - d as int,
                10,
            );
            vstd::arithmetic::div_mod::lemma_mod_bound(u64::MAX as int - d as int, 10);
        }
        if acc > limit {
            proof {
                assert(acc as nat * 10 + d as nat > u64::MAX as nat);
                lemma_dec_value_mono(s@, i as int + 1, s@.len() as int);
                assert(s@.take(s@.len() as int) =~= s@);
                assert(dec_value(s@) > u64::MAX as nat);
            }
            return None;
        }
        proof {
            assert(acc as int * 10 + d as int <= u64::MAX as int);
        }
        acc = acc * 10 + d;
        i = i + 1;
    }
    proof {
        assert(s@.take(n as int) =~= s@);
    }
    Some(acc)
}

/// Exact character-wise equality of two strings.
pub fn str_eq(a: &str, b: &str) -> (r: bool)
    ensures
        r == (a@ == b@),
{
    let na = a.unicode_len();
    let nb = b.unicode_len();
    if na != nb {
        return false;
    }
    let mut i: usize = 0;
    while i < na
        invariant
            na == a@.len(),
            na == b@.len(),
            0 <= i <= na,
            forall|j: int| 0 <= j < i ==> a@[j] == b@[j],
        decreases na - i,
    {
        let ca = a.get_char(i);
        let cb = b.get_char(i);
        if ca != cb {
            return false;
        }
        i = i + 1;
    }
    proof {
        assert(a@ =~= b@);
    }
    true
}

/// How many leading characters an address preview keeps.
pub const PREVIEW_LEN: usize = 20;

/// The preview of a string: its first characters, clamped to the actual
/// length so that short and empty strings are handled safely.
pub open spec fn preview_of(s: Seq<char>) -> Seq<char> {
    s.take(if s.len() < PREVIEW_LEN { s.len() as int } else { PREVIEW_LEN as int })
}

/// Truncate an address for display, clamping the cut to the string's
/// own length; never out of bounds, even on the empty string.
pub fn address_preview(s: &str) -> (r: &str)
    ensures
        r@ == preview_of(s@),
{
    let n = s.unicode_len();
    let k = if n < PREVIEW_LEN {
        n
    } else {
        PREVIEW_LEN
    };
    let r = s.substring_char(0, k);
    proof {
        assert(r@ =~= preview_of(s@));
    }
    r
}

} // verus!
