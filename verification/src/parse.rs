use vstd::prelude::*;
use vstd::string::StrSliceExecFns;
use crate::types::{Address, TxError};

verus! {

/// A decimal digit.
pub open spec fn is_dec_digit(c: char) -> bool {
    48 <= c as u32 && c as u32 <= 57
}

/// A hexadecimal digit, either case.
pub open spec fn is_hex_digit(c: char) -> bool {
    is_dec_digit(c) || (97 <= c as u32 && c as u32 <= 102) || (65 <= c as u32 && c as u32 <= 70)
}

/// Whether `c` is a digit of the selected base.
pub open spec fn digit_ok(c: char, hex: bool) -> bool {
    if hex {
        is_hex_digit(c)
    } else {
        is_dec_digit(c)
    }
}

/// The numeric value of a digit character; other characters count zero.
pub open spec fn digit_value(c: char) -> nat {
    if is_dec_digit(c) {
        (c as u32 - 48) as nat
    } else if 97 <= c as u32 && c as u32 <= 102 {
        (c as u32 - 87) as nat
    } else if 65 <= c as u32 && c as u32 <= 70 {
        (c as u32 - 55) as nat
    } else {
        0
    }
}

/// The base of the selected digit alphabet.
pub open spec fn radix(hex: bool) -> nat {
    if hex {
        16
    } else {
        10
    }
}

/// The value of a digit string read most-significant first.
pub open spec fn digits_value(s: Seq<char>, base: nat) -> nat
    decreases s.len(),
{
    if s.len() == 0 {
        0
    } else {
        digits_value(s.drop_last(), base) * base + digit_value(s.last())
    }
}

/// Every character is a digit of the selected base.
pub open spec fn all_digits(s: Seq<char>, hex: bool) -> bool {
    forall|i: int| 0 <= i < s.len() ==> digit_ok(s[i], hex)
}

/// A non-empty digit string of the selected base whose value fits a u128.
pub open spec fn digits_ok(d: Seq<char>, hex: bool) -> bool {
    d.len() > 0 && all_digits(d, hex) && digits_value(d, radix(hex)) <= u128::MAX as nat
}

/// The token begins with the two-character prefix "0x".
pub open spec fn has_hex_prefix(s: Seq<char>) -> bool {
    s.len() >= 2 && s[0] == '0' && s[1] == 'x'
}

/// The token parses: hexadecimal after a "0x" prefix, decimal otherwise,
/// non-empty, digits only, and its value is at most `max`.
pub open spec fn numeric_ok(s: Seq<char>, max: nat) -> bool {
    if has_hex_prefix(s) {
        s.skip(2).len() > 0 && all_digits(s.skip(2), true) && digits_value(s.skip(2), 16) <= max
    } else {
        s.len() > 0 && all_digits(s, false) && digits_value(s, 10) <= max
    }
}

/// The value a parsing token stands for.
pub open spec fn numeric_value(s: Seq<char>) -> nat {
    if has_hex_prefix(s) {
        digits_value(s.skip(2), 16)
    } else {
        digits_value(s, 10)
    }
}

/// The value of a prefix never exceeds the value of the whole digit string.
proof fn lemma_digits_value_take_le(s: Seq<char>, i: int, base: nat)
    requires
        0 <= i <= s.len(),
        base >= 1,
    ensures
        digits_value(s.take(i), base) <= digits_value(s, base),
    decreases s.len(),
{
    if i == s.len() {
        assert(s.take(i) =~= s);
    } else {
        let d = s.drop_last();
        assert(s.take(i) =~= d.take(i));
        lemma_digits_value_take_le(d, i, base);
        assert(digits_value(d, base) * base >= digits_value(d, base)) by (nonlinear_arith)
            requires
                base >= 1,
        ;
    }
}

/// Reading one more digit multiplies the prefix value by the base and adds
/// the digit.
proof fn lemma_digits_value_take_step(s: Seq<char>, i: int, base: nat)
    requires
        0 <= i < s.len(),
    ensures
        digits_value(s.take(i + 1), base) == digits_value(s.take(i), base) * base + digit_value(
            s[i],
        ),
{
    let t = s.take(i + 1);
    assert(t.drop_last() =~= s.take(i));
    assert(t.last() == s[i]);
}

/// Parses the digits of `s` from position `start` on in the selected base.
fn parse_radix(s: &str, start: usize, hex: bool) -> (r: Result<u128, TxError>)
    requires
        start as int <= s@.len(),
    ensures
        digits_ok(s@.skip(start as int), hex) ==> r == Ok::<u128, TxError>(
            digits_value(s@.skip(start as int), radix(hex)) as u128,
        ),
        !digits_ok(s@.skip(start as int), hex) ==> r == Err::<u128, TxError>(TxError::ParseError),
{
    let ghost d = s@.skip(start as int);
    let n = s.unicode_len();
    if start >= n {
        return Err(TxError::ParseError);
    }
    let base: u128 = if hex {
        16
    } else {
        10
    };
    let mut acc: u128 = 0;
    let mut i: usize = start;
    while i < n
        invariant
            start <= i <= n,
            n == s@.len(),
            hex ==> base == 16,
            !hex ==> base == 10,
            d == s@.skip(start as int),
            all_digits(d.take(i - start), hex),
            acc as nat == digits_value(d.take(i - start), radix(hex)),
        decreases n - i,
    {
        let c = s.get_char(i);
        proof {
            assert(d[i - start] == s@[i as int]);
        }
        let v = c as u32;
        let dv: u128;
        if 48 <= v && v <= 57 {
            dv = (v - 48) as u128;
        } else if hex && 97 <= v && v <= 102 {
            dv = (v - 87) as u128;
        } else if hex && 65 <= v && v <= 70 {
            dv = (v - 55) as u128;
        } else {
            proof {
                assert(!digit_ok(d[i - start], hex));
            }
            return Err(TxError::ParseError);
        }
        proof {
            assert(dv as nat == digit_value(d[i - start]));
            assert(digit_ok(d[i - start], hex));
            lemma_digits_value_take_step(d, i - start, radix(hex));
        }
        let limit = (u128::MAX - dv) / base;
        proof {
            let m = u128::MAX as int;
            let b = base as int;
            vstd::arithmetic::div_mod::lemma_fundamental_div_mod(m - dv, b);
            assert(m - dv == b * ((m - dv) / b) + (m - dv) % b);
        }
        if acc > limit {
            proof {
                let m = u128::MAX as int;
                let b = base as int;
                let q = (m - dv) / b;
                assert(acc as int * b >= (q + 1) * b) by (nonlinear_arith)
                    requires
                        acc as int >= q + 1,
                        b > 0,
                ;
                assert((q + 1) * b == q * b + b);
                assert(acc as int * b + dv > m);
                assert(digits_value(d.take(i - start + 1), radix(hex)) > u128::MAX as nat);
                lemma_digits_value_take_le(d, i - start + 1, radix(hex));
                assert(digits_value(d, radix(hex)) > u128::MAX as nat);
            }
            return Err(TxError::ParseError);
        }
        proof {
            let m = u128::MAX as int;
            let b = base as int;
            let q = (m - dv) / b;
            assert(acc as int * b <= q * b) by (nonlinear_arith)
                requires
                    acc as int <= q,
                    b > 0,
            ;
            assert(acc as int * b + dv <= m);
        }
        acc = acc * base + dv;
        i = i + 1;
    }
    proof {
        assert(d.take(n - start) =~= d);
    }
    Ok(acc)
}

/// Parses a decimal or "0x"-prefixed hexadecimal token into a u64.
pub fn parse_u64(value: &str) -> (r: Result<u64, TxError>)
    ensures
        numeric_ok(value@, u64::MAX as nat) ==> r == Ok::<u64, TxError>(
            numeric_value(value@) as u64,
        ),
        !numeric_ok(value@, u64::MAX as nat) ==> r == Err::<u64, TxError>(TxError::ParseError),
{
    match parse_u128(value) {
        Ok(v) => {
            if v <= u64::MAX as u128 {
                Ok(v as u64)
            } else {
                Err(TxError::ParseError)
            }
        },
        Err(_) => Err(TxError::ParseError),
    }
}

/// Parses a decimal or "0x"-prefixed hexadecimal token into a u128.
pub fn parse_u128(value: &str) -> (r: Result<u128, TxError>)
    ensures
        numeric_ok(value@, u128::MAX as nat) ==> r == Ok::<u128, TxError>(
            numeric_value(value@) as u128,
        ),
        !numeric_ok(value@, u128::MAX as nat) ==> r == Err::<u128, TxError>(TxError::ParseError),
{
    let n = value.unicode_len();
    let prefixed = if n >= 2 {
        let c0 = value.get_char(0);
        let c1 = value.get_char(1);
        c0 == '0' && c1 == 'x'
    } else {
        false
    };
    if prefixed {
        parse_radix(value, 2, true)
    } else {
        proof {
            assert(value@.skip(0) =~= value@);
        }
        parse_radix(value, 0, false)
    }
}

/// An even number of hex digits and nothing else.
pub open spec fn hex_pairs_ok(s: Seq<char>) -> bool {
    s.len() % 2 == 0 && (forall|i: int| 0 <= i < s.len() ==> is_hex_digit(s[i]))
}

/// The bytes a hex digit string stands for, two digits to the byte.
pub open spec fn hex_bytes(s: Seq<char>) -> Seq<u8> {
    Seq::new(
        s.len() / 2,
        |i: int| (digit_value(s[2 * i]) * 16 + digit_value(s[2 * i + 1])) as u8,
    )
}

/// The value of a single hex digit character, if it is one.
fn hex_digit_of(c: char) -> (r: Option<u8>)
    ensures
        is_hex_digit(c) ==> r == Some(digit_value(c) as u8),
        !is_hex_digit(c) ==> r is None,
        r matches Some(d) ==> d <= 15,
{
    let v = c as u32;
    if 48 <= v && v <= 57 {
        Some((v - 48) as u8)
    } else if 97 <= v && v <= 102 {
        Some((v - 87) as u8)
    } else if 65 <= v && v <= 70 {
        Some((v - 55) as u8)
    } else {
        None
    }
}

/// Decodes a hex digit string pairwise into bytes.
pub fn decode_hex(s: &str) -> (r: Result<Vec<u8>, TxError>)
    ensures
        hex_pairs_ok(s@) ==> (r matches Ok(v) && v@ == hex_bytes(s@)),
        !hex_pairs_ok(s@) ==> r == Err::<Vec<u8>, TxError>(TxError::InvalidHex),
{
    let n = s.unicode_len();
    if n % 2 != 0 {
        return Err(TxError::InvalidHex);
    }
    let mut out: Vec<u8> = Vec::new();
    let mut i: usize = 0;
    while i < n
        invariant
            i <= n,
            n == s@.len(),
            i % 2 == 0,
            n % 2 == 0,
            out@.len() == i / 2,
            forall|j: int| 0 <= j < i ==> is_hex_digit(s@[j]),
            forall|j: int| 0 <= j < i / 2 ==> out@[j] == hex_bytes(s@)[j],
        decreases n - i,
    {
        let c0 = s.get_char(i);
        let c1 = s.get_char(i + 1);
        let d0 = match hex_digit_of(c0) {
            Some(d) => d,
            None => {
                return Err(TxError::InvalidHex);
            },
        };
        let d1 = match hex_digit_of(c1) {
            Some(d) => d,
            None => {
                return Err(TxError::InvalidHex);
            },
        };
        out.push(d0 * 16 + d1);
        proof {
            assert(2 * ((i as int) / 2) == i as int);
            assert(out@[i as int / 2] == hex_bytes(s@)[i as int / 2]);
        }
        i = i + 2;
    }
    proof {
        assert(out@ =~= hex_bytes(s@));
    }
    Ok(out)
}

/// Exactly forty hex digits: the text of a 20-byte address.
pub open spec fn address_chars_ok(s: Seq<char>) -> bool {
    s.len() == 40 && hex_pairs_ok(s)
}

/// Parses a 40-hex-digit token (no prefix) into a 20-byte address.
pub fn parse_eth_address(s: &str) -> (r: Option<Address>)
    ensures
        address_chars_ok(s@) ==> (r matches Some(a) && a@ == hex_bytes(s@)),
        !address_chars_ok(s@) ==> r is None,
{
    let n = s.unicode_len();
    if n != 40 {
        return None;
    }
    match decode_hex(s) {
        Ok(v) => {
            let mut a: Address = [0u8; 20];
            let mut i: usize = 0;
            while i < 20
                invariant
                    i <= 20,
                    v@ == hex_bytes(s@),
                    v@.len() == 20,
                    forall|j: int| 0 <= j < i ==> a@[j] == v@[j],
                decreases 20 - i,
            {
                a[i] = v[i];
                i = i + 1;
            }
            proof {
                assert(a@ =~= hex_bytes(s@));
            }
            Some(a)
        },
        Err(_) => None,
    }
}

} // verus!
