//! Small text helpers: writing numbers as digits.
use vstd::prelude::*;

verus! {

/// Appends one character to the end of a string.
///
/// Wraps `String::push`, whose documentation says that it appends the given
/// `char` to the end of the `String`.
#[verifier::external_body]
pub(crate) fn push_char(s: &mut String, c: char)
    ensures
        final(s)@ == old(s)@.push(c),
{
    s.push(c);
}

/// The lowercase digit for a value below sixteen.
pub open spec fn digit_char(d: nat) -> char {
    if d < 10 {
        (('0' as u8) + d) as char
    } else {
        (('a' as u8) + d - 10) as char
    }
}

/// The digits of `n` in base `radix`, most significant first, with no
/// leading zeros (`0` is written `"0"`).
pub open spec fn radix_digits(n: nat, radix: nat) -> Seq<char>
    recommends
        2 <= radix <= 16,
    decreases n,
{
    if radix < 2 || n < radix {
        seq![digit_char(n)]
    } else {
        proof {
            assert(n / radix < n) by (nonlinear_arith)
                requires
                    radix >= 2,
                    n >= radix,
            ;
        }
        radix_digits(n / radix, radix).push(digit_char(n % radix))
    }
}

/// The decimal digits of `n`.
pub open spec fn decimal_digits(n: nat) -> Seq<char> {
    radix_digits(n, 10)
}

/// The lowercase hexadecimal digits of `n`.
pub open spec fn hex_digits(n: nat) -> Seq<char> {
    radix_digits(n, 16)
}

/// Writes `n` in base `radix`, with lowercase letters for the digits past 9.
pub fn u64_to_radix(n: u64, radix: u64) -> (r: String)
    requires
        2 <= radix <= 16,
    ensures
        r@ == radix_digits(n as nat, radix as nat),
{
    let mut digits: Vec<char> = Vec::new();
    let mut m: u64 = n;
    // digits holds the low-order digits of n, least significant first
    loop
        invariant_except_break
            m <= n,
            2 <= radix <= 16,
            radix_digits(n as nat, radix as nat) == radix_digits(m as nat, radix as nat)
                + digits@.reverse(),
        ensures
            radix_digits(n as nat, radix as nat) == digits@.reverse(),
        decreases m,
    {
        let d: u64 = m % radix;
        let c: char = if d < 10 {
            (48u8 + (d as u8)) as char
        } else {
            (87u8 + (d as u8)) as char
        };
        proof {
            assert(c == digit_char(d as nat));
            if m >= radix {
                assert(radix_digits(m as nat, radix as nat) == radix_digits(
                    (m / radix) as nat,
                    radix as nat,
                ).push(digit_char((m % radix) as nat)));
                assert(digits@.push(c).reverse() =~= seq![c] + digits@.reverse());
            }
        }
        if m < radix {
            digits.push(c);
            proof {
                assert(d == m) by (nonlinear_arith)
                    requires
                        d == m % radix,
                        m < radix,
                ;
                assert(radix_digits(m as nat, radix as nat) == seq![c]);
            }
            break;
        }
        digits.push(c);
        m = m / radix;
    }
    let mut r = String::new();
    let mut i: usize = digits.len();
    while i > 0
        invariant
            i <= digits.len(),
            r@ == digits@.subrange(i as int, digits.len() as int).reverse(),
        decreases i,
    {
        i = i - 1;
        push_char(&mut r, digits[i]);
        proof {
            assert(digits@.subrange(i as int, digits.len() as int).reverse() =~= digits@.subrange(
                i + 1,
                digits.len() as int,
            ).reverse().push(digits@[i as int]));
        }
    }
    proof {
        assert(digits@.subrange(0, digits.len() as int) =~= digits@);
    }
    r
}

/// Writes `n` in decimal.
pub fn u64_to_decimal(n: u64) -> (r: String)
    ensures
        r@ == decimal_digits(n as nat),
{
    u64_to_radix(n, 10)
}

/// Writes `n` in lowercase hexadecimal.
pub fn u64_to_hex(n: u64) -> (r: String)
    ensures
        r@ == hex_digits(n as nat),
{
    u64_to_radix(n, 16)
}

/// The lowercase hexadecimal digit for a value below sixteen.
pub open spec fn hex_digit(d: u8) -> char {
    if d < 10 {
        ((48 + d) as u8) as char
    } else {
        ((87 + d) as u8) as char
    }
}

/// The two lowercase hexadecimal digits of a byte.
pub open spec fn hex_byte(b: u8) -> Seq<char> {
    seq![hex_digit(b / 16), hex_digit(b % 16)]
}

/// The hexadecimal digits of the bytes `b`, two for each byte.
pub open spec fn hex_bytes(b: Seq<u8>) -> Seq<char>
    decreases b.len(),
{
    if b.len() == 0 {
        seq![]
    } else {
        hex_bytes(b.drop_last()) + hex_byte(b.last())
    }
}

/// The lowercase hexadecimal digit for a value below sixteen.
pub fn hex_digit_char(d: u8) -> (c: char)
    requires
        d < 16,
    ensures
        c == hex_digit(d),
{
    if d < 10 {
        (48 + d) as char
    } else {
        (87 + d) as char
    }
}

/// Writes `bytes` in lowercase hexadecimal, two digits for each byte.
pub fn bytes_to_hex(bytes: &[u8]) -> (r: String)
    ensures
        r@ == hex_bytes(bytes@),
{
    let mut s = String::new();
    let mut i: usize = 0;
    while i < bytes.len()
        invariant
            i <= bytes@.len(),
            s@ == hex_bytes(bytes@.take(i as int)),
        decreases bytes@.len() - i,
    {
        let b = bytes[i];
        push_char(&mut s, hex_digit_char(b / 16));
        push_char(&mut s, hex_digit_char(b % 16));
        proof {
            assert(bytes@.take(i + 1).drop_last() =~= bytes@.take(i as int));
            assert(s@ =~= hex_bytes(bytes@.take(i + 1)));
        }
        i = i + 1;
    }
    proof {
        assert(bytes@.take(i as int) =~= bytes@);
    }
    s
}

/// `c` with an ASCII uppercase letter made lowercase.
pub open spec fn ascii_lower(c: char) -> char {
    if 'A' <= c && c <= 'Z' {
        ((c as u32) + 32) as char
    } else {
        c
    }
}

/// Whether `a` and `b` are the same text once ASCII letters are lowercased.
pub open spec fn eq_ignore_ascii_case(a: Seq<char>, b: Seq<char>) -> bool {
    a.len() == b.len() && forall|i: int| 0 <= i < a.len() ==> ascii_lower(a[i]) == ascii_lower(b[i])
}

/// `c` with an ASCII uppercase letter made lowercase.
pub fn lower_char(c: char) -> (r: char)
    ensures
        r == ascii_lower(c),
{
    if 'A' <= c && c <= 'Z' {
        ((c as u8) + 32) as char
    } else {
        c
    }
}

/// Whether `a` and `b` are the same text once ASCII letters are lowercased.
pub fn str_eq_ignore_ascii_case(a: &str, b: &str) -> (r: bool)
    ensures
        r == eq_ignore_ascii_case(a@, b@),
{
    let n = a.unicode_len();
    if n != b.unicode_len() {
        return false;
    }
    let mut i: usize = 0;
    while i < n
        invariant
            i <= n,
            n == a@.len(),
            n == b@.len(),
            forall|j: int| 0 <= j < i ==> ascii_lower(a@[j]) == ascii_lower(b@[j]),
        decreases n - i,
    {
        if lower_char(a.get_char(i)) != lower_char(b.get_char(i)) {
            return false;
        }
        i = i + 1;
    }
    true
}


/// Each byte is written with exactly two hexadecimal digits.
pub proof fn hex_bytes_has_two_digits_per_byte(b: Seq<u8>)
    ensures
        hex_bytes(b).len() == 2 * b.len(),
    decreases b.len(),
{
    if b.len() > 0 {
        hex_bytes_has_two_digits_per_byte(b.drop_last());
    }
}

/// The value of a digit character: `0`-`9` are zero to nine, `a`-`f` ten
/// to fifteen.
pub open spec fn digit_value(c: char) -> int {
    if c <= '9' {
        c as int - 48
    } else {
        c as int - 87
    }
}

/// The number that the digits `s` write in base `radix`, most significant
/// first.
pub open spec fn digits_value(s: Seq<char>, radix: nat) -> int
    decreases s.len(),
{
    if s.len() == 0 {
        0
    } else {
        digits_value(s.drop_last(), radix) * radix + digit_value(s.last())
    }
}

/// Writing a number in a base and reading the digits back gives the
/// number; every digit is below the base, and there is no leading zero.
pub proof fn radix_digits_read_back(n: nat, radix: nat)
    requires
        2 <= radix <= 16,
    ensures
        digits_value(radix_digits(n, radix), radix) == n,
        forall|i: int|
            0 <= i < radix_digits(n, radix).len() ==> 0 <= digit_value(#[trigger] radix_digits(n, radix)[i])
                < radix,
        radix_digits(n, radix).len() >= 1,
        radix_digits(n, radix)[0] == '0' ==> n == 0,
    decreases n,
{
    if n >= radix {
        assert(n / radix < n) by (nonlinear_arith)
            requires
                radix >= 2,
                n >= radix,
        ;
        radix_digits_read_back(n / radix, radix);
        let front = radix_digits(n / radix, radix);
        let d = digit_char(n % radix);
        assert(radix_digits(n, radix) == front.push(d));
        assert(radix_digits(n, radix).drop_last() =~= front);
        assert(n % radix < radix) by (nonlinear_arith)
            requires
                radix >= 2,
        ;
        assert(digit_value(d) == n % radix);
        assert(n == (n / radix) * radix + n % radix) by (nonlinear_arith)
            requires
                radix >= 2,
        ;
        assert forall|i: int| 0 <= i < radix_digits(n, radix).len() implies 0 <= digit_value(
            #[trigger] radix_digits(n, radix)[i],
        ) < radix by {
            if i < front.len() {
                assert(radix_digits(n, radix)[i] == front[i]);
            }
        }
        assert(n / radix >= 1) by (nonlinear_arith)
            requires
                radix >= 2,
                n >= radix,
        ;
        assert(radix_digits(n, radix)[0] == front[0]);
    } else {
        assert(digit_value(digit_char(n)) == n);
        assert(digits_value(seq![digit_char(n)].drop_last(), radix) == 0) by {
            assert(seq![digit_char(n)].drop_last() =~= Seq::<char>::empty());
        }
    }
}

/// The hexadecimal text of bytes gives each byte's high four bits, then its
/// low four bits, as digits: two characters per byte, in order.
pub proof fn hex_bytes_spell_each_byte(b: Seq<u8>)
    ensures
        hex_bytes(b).len() == 2 * b.len(),
        forall|i: int|
            0 <= i < b.len() ==> digit_value(#[trigger] hex_bytes(b)[2 * i]) == b[i] / 16 && digit_value(
                hex_bytes(b)[2 * i + 1],
            ) == b[i] % 16,
    decreases b.len(),
{
    hex_bytes_has_two_digits_per_byte(b);
    if b.len() > 0 {
        let front = b.drop_last();
        hex_bytes_spell_each_byte(front);
        hex_bytes_has_two_digits_per_byte(front);
        assert forall|i: int| 0 <= i < b.len() implies digit_value(#[trigger] hex_bytes(b)[2 * i]) == b[i]
            / 16 && digit_value(hex_bytes(b)[2 * i + 1]) == b[i] % 16 by {
            if i < front.len() {
                assert(hex_bytes(b)[2 * i] == hex_bytes(front)[2 * i]);
                assert(hex_bytes(b)[2 * i + 1] == hex_bytes(front)[2 * i + 1]);
                assert(front[i] == b[i]);
            } else {
                let hb = hex_byte(b.last());
                assert(hex_bytes(b)[2 * i] == hb[0]);
                assert(hex_bytes(b)[2 * i + 1] == hb[1]);
            }
        }
    }
}

/// Two byte sequences with the same hexadecimal text are the same bytes.
pub proof fn hex_bytes_are_injective(a: Seq<u8>, b: Seq<u8>)
    ensures
        hex_bytes(a) == hex_bytes(b) ==> a == b,
{
    if hex_bytes(a) == hex_bytes(b) {
        hex_bytes_spell_each_byte(a);
        hex_bytes_spell_each_byte(b);
        assert forall|i: int| 0 <= i < a.len() implies a[i] == b[i] by {
            assert(digit_value(hex_bytes(a)[2 * i]) == a[i] / 16);
            assert(digit_value(hex_bytes(b)[2 * i]) == b[i] / 16);
            assert(digit_value(hex_bytes(a)[2 * i + 1]) == a[i] % 16);
            assert(digit_value(hex_bytes(b)[2 * i + 1]) == b[i] % 16);
        }
        assert(a =~= b);
    }
}

} // verus!
