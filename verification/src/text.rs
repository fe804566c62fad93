//! Small text helpers: decimal rendering of integers and string joining.

use vstd::prelude::*;
use vstd::string::*;

verus! {

/// The ASCII digit for `d` (expected below ten).
pub open spec fn digit_char(d: nat) -> char {
    if d == 0 { '0' } else if d == 1 { '1' } else if d == 2 { '2' } else if d == 3 { '3' }
    else if d == 4 { '4' } else if d == 5 { '5' } else if d == 6 { '6' } else if d == 7 { '7' }
    else if d == 8 { '8' } else { '9' }
}

/// Decimal digits of a natural number, most significant first, without leading zeros.
pub open spec fn decimal(n: nat) -> Seq<char>
    decreases n,
{
    if n < 10 { seq![digit_char(n)] } else { decimal(n / 10).push(digit_char(n % 10)) }
}

/// Decimal rendering of a signed integer: a minus sign before the digits of its magnitude.
pub open spec fn signed_decimal(n: int) -> Seq<char> {
    if n < 0 { seq!['-'] + decimal((-n) as nat) } else { decimal(n as nat) }
}

/// Uppercase hexadecimal digit for `d` (expected below sixteen).
pub open spec fn hex_digit_char(d: nat) -> char {
    if d < 10 { digit_char(d) } else if d == 10 { 'A' } else if d == 11 { 'B' } else if d == 12 { 'C' }
    else if d == 13 { 'D' } else if d == 14 { 'E' } else { 'F' }
}

/// Two uppercase hexadecimal digits of a byte.
pub open spec fn hex2(b: u8) -> Seq<char> {
    seq![hex_digit_char((b / 16) as nat), hex_digit_char((b % 16) as nat)]
}

/// The uppercase hexadecimal (or decimal) digit for `d`.
fn digit_text(d: u8) -> (r: &'static str)
    requires
        d < 16,
    ensures
        r@ == seq![hex_digit_char(d as nat)],
{
    proof {
        reveal_strlit("0"); reveal_strlit("1"); reveal_strlit("2"); reveal_strlit("3");
        reveal_strlit("4"); reveal_strlit("5"); reveal_strlit("6"); reveal_strlit("7");
        reveal_strlit("8"); reveal_strlit("9"); reveal_strlit("A"); reveal_strlit("B");
        reveal_strlit("C"); reveal_strlit("D"); reveal_strlit("E"); reveal_strlit("F");
    }
    let r = if d == 0 { "0" } else if d == 1 { "1" } else if d == 2 { "2" } else if d == 3 { "3" }
        else if d == 4 { "4" } else if d == 5 { "5" } else if d == 6 { "6" } else if d == 7 { "7" }
        else if d == 8 { "8" } else if d == 9 { "9" } else if d == 10 { "A" } else if d == 11 { "B" }
        else if d == 12 { "C" } else if d == 13 { "D" } else if d == 14 { "E" } else { "F" };
    assert(r@ =~= seq![hex_digit_char(d as nat)]);
    r
}

/// `n` in decimal, as `u64`'s `Display` renders it.
pub(crate) fn u64_decimal(n: u64) -> (r: String)
    ensures
        r@ == decimal(n as nat),
    decreases n,
{
    if n < 10 {
        String::from_str(digit_text(n as u8))
    } else {
        let mut s = u64_decimal(n / 10);
        let ghost head = s@;
        s.append(digit_text((n % 10) as u8));
        assert(s@ =~= head.push(digit_char((n % 10) as nat)));
        s
    }
}

/// `n` in decimal, as `i64`'s `Display` renders it.
pub(crate) fn i64_decimal(n: i64) -> (r: String)
    ensures
        r@ == signed_decimal(n as int),
{
    if n < 0 {
        let m: u64 = (0i128 - n as i128) as u64;
        let digits = u64_decimal(m);
        proof { reveal_strlit("-"); }
        String::from_str("-").concat(digits.as_str())
    } else {
        u64_decimal(n as u64)
    }
}

/// Two uppercase hexadecimal digits of a byte, as the `{:02X}` format renders them.
pub(crate) fn u8_hex2(b: u8) -> (r: String)
    ensures
        r@ == hex2(b),
{
    let r = String::from_str(digit_text(b / 16)).concat(digit_text(b % 16));
    assert(r@ =~= hex2(b));
    r
}

/// Bit `i` (0 = least significant) of a byte as a character.
pub open spec fn bit_char(b: u8, i: nat) -> char {
    if (b as nat / pow2(i)) % 2 == 1 { '1' } else { '0' }
}

pub open spec fn pow2(i: nat) -> nat
    decreases i,
{
    if i == 0 { 1 } else { 2 * pow2((i - 1) as nat) }
}

/// A byte as the `{:#010b}` format renders it: `0b` and eight binary digits.
pub open spec fn bin8(b: u8) -> Seq<char> {
    seq!['0', 'b', bit_char(b, 7), bit_char(b, 6), bit_char(b, 5), bit_char(b, 4),
        bit_char(b, 3), bit_char(b, 2), bit_char(b, 1), bit_char(b, 0)]
}

proof fn lemma_small_powers()
    ensures
        pow2(0) == 1, pow2(1) == 2, pow2(2) == 4, pow2(3) == 8,
        pow2(4) == 16, pow2(5) == 32, pow2(6) == 64, pow2(7) == 128,
{
    reveal_with_fuel(pow2, 8);
}

/// Bit `i` of a byte as a character.
fn bit_text(b: u8, i: u8) -> (r: &'static str)
    requires
        i < 8,
    ensures
        r@ == seq![bit_char(b, i as nat)],
{
    proof {
        lemma_small_powers();
        reveal_strlit("0");
        reveal_strlit("1");
    }
    let p: u8 = if i == 0 { 1 } else if i == 1 { 2 } else if i == 2 { 4 } else if i == 3 { 8 }
        else if i == 4 { 16 } else if i == 5 { 32 } else if i == 6 { 64 } else { 128 };
    assert(p as nat == pow2(i as nat));
    if (b / p) % 2 == 1 {
        "1"
    } else {
        "0"
    }
}

/// A byte as the `{:#010b}` format renders it.
pub(crate) fn u8_binary(b: u8) -> (r: String)
    ensures
        r@ == bin8(b),
{
    proof { reveal_strlit("0b"); }
    let mut r = String::from_str("0b");
    let mut i: u8 = 8;
    while i > 0
        invariant
            i <= 8,
            r@.len() == 2 + (8 - i),
            r@[0] == '0',
            r@[1] == 'b',
            forall|k: int| 2 <= k < r@.len() ==> #[trigger] r@[k] == bit_char(b, (9 - k) as nat),
        decreases i,
    {
        i = i - 1;
        let ghost before = r@;
        r.append(bit_text(b, i));
        assert(r@ =~= before + seq![bit_char(b, i as nat)]);
    }
    assert(r@ =~= bin8(b));
    r
}

/// Joins two strings.
pub fn join2(a: &str, b: &str) -> (r: String)
    ensures
        r@ == a@ + b@,
{
    String::from_str(a).concat(b)
}

/// Joins three strings.
pub fn join3(a: &str, b: &str, c: &str) -> (r: String)
    ensures
        r@ == a@ + b@ + c@,
{
    String::from_str(a).concat(b).concat(c)
}

/// A literal prefix followed by a decimal number.
pub fn text_then_number(prefix: &str, n: u64) -> (r: String)
    ensures
        r@ == prefix@ + decimal(n as nat),
{
    let digits = u64_decimal(n);
    join2(prefix, digits.as_str())
}

/// A literal prefix, a decimal number and a literal suffix.
pub fn text_with_number(prefix: &str, n: u64, suffix: &str) -> (r: String)
    ensures
        r@ == prefix@ + decimal(n as nat) + suffix@,
{
    let digits = u64_decimal(n);
    join3(prefix, digits.as_str(), suffix)
}

} // verus!
