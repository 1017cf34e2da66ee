//! Text helpers: lossy UTF-8 decoding, decimal numbers and hexadecimal.
use vstd::prelude::*;
use vstd::string::{StringExecFns, StringSliceAdditionalSpecFns};

verus! {

/// What `String::from_utf8_lossy` makes of `bytes`.
pub uninterp spec fn utf8_lossy(bytes: Seq<u8>) -> Seq<char>;

/// Calls `String::from_utf8_lossy`. Its result is named `utf8_lossy`; for
/// valid UTF-8 the documentation promises the decoded text itself.
#[verifier::external_body]
pub(crate) fn string_from_utf8_lossy(bytes: &[u8]) -> (r: String)
    ensures
        r@ == utf8_lossy(bytes@),
        vstd::utf8::valid_utf8(bytes@) ==> r@ == vstd::utf8::decode_utf8(bytes@),
{
    String::from_utf8_lossy(bytes).into_owned()
}

} // verus!

verus! {

// ---------------------------------------------------------------------------
// Decimal numbers
// ---------------------------------------------------------------------------

/// Why a text is not a `u32`, as `str::parse::<u32>` reports it.
#[derive(Clone, Copy, Debug, PartialEq, Eq)]
pub enum IntErrorKind {
    /// The text is empty.
    Empty,
    /// The text holds a character that is not a decimal digit.
    InvalidDigit,
    /// The number is larger than `u32::MAX`.
    PosOverflow,
}

pub open spec fn is_ascii_digit(b: u8) -> bool {
    0x30 <= b <= 0x39
}

/// The result of reading the decimal digits `d` after the value `acc` read
/// so far: digits are read left to right, and the first character that is
/// not a digit, or the first digit that takes the value past `u32::MAX`,
/// decides the error.
pub open spec fn parse_digits(d: Seq<u8>, acc: int) -> Result<u32, IntErrorKind>
    decreases d.len(),
{
    if d.len() == 0 {
        Ok(acc as u32)
    } else if !is_ascii_digit(d[0]) {
        Err(IntErrorKind::InvalidDigit)
    } else if acc * 10 + (d[0] - 0x30) > u32::MAX {
        Err(IntErrorKind::PosOverflow)
    } else {
        parse_digits(d.drop_first(), acc * 10 + (d[0] - 0x30))
    }
}

/// What `str::parse::<u32>` gives for the UTF-8 bytes `s`: one leading `+`
/// is allowed before the digits.
pub open spec fn parse_u32_spec(s: Seq<u8>) -> Result<u32, IntErrorKind> {
    if s.len() == 0 {
        Err(IntErrorKind::Empty)
    } else if (s[0] == 0x2b || s[0] == 0x2d) && s.len() == 1 {
        Err(IntErrorKind::InvalidDigit)
    } else if s[0] == 0x2b {
        parse_digits(s.drop_first(), 0)
    } else {
        parse_digits(s, 0)
    }
}

/// Parses a decimal `u32` as `str::parse::<u32>` does.
pub fn parse_u32(s: &str) -> (r: Result<u32, IntErrorKind>)
    ensures
        r == parse_u32_spec(s.spec_bytes()),
{
    let b = s.as_bytes();
    let n = b.len();
    if n == 0 {
        return Err(IntErrorKind::Empty);
    }
    if (b[0] == 0x2b || b[0] == 0x2d) && n == 1 {
        return Err(IntErrorKind::InvalidDigit);
    }
    let mut i: usize = if b[0] == 0x2b { 1 } else { 0 };
    let mut acc: u32 = 0;
    proof {
        assert(b@.skip(i as int) =~= if b@[0] == 0x2b { b@.drop_first() } else { b@ });
    }
    while i < n
        invariant
            n == b@.len(),
            b@ == s.spec_bytes(),
            0 <= i <= n,
            parse_u32_spec(b@) == parse_digits(b@.skip(i as int), acc as int),
        decreases n - i,
    {
        let c = b[i];
        proof {
            assert(b@.skip(i as int)[0] == c);
            assert(b@.skip(i as int).drop_first() =~= b@.skip(i + 1));
        }
        if c < 0x30 || c > 0x39 {
            return Err(IntErrorKind::InvalidDigit);
        }
        let d = (c - 0x30) as u32;
        if acc > 429496729 || (acc == 429496729 && d > 5) {
            return Err(IntErrorKind::PosOverflow);
        }
        acc = acc * 10 + d;
        i = i + 1;
    }
    proof {
        assert(b@.skip(i as int).len() == 0);
    }
    Ok(acc)
}

/// The message that `ParseIntError` displays for each kind.
pub fn int_error_message(kind: IntErrorKind) -> (r: String)
    ensures
        r@ == int_error_text(kind),
{
    match kind {
        IntErrorKind::Empty => String::from_str("cannot parse integer from empty string"),
        IntErrorKind::InvalidDigit => String::from_str("invalid digit found in string"),
        IntErrorKind::PosOverflow => String::from_str("number too large to fit in target type"),
    }
}

pub open spec fn int_error_text(kind: IntErrorKind) -> Seq<char> {
    match kind {
        IntErrorKind::Empty => "cannot parse integer from empty string"@,
        IntErrorKind::InvalidDigit => "invalid digit found in string"@,
        IntErrorKind::PosOverflow => "number too large to fit in target type"@,
    }
}

/// The decimal digit character for `d` (0 to 9).
pub open spec fn digit_char(d: int) -> char {
    (0x30 + d) as char
}

/// The decimal representation of `n`, without leading zeros.
pub open spec fn decimal(n: nat) -> Seq<char>
    decreases n,
{
    if n < 10 {
        seq![digit_char(n as int)]
    } else {
        decimal(n / 10).push(digit_char((n % 10) as int))
    }
}

/// A `u32` has at most ten decimal digits.
pub proof fn lemma_decimal_len(n: nat)
    ensures
        n <= u32::MAX ==> decimal(n).len() <= 10,
        decimal(n).len() >= 1,
    decreases n,
{
    if n >= 10 {
        lemma_decimal_len(n / 10);
        if n <= u32::MAX {
            assert(decimal(n / 10).len() <= 9) by {
                reveal_with_fuel(pow10, 10);
                assert(pow10(9) == 1000000000);
                lemma_decimal_len_bound(n / 10, 9);
            }
        }
    }
}

/// A number under `10^k` has at most `k` decimal digits.
proof fn lemma_decimal_len_bound(n: nat, k: nat)
    requires
        k >= 1,
        n < pow10(k),
    ensures
        decimal(n).len() <= k,
    decreases n,
{
    if n >= 10 {
        if k == 1 {
        } else {
            lemma_pow10_step((k - 1) as nat);
            lemma_decimal_len_bound(n / 10, (k - 1) as nat);
        }
    }
}

pub open spec fn pow10(k: nat) -> nat
    decreases k,
{
    if k == 0 {
        1
    } else {
        10 * pow10((k - 1) as nat)
    }
}

proof fn lemma_pow10_step(k: nat)
    ensures
        pow10(k + 1) == 10 * pow10(k),
{
}

/// Appends the decimal digits of `n`, without leading zeros.
fn push_decimal(s: &mut String, n: u64)
    ensures
        final(s)@ == old(s)@ + decimal(n as nat),
    decreases n,
{
    if n >= 10 {
        push_decimal(s, n / 10);
    }
    let d = (n % 10) as u8;
    s.append(hex_digit_str(d));
    proof {
        assert(hex_char(d as int) == digit_char(d as int));
        if n >= 10 {
            assert(old(s)@ + decimal(n as nat) =~= old(s)@ + decimal((n / 10) as nat) + seq![
                digit_char((n % 10) as int),
            ]);
        }
    }
}

/// `n` in decimal without leading zeros, as integers display.
pub(crate) fn u32_to_string(n: u32) -> (r: String)
    ensures
        r@ == decimal(n as nat),
{
    let mut s = String::new();
    push_decimal(&mut s, n as u64);
    assert(s@ =~= decimal(n as nat));
    s
}

/// `n` in decimal without leading zeros, as integers display.
pub(crate) fn u64_to_string(n: u64) -> (r: String)
    ensures
        r@ == decimal(n as nat),
{
    let mut s = String::new();
    push_decimal(&mut s, n);
    assert(s@ =~= decimal(n as nat));
    s
}

/// `v` in decimal, with a minus sign in front where it is negative.
pub open spec fn signed_decimal(v: int) -> Seq<char> {
    if v < 0 {
        "-"@ + decimal((-v) as nat)
    } else {
        decimal(v as nat)
    }
}

/// `n` in decimal, as signed integers display.
pub(crate) fn i32_to_string(n: i32) -> (r: String)
    ensures
        r@ == signed_decimal(n as int),
{
    let mut s = String::new();
    if n < 0 {
        s.append("-");
        let m: i64 = n as i64;
        push_decimal(&mut s, (-m) as u64);
    } else {
        push_decimal(&mut s, n as u64);
    }
    assert(s@ =~= signed_decimal(n as int));
    s
}

/// The lowercase hexadecimal digit character for `d` (0 to 15).
pub open spec fn hex_char(d: int) -> char {
    if d < 10 {
        (0x30 + d) as char
    } else {
        (0x57 + d) as char
    }
}

/// The lowercase hexadecimal representation of `n`, without leading zeros.
pub open spec fn lower_hex(n: nat) -> Seq<char>
    decreases n,
{
    if n < 16 {
        seq![hex_char(n as int)]
    } else {
        lower_hex(n / 16).push(hex_char((n % 16) as int))
    }
}

/// Appends the lowercase hexadecimal digits of `n`, without leading zeros.
fn push_lower_hex(s: &mut String, n: u32)
    ensures
        final(s)@ == old(s)@ + lower_hex(n as nat),
    decreases n,
{
    if n >= 16 {
        push_lower_hex(s, n / 16);
    }
    s.append(hex_digit_str((n % 16) as u8));
    proof {
        if n >= 16 {
            assert(old(s)@ + lower_hex(n as nat) =~= old(s)@ + lower_hex((n / 16) as nat) + seq![
                hex_char((n % 16) as int),
            ]);
        }
    }
}

/// `v` as `{:#x}` shows it: `0x`, then its lowercase hexadecimal digits
/// without leading zeros.
pub(crate) fn format_alt_hex_u16(v: u16) -> (r: String)
    ensures
        r@ == "0x"@ + lower_hex(v as nat),
{
    let mut s = String::from_str("0x");
    push_lower_hex(&mut s, v as u32);
    s
}

/// `v` as `{:x}` shows it: its lowercase hexadecimal digits without
/// leading zeros.
pub(crate) fn format_lower_hex_u32(v: u32) -> (r: String)
    ensures
        r@ == lower_hex(v as nat),
{
    let mut s = String::new();
    push_lower_hex(&mut s, v);
    assert(s@ =~= lower_hex(v as nat));
    s
}

/// The lowercase hexadecimal encoding of `bytes`, two digits per byte.
pub open spec fn hex_lower(bytes: Seq<u8>) -> Seq<char>
    decreases bytes.len(),
{
    if bytes.len() == 0 {
        Seq::empty()
    } else {
        seq![hex_char((bytes[0] / 16) as int), hex_char((bytes[0] % 16) as int)] + hex_lower(
            bytes.drop_first(),
        )
    }
}

/// Calls `hex::encode`: two lowercase hexadecimal digits per byte.
#[verifier::external_body]
pub(crate) fn hex_encode(bytes: &[u8]) -> (r: String)
    ensures
        r@ == hex_lower(bytes@),
{
    hex::encode(bytes)
}


/// The one-character text of the hexadecimal digit `d`.
fn hex_digit_str(d: u8) -> (r: &'static str)
    requires
        d < 16,
    ensures
        r@ == seq![hex_char(d as int)],
{
    match d {
        0 => { proof { reveal_strlit("0"); } "0" },
        1 => { proof { reveal_strlit("1"); } "1" },
        2 => { proof { reveal_strlit("2"); } "2" },
        3 => { proof { reveal_strlit("3"); } "3" },
        4 => { proof { reveal_strlit("4"); } "4" },
        5 => { proof { reveal_strlit("5"); } "5" },
        6 => { proof { reveal_strlit("6"); } "6" },
        7 => { proof { reveal_strlit("7"); } "7" },
        8 => { proof { reveal_strlit("8"); } "8" },
        9 => { proof { reveal_strlit("9"); } "9" },
        10 => { proof { reveal_strlit("a"); } "a" },
        11 => { proof { reveal_strlit("b"); } "b" },
        12 => { proof { reveal_strlit("c"); } "c" },
        13 => { proof { reveal_strlit("d"); } "d" },
        14 => { proof { reveal_strlit("e"); } "e" },
        _ => { proof { reveal_strlit("f"); } "f" },
    }
}

/// Appends the two lowercase hexadecimal digits of `v` (what `{:02x}`
/// writes for a byte).
pub fn push_hex_byte(s: &mut String, v: u8)
    ensures
        final(s)@ == old(s)@ + seq![hex_char((v / 16) as int), hex_char((v % 16) as int)],
{
    s.append(hex_digit_str(v / 16));
    s.append(hex_digit_str(v % 16));
}


} // verus!
