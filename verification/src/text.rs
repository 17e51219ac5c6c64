//! Text helpers: building strings character by character, hexadecimal and
//! decimal digits, and decoding bytes as UTF-8.

use vstd::prelude::*;
use vstd::utf8::{decode_utf8, valid_utf8};

verus! {

/// What `String::from_utf8_lossy` makes of `bytes`: the decoded text, with
/// each invalid sequence replaced by U+FFFD.
pub uninterp spec fn lossy_utf8(bytes: Seq<u8>) -> Seq<char>;

/// The text that lenient UTF-8 decoding gives for `bytes`: exactly the
/// decoded characters where the bytes are valid UTF-8.
pub open spec fn utf8_text(bytes: Seq<u8>) -> Seq<char> {
    if valid_utf8(bytes) {
        decode_utf8(bytes)
    } else {
        lossy_utf8(bytes)
    }
}

/// Appends one character (`String::push`).
///
/// Trusted: states that `String::push` appends `c` to the characters of `s`,
/// as its documentation says.
#[verifier::external_body]
pub(crate) fn push_char(s: &mut String, c: char)
    ensures
        final(s)@ == old(s)@.push(c),
{
    s.push(c);
}

/// Decodes bytes as UTF-8, replacing invalid sequences
/// (`String::from_utf8_lossy`).
///
/// Trusted: states that valid UTF-8 is decoded exactly, as the
/// documentation of `String::from_utf8_lossy` says, and that other input
/// gives `lossy_utf8` of the bytes.  What replaces an invalid sequence is
/// left to that name.
#[verifier::external_body]
pub(crate) fn utf8_lossy(bytes: &[u8]) -> (r: String)
    ensures
        valid_utf8(bytes@) ==> r@ == decode_utf8(bytes@),
        !valid_utf8(bytes@) ==> r@ == lossy_utf8(bytes@),
{
    String::from_utf8_lossy(bytes).into_owned()
}

/// The upper-case hexadecimal digit for a value below 16.
pub open spec fn hex_digit(n: u8) -> char {
    if n < 10 {
        (('0' as u8) + n) as char
    } else {
        (('A' as u8) + (n - 10)) as char
    }
}

/// Two upper-case hexadecimal digits for a byte.
pub open spec fn hex_byte_text(b: u8) -> Seq<char> {
    seq![hex_digit(b / 16), hex_digit(b % 16)]
}

/// A MAC address as six two-digit upper-case hexadecimal groups separated
/// by colons.
pub open spec fn mac_text(mac: Seq<u8>) -> Seq<char> {
    hex_byte_text(mac[0]) + seq![':'] + hex_byte_text(mac[1]) + seq![':'] + hex_byte_text(mac[2]) + seq![':']
        + hex_byte_text(mac[3]) + seq![':'] + hex_byte_text(mac[4]) + seq![':'] + hex_byte_text(mac[5])
}

fn hex_char(n: u8) -> (r: char)
    requires
        n < 16,
    ensures
        r == hex_digit(n),
{
    if n < 10 {
        (('0' as u8) + n) as char
    } else {
        (('A' as u8) + (n - 10)) as char
    }
}

fn push_hex_byte(s: &mut String, b: u8)
    ensures
        final(s)@ == old(s)@ + hex_byte_text(b),
{
    push_char(s, hex_char(b / 16));
    push_char(s, hex_char(b % 16));
    assert(s@ =~= old(s)@ + hex_byte_text(b));
}

/// Formats a MAC address as `XX:XX:XX:XX:XX:XX` (upper-case hexadecimal).
pub fn mac_to_string(mac: &[u8; 6]) -> (r: String)
    ensures
        r@ == mac_text(mac@),
{
    let mut s = String::new();
    let mut i: usize = 0;
    while i < 6
        invariant
            i <= 6,
            mac@.len() == 6,
            i == 0 ==> s@ == Seq::<char>::empty(),
            i >= 1 ==> s@ == mac_prefix_text(mac@, i as int),
        decreases 6 - i,
    {
        if i > 0 {
            push_char(&mut s, ':');
        }
        push_hex_byte(&mut s, mac[i]);
        proof {
            if i == 0 {
                assert(s@ =~= mac_prefix_text(mac@, 1));
            } else {
                assert(s@ =~= mac_prefix_text(mac@, i + 1));
            }
        }
        i = i + 1;
    }
    assert(mac_prefix_text(mac@, 6) =~= mac_text(mac@)) by {
        reveal_with_fuel(mac_prefix_text, 6);
    }
    s
}

/// The first `n` groups of a MAC address text (`n >= 1`).
pub open spec fn mac_prefix_text(mac: Seq<u8>, n: int) -> Seq<char>
    decreases n,
{
    if n <= 1 {
        hex_byte_text(mac[0])
    } else {
        mac_prefix_text(mac, n - 1) + seq![':'] + hex_byte_text(mac[n - 1])
    }
}

/// The decimal digits of a byte, without leading zeros.
pub open spec fn decimal_text(b: u8) -> Seq<char> {
    if b < 10 {
        seq![(('0' as u8) + b) as char]
    } else if b < 100 {
        seq![(('0' as u8) + b / 10) as char, (('0' as u8) + b % 10) as char]
    } else {
        seq![(('0' as u8) + b / 100) as char, (('0' as u8) + (b / 10) % 10) as char, (('0' as u8) + b % 10) as char]
    }
}

/// An IPv4 address in dotted decimal form.
pub open spec fn dotted_text(ip: Seq<u8>) -> Seq<char> {
    decimal_text(ip[0]) + seq!['.'] + decimal_text(ip[1]) + seq!['.'] + decimal_text(ip[2]) + seq!['.']
        + decimal_text(ip[3])
}

fn push_decimal(s: &mut String, b: u8)
    ensures
        final(s)@ == old(s)@ + decimal_text(b),
{
    if b >= 100 {
        push_char(s, (('0' as u8) + b / 100) as char);
    }
    if b >= 10 {
        push_char(s, (('0' as u8) + (b / 10) % 10) as char);
    }
    push_char(s, (('0' as u8) + b % 10) as char);
    proof {
        if b >= 100 {
            assert((b / 10) % 10 == (b / 10) % 10);
        } else if b >= 10 {
            assert((b / 10) % 10 == b / 10);
        }
    }
    assert(s@ =~= old(s)@ + decimal_text(b));
}

/// Formats an IPv4 address in dotted decimal form.
pub fn dotted_decimal(ip: [u8; 4]) -> (r: String)
    ensures
        r@ == dotted_text(ip@),
{
    let mut s = String::new();
    push_decimal(&mut s, ip[0]);
    push_char(&mut s, '.');
    push_decimal(&mut s, ip[1]);
    push_char(&mut s, '.');
    push_decimal(&mut s, ip[2]);
    push_char(&mut s, '.');
    push_decimal(&mut s, ip[3]);
    assert(s@ =~= dotted_text(ip@));
    s
}

/// Whether `c` is one of the decimal digits `0` to `9`.
pub open spec fn is_decimal_digit(c: char) -> bool {
    '0' <= c <= '9'
}

/// The number that a string of decimal digits denotes, most significant
/// digit first.
pub open spec fn numeral_value(s: Seq<char>) -> int
    decreases s.len(),
{
    if s.len() == 0 {
        0
    } else {
        numeral_value(s.drop_last()) * 10 + (s.last() as int - '0' as int)
    }
}

/// `s` is the decimal numeral of `n`: one or more digits, no leading zero,
/// denoting `n`.
pub open spec fn is_numeral_of(s: Seq<char>, n: int) -> bool {
    &&& s.len() >= 1
    &&& forall|i: int| 0 <= i < s.len() ==> is_decimal_digit(#[trigger] s[i])
    &&& (s[0] == '0' ==> s.len() == 1)
    &&& numeral_value(s) == n
}

/// The text of a byte is its decimal numeral: digits only, no leading
/// zero, and read back as a decimal number it gives the byte.
pub proof fn lemma_decimal_text_is_numeral(b: u8)
    ensures
        is_numeral_of(decimal_text(b), b as int),
        decimal_text(b).len() <= 3,
{
    let s = decimal_text(b);
    reveal_with_fuel(numeral_value, 4);
    if b < 10 {
        assert(s.drop_last() =~= Seq::<char>::empty());
    } else if b < 100 {
        assert(s.drop_last() =~= seq![(('0' as u8) + b / 10) as char]);
        assert(s.drop_last().drop_last() =~= Seq::<char>::empty());
        assert(b == (b / 10) * 10 + b % 10);
    } else {
        assert(s.drop_last() =~= seq![(('0' as u8) + b / 100) as char, (('0' as u8) + (b / 10) % 10) as char]);
        assert(s.drop_last().drop_last() =~= seq![(('0' as u8) + b / 100) as char]);
        assert(s.drop_last().drop_last().drop_last() =~= Seq::<char>::empty());
        assert(b == ((b / 100) * 10 + (b / 10) % 10) * 10 + b % 10);
    }
}

/// The dotted text of an address is four decimal numerals separated by
/// dots, one per address byte in order.
pub proof fn lemma_dotted_text_parts(ip: Seq<u8>)
    requires
        ip.len() == 4,
    ensures
        exists|d0: Seq<char>, d1: Seq<char>, d2: Seq<char>, d3: Seq<char>|
            {
                &&& dotted_text(ip) == d0 + seq!['.'] + d1 + seq!['.'] + d2 + seq!['.'] + d3
                &&& is_numeral_of(d0, ip[0] as int)
                &&& is_numeral_of(d1, ip[1] as int)
                &&& is_numeral_of(d2, ip[2] as int)
                &&& is_numeral_of(d3, ip[3] as int)
            },
{
    lemma_decimal_text_is_numeral(ip[0]);
    lemma_decimal_text_is_numeral(ip[1]);
    lemma_decimal_text_is_numeral(ip[2]);
    lemma_decimal_text_is_numeral(ip[3]);
    let (d0, d1, d2, d3) = (decimal_text(ip[0]), decimal_text(ip[1]), decimal_text(ip[2]), decimal_text(ip[3]));
    assert(dotted_text(ip) == d0 + seq!['.'] + d1 + seq!['.'] + d2 + seq!['.'] + d3);
}

} // verus!
