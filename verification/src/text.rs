//! Text helpers: decimal rendering of numbers and byte-to-text decoding.
use vstd::prelude::*;
use vstd::string::StrSliceExecFns;

verus! {

/// The character of a decimal digit.
pub open spec fn digit_char(d: nat) -> char {
    (48 + d) as char
}

/// Decimal rendering of a natural number, without leading zeros.
pub open spec fn decimal_text(n: nat) -> Seq<char>
    decreases n,
{
    if n < 10 {
        seq![digit_char(n)]
    } else {
        decimal_text(n / 10).push(digit_char(n % 10))
    }
}

/// Decimal rendering padded on the left with `'0'` to at least `width` characters.
pub open spec fn zero_padded(n: nat, width: nat) -> Seq<char> {
    let t = decimal_text(n);
    if t.len() < width {
        Seq::new((width - t.len()) as nat, |_i: int| '0') + t
    } else {
        t
    }
}

/// Appends one character to a string.
///
/// Calls `String::push`, which appends the character at the end of the
/// string; the contract states exactly that.
#[verifier::external_body]
pub(crate) fn push_char(s: &mut String, c: char)
    ensures
        final(s)@ == old(s)@.push(c),
{
    s.push(c);
}

/// Appends the decimal rendering of `v` to `s`.
pub fn push_decimal(s: &mut String, v: u64)
    ensures
        final(s)@ == old(s)@ + decimal_text(v as nat),
    decreases v,
{
    if v >= 10 {
        push_decimal(s, v / 10);
    }
    let d: u64 = v % 10;
    let c: char = ((48u8 + d as u8) as char);
    push_char(s, c);
    proof {
        if v >= 10 {
            assert(decimal_text(v as nat) == decimal_text((v / 10) as nat).push(
                digit_char((v % 10) as nat),
            ));
        }
        assert(final(s)@ =~= old(s)@ + decimal_text(v as nat));
    }
}

/// The character of an upper-case hexadecimal digit.
pub open spec fn hex_digit_char(d: nat) -> char {
    if d < 10 {
        (48 + d) as char
    } else {
        (55 + d) as char
    }
}

/// Upper-case hexadecimal rendering of a natural number, without leading
/// zeros.
pub open spec fn hex_text(n: nat) -> Seq<char>
    decreases n,
{
    if n < 16 {
        seq![hex_digit_char(n)]
    } else {
        hex_text(n / 16).push(hex_digit_char(n % 16))
    }
}

/// Appends the upper-case hexadecimal rendering of `v` to `s`.
pub fn push_hex(s: &mut String, v: u64)
    ensures
        final(s)@ == old(s)@ + hex_text(v as nat),
    decreases v,
{
    if v >= 16 {
        push_hex(s, v / 16);
    }
    let d: u8 = (v % 16) as u8;
    let c: char = if d < 10 {
        (48u8 + d) as char
    } else {
        (55u8 + d) as char
    };
    push_char(s, c);
    proof {
        if v >= 16 {
            assert(hex_text(v as nat) == hex_text((v / 16) as nat).push(
                hex_digit_char((v % 16) as nat),
            ));
        }
        assert(final(s)@ =~= old(s)@ + hex_text(v as nat));
    }
}

/// Number of characters of the decimal rendering of `v`.
pub fn decimal_len(v: u64) -> (r: usize)
    ensures
        r as nat == decimal_text(v as nat).len(),
        1 <= r <= 20,
    decreases v,
{
    if v < 10 {
        1
    } else {
        let r = decimal_len(v / 10);
        proof {
            lemma_decimal_len_bound((v / 10) as nat);
        }
        r + 1
    }
}

/// The decimal rendering of a number below 10^k has at most k digits.
proof fn lemma_decimal_len_bound(n: nat)
    requires
        n < 0x1999_9999_9999_999A,
    ensures
        decimal_text(n).len() <= 19,
{
    reveal_with_fuel(pow10, 20);
    assert(pow10(19) == 10000000000000000000nat);
    lemma_decimal_len_le(n, 19);
}

proof fn lemma_decimal_len_le(n: nat, k: nat)
    requires
        k >= 1,
        n < pow10(k),
    ensures
        decimal_text(n).len() <= k,
    decreases k,
{
    if n >= 10 {
        if k == 1 {
            assert(pow10(1) == 10 * pow10(0));
        } else {
            assert(pow10(k) == 10 * pow10((k - 1) as nat));
            assert(n / 10 < pow10((k - 1) as nat));
            lemma_decimal_len_le(n / 10, (k - 1) as nat);
        }
    }
}

pub open spec fn pow10(k: nat) -> nat
    decreases k,
{
    if k == 0 {
        1
    } else {
        10 * pow10((k - 1) as nat)
    }
}

/// Appends `v` in decimal, padded with leading zeros to `width` characters.
pub fn push_zero_padded(s: &mut String, v: u64, width: usize)
    ensures
        final(s)@ == old(s)@ + zero_padded(v as nat, width as nat),
{
    let n = decimal_len(v);
    let ghost start = s@;
    let mut k: usize = n;
    while k < width
        invariant
            n <= k,
            k <= width || k == n,
            n as nat == decimal_text(v as nat).len(),
            s@ == start + Seq::new((k - n) as nat, |_i: int| '0'),
        decreases width - k,
    {
        push_char(s, '0');
        k = k + 1;
        proof {
            assert(s@ =~= start + Seq::new((k - n) as nat, |_i: int| '0'));
        }
    }
    let ghost mid = s@;
    push_decimal(s, v);
    proof {
        if n < width {
            assert(k == width);
            assert(s@ =~= old(s)@ + zero_padded(v as nat, width as nat));
        } else {
            assert(k == n);
            assert(s@ =~= old(s)@ + zero_padded(v as nat, width as nat));
        }
    }
}

/// Decimal rendering of `v` as a new string.
pub fn decimal_string(v: u64) -> (r: String)
    ensures
        r@ == decimal_text(v as nat),
{
    let mut s = String::new();
    push_decimal(&mut s, v);
    proof {
        assert(s@ =~= decimal_text(v as nat));
    }
    s
}

/// Copies a string slice into an owned string.
pub fn owned(t: &str) -> (r: String)
    ensures
        r@ == t@,
{
    t.to_owned()
}

/// The characters of a string, in order.
pub fn chars_of(s: &str) -> (r: Vec<char>)
    ensures
        r@ == s@,
{
    broadcast use vstd::string::axiom_spec_iter;

    let mut v: Vec<char> = Vec::new();
    for c in it: s.chars()
        invariant
            v@ == it.seq().take(it.index() as int),
            it.seq() == s@,
    {
        v.push(c);
        proof {
            assert(v@ =~= it.seq().take(it.index() + 1));
        }
    }
    proof {
        assert(v@ =~= s@);
    }
    v
}

/// The error `std::str::from_utf8` reports for invalid UTF-8.
#[verifier::external_type_specification]
#[verifier::external_body]
pub struct ExUtf8Error(std::str::Utf8Error);

/// The message of a UTF-8 decoding error.
///
/// Calls `to_string` on `std::str::Utf8Error`, whose `Display` describes
/// where the invalid sequence starts; the text is not stated here.
#[verifier::external_body]
pub(crate) fn utf8_error_message(e: &std::str::Utf8Error) -> String {
    e.to_string()
}

/// Reads a byte slice as UTF-8 text, borrowing it.
///
/// Calls `std::str::from_utf8`, which the standard library documents to
/// succeed exactly when the bytes are valid UTF-8, returning the text they
/// encode; the contract states both. The error value is not described.
#[verifier::external_body]
pub(crate) fn utf8_str(bytes: &[u8]) -> (r: Result<&str, std::str::Utf8Error>)
    ensures
        r is Ok <==> vstd::utf8::valid_utf8(bytes@),
        r matches Ok(t) ==> t@ == vstd::utf8::decode_utf8(bytes@),
{
    std::str::from_utf8(bytes)
}

/// The text without its trailing NUL characters.
pub open spec fn trim_trailing_nul(t: Seq<char>) -> Seq<char>
    decreases t.len(),
{
    if t.len() > 0 && t.last() == '\0' {
        trim_trailing_nul(t.drop_last())
    } else {
        t
    }
}

/// The string without its trailing NUL characters.
pub fn trim_nul_end(s: &str) -> (r: &str)
    ensures
        r@ == trim_trailing_nul(s@),
{
    let mut n: usize = s.unicode_len();
    proof {
        assert(s@.take(n as int) =~= s@);
    }
    while n > 0 && s.get_char(n - 1) == '\0'
        invariant
            n <= s@.len(),
            trim_trailing_nul(s@.take(n as int)) == trim_trailing_nul(s@),
        decreases n,
    {
        proof {
            assert(s@.take(n as int).drop_last() =~= s@.take(n - 1));
        }
        n = n - 1;
    }
    let r = s.substring_char(0, n);
    proof {
        assert(r@ =~= s@.take(n as int));
    }
    r
}

/// What `encoding_rs::GB18030.decode` yields for a byte sequence: the decoded
/// text and whether malformed sequences were replaced.
pub uninterp spec fn gb18030_decoding(bytes: Seq<u8>) -> (Seq<char>, bool);

/// Decodes bytes as GB18030 text (with BOM sniffing), replacing malformed
/// sequences.
///
/// Calls `encoding_rs::Encoding::decode` on `encoding_rs::GB18030`. Its result
/// depends on the bytes alone, so the contract names it; the text and the
/// error flag are returned as that name gives them. The length bound keeps the
/// output buffer size computation (about three bytes per input byte) clear of
/// overflow, where the call panics.
#[verifier::external_body]
pub(crate) fn gb18030_decode(bytes: &[u8]) -> (r: (String, bool))
    requires
        bytes@.len() <= usize::MAX / 4,
    ensures
        (r.0@, r.1) == gb18030_decoding(bytes@),
{
    let (text, _encoding, had_errors) = encoding_rs::GB18030.decode(bytes);
    (text.into_owned(), had_errors)
}

} // verus!
