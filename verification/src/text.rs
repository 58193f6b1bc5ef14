//! Text helpers: decimal and hexadecimal rendering of integers and
//! trimming of trailing spaces, each with an exact specification.

use vstd::prelude::*;

verus! {

/// The character of a hexadecimal digit (upper case), which for `d < 10`
/// is also the decimal digit.
pub open spec fn hex_char(d: nat) -> char {
    if d == 0 { '0' }
    else if d == 1 { '1' }
    else if d == 2 { '2' }
    else if d == 3 { '3' }
    else if d == 4 { '4' }
    else if d == 5 { '5' }
    else if d == 6 { '6' }
    else if d == 7 { '7' }
    else if d == 8 { '8' }
    else if d == 9 { '9' }
    else if d == 10 { 'A' }
    else if d == 11 { 'B' }
    else if d == 12 { 'C' }
    else if d == 13 { 'D' }
    else if d == 14 { 'E' }
    else { 'F' }
}

/// The decimal representation of `n`, without leading zeros.
pub open spec fn decimal(n: nat) -> Seq<char>
    decreases n,
{
    if n < 10 {
        seq![hex_char(n)]
    } else {
        decimal(n / 10).push(hex_char(n % 10))
    }
}

/// Four upper-case hexadecimal digits of `v`, zero padded (`{:04X}` for `v < 0x10000`).
pub open spec fn hex4(v: nat) -> Seq<char> {
    seq![hex_char((v / 4096) % 16), hex_char((v / 256) % 16), hex_char((v / 16) % 16), hex_char(v % 16)]
}

/// `s` without its trailing `' '` characters.
pub open spec fn trim_end_spaces(s: Seq<char>) -> Seq<char>
    decreases s.len(),
{
    if s.len() > 0 && s.last() == ' ' {
        trim_end_spaces(s.drop_last())
    } else {
        s
    }
}

/// The views of a sequence of strings.
pub open spec fn views(v: Seq<String>) -> Seq<Seq<char>> {
    v.map_values(|s: String| s@)
}

/// The one-character string of hexadecimal digit `d`.
fn digit_str(d: u32) -> (s: &'static str)
    requires
        d < 16,
    ensures
        s@ == seq![hex_char(d as nat)],
{
    proof {
        reveal_strlit("0");
        reveal_strlit("1");
        reveal_strlit("2");
        reveal_strlit("3");
        reveal_strlit("4");
        reveal_strlit("5");
        reveal_strlit("6");
        reveal_strlit("7");
        reveal_strlit("8");
        reveal_strlit("9");
        reveal_strlit("A");
        reveal_strlit("B");
        reveal_strlit("C");
        reveal_strlit("D");
        reveal_strlit("E");
        reveal_strlit("F");
    }
    if d == 0 { "0" }
    else if d == 1 { "1" }
    else if d == 2 { "2" }
    else if d == 3 { "3" }
    else if d == 4 { "4" }
    else if d == 5 { "5" }
    else if d == 6 { "6" }
    else if d == 7 { "7" }
    else if d == 8 { "8" }
    else if d == 9 { "9" }
    else if d == 10 { "A" }
    else if d == 11 { "B" }
    else if d == 12 { "C" }
    else if d == 13 { "D" }
    else if d == 14 { "E" }
    else { "F" }
}

/// Renders `n` in decimal, as `n.to_string()` does.
pub fn decimal_string(n: u32) -> (s: String)
    ensures
        s@ == decimal(n as nat),
    decreases n,
{
    if n < 10 {
        String::from_str(digit_str(n))
    } else {
        let mut s = decimal_string(n / 10);
        s.append(digit_str(n % 10));
        assert(s@ =~= decimal((n / 10) as nat).push(hex_char((n % 10) as nat)));
        s
    }
}

/// Renders `v` as four upper-case hexadecimal digits, as `format!("{:04X}", v)` does.
pub fn hex4_string(v: u32) -> (s: String)
    requires
        v < 0x10000,
    ensures
        s@ == hex4(v as nat),
{
    let mut s = String::from_str(digit_str((v / 4096) % 16));
    s.append(digit_str((v / 256) % 16));
    s.append(digit_str((v / 16) % 16));
    s.append(digit_str(v % 16));
    assert(s@ =~= hex4(v as nat));
    s
}

/// Returns `s` with its trailing `' '` characters removed, as
/// `s.trim_end_matches(' ').to_string()` does.
pub fn trim_end_spaces_string(s: &str) -> (r: String)
    ensures
        r@ == trim_end_spaces(s@),
{
    let mut n = s.unicode_len();
    assert(s@.subrange(0, n as int) =~= s@);
    loop
        invariant
            n <= s@.len(),
            trim_end_spaces(s@.subrange(0, n as int)) == trim_end_spaces(s@),
        ensures
            n <= s@.len(),
            s@.subrange(0, n as int) == trim_end_spaces(s@),
        decreases n,
    {
        if n == 0 {
            assert(trim_end_spaces(s@.subrange(0, 0)) == s@.subrange(0, 0));
            break;
        }
        if s.get_char(n - 1) != ' ' {
            assert(s@.subrange(0, n as int).last() == s@[n - 1]);
            assert(trim_end_spaces(s@.subrange(0, n as int)) == s@.subrange(0, n as int));
            break;
        }
        assert(s@.subrange(0, n as int).drop_last() =~= s@.subrange(0, n - 1));
        n = n - 1;
    }
    let r = String::from_str(s.substring_char(0, n));
    r
}

/// The text that `String::from_utf8_lossy` makes of `bytes`.
pub uninterp spec fn utf8_lossy(bytes: Seq<u8>) -> Seq<char>;

/// Decodes `bytes` with `String::from_utf8_lossy` (std). Trusted: the result
/// is a function of the bytes alone, named `utf8_lossy`, and, as std's
/// documentation states, valid UTF-8 decodes to the text it encodes (invalid
/// sequences, which become U+FFFD, are left to the name).
#[verifier::external_body]
pub(crate) fn utf8_lossy_string(bytes: &[u8]) -> (r: String)
    ensures
        r@ == utf8_lossy(bytes@),
        vstd::utf8::valid_utf8(bytes@) ==> r@ == vstd::utf8::decode_utf8(bytes@),
{
    String::from_utf8_lossy(bytes).into_owned()
}

} // verus!
