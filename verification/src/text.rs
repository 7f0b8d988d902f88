//! Text as the loader takes and gives it: terminated strings, decoded
//! messages, decimal numbers.

use vstd::prelude::*;
use vstd::string::*;
use vstd::utf8::*;

verus! {

/// Whether no byte of `text` is zero.
pub open spec fn nul_free(text: Seq<u8>) -> bool {
    forall|i: int| 0 <= i < text.len() ==> #[trigger] text[i] != 0
}

/// Whether no unit of `text` is zero.
pub open spec fn nul_free_wide(text: Seq<u16>) -> bool {
    forall|i: int| 0 <= i < text.len() ==> #[trigger] text[i] != 0
}

/// The bytes of `text` followed by the terminating zero, or `None` where a
/// zero inside `text` would end the string early.
pub fn c_string(text: &[u8]) -> (terminated: Option<Vec<u8>>)
    ensures
        terminated is Some <==> nul_free(text@),
        terminated is Some ==> terminated->Some_0@ == text@.push(0),
{
    let mut terminated: Vec<u8> = Vec::new();
    let mut i: usize = 0;
    while i < text.len()
        invariant
            i <= text.len(),
            terminated@ == text@.take(i as int),
            nul_free(text@.take(i as int)),
        decreases text.len() - i,
    {
        if text[i] == 0 {
            return None;
        }
        terminated.push(text[i]);
        i += 1;
        assert(text@.take(i as int) =~= text@.take(i as int - 1).push(text@[i as int - 1]));
    }
    assert(text@.take(i as int) =~= text@);
    terminated.push(0);
    Some(terminated)
}

/// The units of `text` followed by the terminating zero, or `None` where a
/// zero inside `text` would end the string early.
pub fn wide_c_string(text: &[u16]) -> (terminated: Option<Vec<u16>>)
    ensures
        terminated is Some <==> nul_free_wide(text@),
        terminated is Some ==> terminated->Some_0@ == text@.push(0),
{
    let mut terminated: Vec<u16> = Vec::new();
    let mut i: usize = 0;
    while i < text.len()
        invariant
            i <= text.len(),
            terminated@ == text@.take(i as int),
            nul_free_wide(text@.take(i as int)),
        decreases text.len() - i,
    {
        if text[i] == 0 {
            return None;
        }
        terminated.push(text[i]);
        i += 1;
        assert(text@.take(i as int) =~= text@.take(i as int - 1).push(text@[i as int - 1]));
    }
    assert(text@.take(i as int) =~= text@);
    terminated.push(0);
    Some(terminated)
}

/// The characters with the Unicode property `White_Space`.
pub open spec fn is_white_space(c: char) -> bool {
    let code = c as u32;
    ||| 0x09 <= code <= 0x0D
    ||| code == 0x20
    ||| code == 0x85
    ||| code == 0xA0
    ||| code == 0x1680
    ||| 0x2000 <= code <= 0x200A
    ||| code == 0x2028
    ||| code == 0x2029
    ||| code == 0x202F
    ||| code == 0x205F
    ||| code == 0x3000
}

/// `text` without the white space at its end.
pub open spec fn trim_end(text: Seq<char>) -> Seq<char>
    decreases text.len(),
{
    if text.len() > 0 && is_white_space(text.last()) {
        trim_end(text.drop_last())
    } else {
        text
    }
}

/// Whether `c` is white space.
pub fn white_space(c: char) -> (yes: bool)
    ensures
        yes == is_white_space(c),
{
    let code: u32 = c as u32;
    (0x09 <= code && code <= 0x0D) || code == 0x20 || code == 0x85 || code == 0xA0 || code
        == 0x1680 || (0x2000 <= code && code <= 0x200A) || code == 0x2028 || code == 0x2029 || code
        == 0x202F || code == 0x205F || code == 0x3000
}

/// A copy of `text` without the white space at its end.
pub fn trimmed(text: &str) -> (short: String)
    ensures
        short@ == trim_end(text@),
{
    let mut end: usize = text.unicode_len();
    assert(text@.subrange(0, end as int) =~= text@);
    while end > 0 && white_space(text.get_char(end - 1))
        invariant
            end <= text@.len(),
            trim_end(text@) == trim_end(text@.subrange(0, end as int)),
        decreases end,
    {
        assert(text@.subrange(0, end as int).drop_last() =~= text@.subrange(0, end as int - 1));
        end -= 1;
    }
    String::from_str(text.substring_char(0, end))
}

/// The character of the decimal digit `d`.
pub open spec fn digit(d: nat) -> char
    recommends
        d < 10,
{
    (48 + d) as u8 as char
}

/// The decimal numeral of `n`, without leading zeros.
pub open spec fn decimal(n: nat) -> Seq<char>
    decreases n,
{
    if n < 10 {
        seq![digit(n)]
    } else {
        decimal(n / 10).push(digit(n % 10))
    }
}

fn digit_text(d: u32) -> (text: &'static str)
    requires
        d < 10,
    ensures
        text@ == seq![digit(d as nat)],
{
    proof {
        reveal_strlit("0");
        reveal_strlit("1");
        reveal_strlit("2");
        reveal_strlit("3");
        reveal_strlit("4");
        reveal_strlit("5");
        reveal_strlit("6");
        reveal_strlit("7");
        reveal_strlit("8");
        reveal_strlit("9");
    }
    let text = if d == 0 {
        "0"
    } else if d == 1 {
        "1"
    } else if d == 2 {
        "2"
    } else if d == 3 {
        "3"
    } else if d == 4 {
        "4"
    } else if d == 5 {
        "5"
    } else if d == 6 {
        "6"
    } else if d == 7 {
        "7"
    } else if d == 8 {
        "8"
    } else {
        "9"
    };
    assert(text@ =~= seq![digit(d as nat)]);
    text
}

/// The decimal numeral of `n`.
pub fn decimal_text(n: u32) -> (text: String)
    ensures
        text@ == decimal(n as nat),
    decreases n,
{
    if n < 10 {
        String::from_str(digit_text(n))
    } else {
        let mut text = decimal_text(n / 10);
        text.append(digit_text(n % 10));
        assert(text@ =~= decimal(n as nat));
        text
    }
}

/// What the display of the error of `std::str::from_utf8` reads for bytes
/// that are not UTF-8.
pub uninterp spec fn utf8_error_text(bytes: Seq<u8>) -> Seq<char>;

/// What `String::from_utf8_lossy` makes of the bytes.
pub uninterp spec fn utf8_lossy(bytes: Seq<u8>) -> Seq<char>;

/// What `String::from_utf16_lossy` makes of the units.
pub uninterp spec fn utf16_lossy(units: Seq<u16>) -> Seq<char>;

/// `std::str::from_utf8`, which is believed to accept exactly the byte
/// strings that are UTF-8 and to decode those to the characters that they
/// encode. For any other byte string the result is the display of the
/// error that it returns.
#[verifier::external_body]
pub(crate) fn decode(bytes: &[u8]) -> (text: Result<String, String>)
    ensures
        text is Ok <==> valid_utf8(bytes@),
        text is Ok ==> text->Ok_0@ == decode_utf8(bytes@),
        text is Err ==> text->Err_0@ == utf8_error_text(bytes@),
{
    match std::str::from_utf8(bytes) {
        Ok(text) => Ok(text.to_string()),
        Err(error) => Err(error.to_string()),
    }
}

/// `String::from_utf8_lossy`, which is believed to decode UTF-8 as it
/// stands and otherwise to give a text that depends on the bytes alone.
#[verifier::external_body]
pub(crate) fn decode_lossy(bytes: &[u8]) -> (text: String)
    ensures
        text@ == utf8_lossy(bytes@),
        valid_utf8(bytes@) ==> text@ == decode_utf8(bytes@),
{
    String::from_utf8_lossy(bytes).into_owned()
}

/// `String::from_utf16_lossy`, which is believed to give a text that
/// depends on the units alone.
#[verifier::external_body]
pub(crate) fn decode_wide_lossy(units: &[u16]) -> (text: String)
    ensures
        text@ == utf16_lossy(units@),
{
    String::from_utf16_lossy(units)
}

} // verus!
