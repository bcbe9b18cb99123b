//! Text operations that the rest of the library takes from the standard library.

use vstd::prelude::*;
use vstd::utf8::{
    decode_first_scalar, decode_utf8, is_ascii_chars, pop_first_scalar, valid_first_scalar, valid_utf8,
};

verus! {

/// `c` with an upper-case ASCII letter replaced by its lower-case counterpart.
pub open spec fn ascii_lower(c: char) -> char {
    if 'A' <= c <= 'Z' {
        (c as u32 + 32) as char
    } else {
        c
    }
}

/// What `str::to_lowercase` makes of a string, by the Unicode lower-case mappings.
pub uninterp spec fn unicode_lowercase(s: Seq<char>) -> Seq<char>;

/// `s` with its ASCII letters in lower case.
pub open spec fn ascii_lowered(s: Seq<char>) -> Seq<char> {
    s.map_values(|c: char| ascii_lower(c))
}

/// `b` with the code of an upper-case ASCII letter replaced by that of its lower-case counterpart.
pub open spec fn ascii_lower_byte(b: u8) -> u8 {
    if 0x41 <= b <= 0x5a {
        (b + 32) as u8
    } else {
        b
    }
}

/// `bytes` with the ASCII letters among them in lower case.
pub open spec fn ascii_lowered_bytes(bytes: Seq<u8>) -> Seq<u8> {
    bytes.map_values(|b: u8| ascii_lower_byte(b))
}

/// The lower-case form of `s`: its ASCII letters are lowered one by one, and where there are other
/// characters, the Unicode mappings lower the rest. As these lower the ASCII letters in the same
/// way, and look at the letters around a character but not at their case, it makes no difference
/// that the ASCII letters come first.
pub open spec fn lowercase(s: Seq<char>) -> Seq<char> {
    if is_ascii_chars(s) {
        ascii_lowered(s)
    } else {
        unicode_lowercase(ascii_lowered(s))
    }
}

/// Calls `str::to_lowercase`.
///
/// Believed without proof: the result is a function of the string alone, and on ASCII text it
/// lowers the letters `A` to `Z` and keeps every other character.
#[verifier::external_body]
fn std_to_lowercase(s: &str) -> (lower: String)
    ensures
        lower@ == unicode_lowercase(s@),
        is_ascii_chars(s@) ==> lower@ == ascii_lowered(s@),
{
    s.to_lowercase()
}

/// `bytes` with the ASCII letters among them in lower case.
fn lower_ascii_bytes(bytes: &[u8]) -> (lower: Vec<u8>)
    ensures
        lower@ == ascii_lowered_bytes(bytes@),
{
    let mut lower: Vec<u8> = Vec::new();
    for i in 0..bytes.len()
        invariant
            lower@ == ascii_lowered_bytes(bytes@.take(i as int)),
    {
        let b: u8 = bytes[i];
        lower.push(
            if 0x41 <= b && b <= 0x5a {
                b + 32
            } else {
                b
            },
        );
        assert(lower@ =~= ascii_lowered_bytes(bytes@.take(i + 1)));
    }
    assert(bytes@.take(bytes@.len() as int) =~= bytes@);
    lower
}

/// The lower-case form of `s`.
pub fn to_lowercase(s: &str) -> (lower: String)
    ensures
        lower@ == lowercase(s@),
{
    let bytes = lower_ascii_bytes(s.as_bytes());
    proof {
        vstd::utf8::encode_utf8_valid_utf8(s@);
        vstd::utf8::encode_utf8_decode_utf8(s@);
        lowering_bytes_lowers_text(vstd::utf8::encode_utf8(s@));
        assert(is_ascii_chars(s@) ==> is_ascii_chars(ascii_lowered(s@)));
        assert(ascii_lowered(ascii_lowered(s@)) =~= ascii_lowered(s@));
    }
    let text = std_from_utf8(bytes.as_slice()).unwrap();
    std_to_lowercase(text.as_str())
}

/// Lowering the ASCII letters among bytes is lowering those of the text that they encode, and
/// bytes that are no UTF-8 do not become UTF-8 by it.
pub proof fn lowering_bytes_lowers_text(bytes: Seq<u8>)
    ensures
        valid_utf8(ascii_lowered_bytes(bytes)) == valid_utf8(bytes),
        valid_utf8(bytes) ==> decode_utf8(ascii_lowered_bytes(bytes)) == ascii_lowered(
            decode_utf8(bytes),
        ),
    decreases bytes.len(),
{
    let lower = ascii_lowered_bytes(bytes);
    if bytes.len() > 0 {
        let b = bytes[0];
        let l = lower[0];
        assert(b <= 0x7f ==> b & 0x7f == b) by (bit_vector);
        assert(l <= 0x7f ==> l & 0x7f == l) by (bit_vector);
        if valid_first_scalar(bytes) {
            assert(pop_first_scalar(lower) =~= ascii_lowered_bytes(pop_first_scalar(bytes)));
            lowering_bytes_lowers_text(pop_first_scalar(bytes));
            if valid_utf8(bytes) {
                let code = decode_first_scalar(bytes);
                let lower_code = decode_first_scalar(lower);
                assert(b > 0x7f ==> lower_code == code && code >= 0x80);
                assert(b <= 0x7f ==> code == b && lower_code == l);
                let (b1, b2) = (bytes[1], bytes[2]);
                assert((((b & 0x1f) as u32) << 6u32) | ((b1 & 0x3f) as u32) <= 0xffff) by (bit_vector);
                assert((((b & 0x0f) as u32) << 12u32) | (((b1 & 0x3f) as u32) << 6u32) | ((b2
                    & 0x3f) as u32) <= 0xffff) by (bit_vector);
                assert(vstd::utf8::is_scalar(code));
                assert(lower_code as char == ascii_lower(code as char));
                assert(decode_utf8(lower) =~= ascii_lowered(decode_utf8(bytes)));
            }
        }
    } else {
        assert(lower =~= bytes);
        assert(ascii_lowered(decode_utf8(bytes)) =~= decode_utf8(bytes));
    }
}

/// Texts that differ in the case of ASCII letters only have one lower-case form.
pub proof fn same_lower_case(one: Seq<char>, other: Seq<char>)
    requires
        ascii_lowered(one) == ascii_lowered(other),
    ensures
        lowercase(one) == lowercase(other),
{
    assert(one.len() == ascii_lowered(one).len() && other.len() == ascii_lowered(other).len());
    assert forall|i: int| 0 <= i < one.len() implies ('\0' <= #[trigger] one[i] <= '\u{7f}' <==> '\0'
        <= other[i] <= '\u{7f}') by {
        assert(ascii_lower(one[i]) == ascii_lowered(one)[i]);
        assert(ascii_lower(other[i]) == ascii_lowered(other)[i]);
    }
    assert forall|i: int| is_ascii_chars(one) && 0 <= i < other.len() implies '\0'
        <= #[trigger] other[i] <= '\u{7f}' by {
        assert('\0' <= one[i] <= '\u{7f}');
    }
}

/// The text that `bytes` encode, if they are UTF-8.
pub open spec fn text_of(bytes: Seq<u8>) -> Option<Seq<char>> {
    if valid_utf8(bytes) {
        Some(decode_utf8(bytes))
    } else {
        None
    }
}

/// Calls `std::str::from_utf8`.
///
/// Believed without proof: it succeeds exactly on valid UTF-8, with the decoded text.
#[verifier::external_body]
pub(crate) fn std_from_utf8(bytes: &[u8]) -> (text: Option<String>)
    ensures
        text is Some <==> valid_utf8(bytes@),
        text matches Some(t) ==> t@ == decode_utf8(bytes@),
{
    std::str::from_utf8(bytes).ok().map(|t| t.to_owned())
}

/// What `String::from_utf8_lossy` makes of bytes, invalid sequences replaced by U+FFFD.
pub uninterp spec fn utf8_lossy(bytes: Seq<u8>) -> Seq<char>;

/// `bytes` as text for a message: decoded where they are UTF-8, with replacement characters for
/// the invalid sequences otherwise.
pub open spec fn printable(bytes: Seq<u8>) -> Seq<char> {
    if valid_utf8(bytes) {
        decode_utf8(bytes)
    } else {
        utf8_lossy(bytes)
    }
}

/// Calls `String::from_utf8_lossy`.
///
/// Believed without proof: the result is a function of the bytes alone, and valid UTF-8 is
/// decoded as it stands.
#[verifier::external_body]
pub(crate) fn std_from_utf8_lossy(bytes: &[u8]) -> (text: String)
    ensures
        text@ == utf8_lossy(bytes@),
        valid_utf8(bytes@) ==> text@ == decode_utf8(bytes@),
{
    String::from_utf8_lossy(bytes).into_owned()
}

/// The characters with the Unicode property `White_Space`.
pub open spec fn is_white_space(c: char) -> bool {
    let u = c as u32;
    ||| 0x09 <= u <= 0x0d
    ||| u == 0x20
    ||| u == 0x85
    ||| u == 0xa0
    ||| u == 0x1680
    ||| 0x2000 <= u <= 0x200a
    ||| u == 0x2028
    ||| u == 0x2029
    ||| u == 0x202f
    ||| u == 0x205f
    ||| u == 0x3000
}

/// `s` without its leading white space.
pub open spec fn trim_front(s: Seq<char>) -> Seq<char>
    decreases s.len(),
{
    if s.len() > 0 && is_white_space(s[0]) {
        trim_front(s.drop_first())
    } else {
        s
    }
}

/// `s` without its trailing white space.
pub open spec fn trim_back(s: Seq<char>) -> Seq<char>
    decreases s.len(),
{
    if s.len() > 0 && is_white_space(s.last()) {
        trim_back(s.drop_last())
    } else {
        s
    }
}

/// `s` without its leading and trailing white space.
pub open spec fn trimmed(s: Seq<char>) -> Seq<char> {
    trim_back(trim_front(s))
}

/// Calls `str::trim`.
///
/// Believed without proof: it removes leading and trailing white space, in the sense of the
/// Unicode property `White_Space`, and nothing else.
#[verifier::external_body]
pub(crate) fn std_trim(s: &str) -> (rest: String)
    ensures
        rest@ == trimmed(s@),
{
    s.trim().to_owned()
}

/// What the `Debug` format of a `std::time::Duration` prints, as in `5s` or `1.5s`.
pub uninterp spec fn duration_text(secs: u64, nanos: u32) -> Seq<char>;

/// Formats a `std::time::Duration` with `{:?}`.
///
/// Believed without proof: the text is a function of the duration alone.
#[verifier::external_body]
pub(crate) fn std_duration_debug(secs: u64, nanos: u32) -> (text: String)
    requires
        nanos < 1_000_000_000,
    ensures
        text@ == duration_text(secs, nanos),
{
    format!("{:?}", std::time::Duration::new(secs, nanos))
}

/// Bytes are the text that they encode: encoding the text gives back the bytes, and bytes that
/// encode no text are no UTF-8. A message shows them as that text.
pub proof fn text_encodes_back(bytes: Seq<u8>, text: Seq<char>)
    ensures
        text_of(vstd::utf8::encode_utf8(text)) == Some(text),
        text_of(bytes) == Some(text) ==> vstd::utf8::encode_utf8(text) == bytes,
        text_of(bytes) is None <==> !valid_utf8(bytes),
        printable(vstd::utf8::encode_utf8(text)) == text,
        !valid_utf8(bytes) ==> printable(bytes) == utf8_lossy(bytes),
{
    vstd::utf8::encode_utf8_valid_utf8(text);
    vstd::utf8::encode_utf8_decode_utf8(text);
    if valid_utf8(bytes) {
        vstd::utf8::decode_utf8_encode_utf8(bytes);
    }
}

/// Of ASCII text, lower case changes the letters `A` to `Z` and nothing else; of other text it is
/// the Unicode lower case of what differs from it in these letters.
pub proof fn lower_case_letter_by_letter(s: Seq<char>, t: Seq<char>)
    requires
        t.len() == s.len(),
        forall|i: int|
            0 <= i < s.len() ==> (if 'A' <= #[trigger] s[i] <= 'Z' {
                t[i] as u32 == s[i] as u32 + 32
            } else {
                t[i] == s[i]
            }),
    ensures
        is_ascii_chars(s) ==> lowercase(s) == t,
        !is_ascii_chars(s) ==> lowercase(s) == unicode_lowercase(t),
{
    assert forall|i: int| 0 <= i < s.len() implies ascii_lowered(s)[i] == #[trigger] t[i] by {
        if 'A' <= s[i] <= 'Z' {
            vstd::utf8::char_u32_cast(t[i], (s[i] as u32 + 32) as u32);
        }
    }
    assert(ascii_lowered(s) =~= t);
}

/// Trimming takes the white space off both ends and keeps what stands between, white space inside
/// it as well.
pub proof fn trimming_keeps_the_middle(front: Seq<char>, middle: Seq<char>, back: Seq<char>)
    requires
        forall|i: int| 0 <= i < front.len() ==> is_white_space(#[trigger] front[i]),
        forall|i: int| 0 <= i < back.len() ==> is_white_space(#[trigger] back[i]),
        middle.len() > 0 ==> !is_white_space(middle[0]) && !is_white_space(middle.last()),
    ensures
        trimmed(front + middle + back) == middle,
    decreases front.len() + back.len(),
{
    let s = front + middle + back;
    if front.len() > 0 {
        assert(s[0] == front[0]);
        assert(s.drop_first() =~= front.drop_first() + middle + back);
        trimming_keeps_the_middle(front.drop_first(), middle, back);
    } else if middle.len() == 0 && back.len() > 0 {
        assert(s[0] == back[0]);
        assert(s.drop_first() =~= front + middle + back.drop_first());
        trimming_keeps_the_middle(front, middle, back.drop_first());
    } else if back.len() > 0 {
        assert(s[0] == middle[0]);
        assert(s.last() == back.last());
        let shorter = front + middle + back.drop_last();
        assert(shorter[0] == middle[0]);
        assert(s.drop_last() =~= shorter);
        trimming_keeps_the_middle(front, middle, back.drop_last());
    } else {
        assert(s =~= middle);
    }
}

} // verus!
