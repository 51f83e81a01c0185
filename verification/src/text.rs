//! Text as the snapshot carries it: NUL-terminated bytes in buffers of fixed
//! capacity, read leniently, and the decimal numbers of the display forms.

use vstd::prelude::*;
use vstd::slice::slice_subrange;
use vstd::string::*;
use vstd::utf8::*;

verus! {

/// The text that `String::from_utf8_lossy` makes of `bytes`: their UTF-8
/// decoding, with U+FFFD in place of each malformed sequence.
pub uninterp spec fn utf8_lossy(bytes: Seq<u8>) -> Seq<char>;

/// `String::from_utf8_lossy`, with the result copied into a `String`.
///
/// Trusted: the text is the lossy reading of `bytes`; as the function's
/// documentation says, bytes that already are UTF-8 are taken over unchanged,
/// and each malformed sequence gives one U+FFFD. Every character thus stands
/// for at least one byte, so the text has no more characters than there are
/// bytes.
#[verifier::external_body]
pub(crate) fn lossy_string(bytes: &[u8]) -> (text: String)
    ensures
        text@ == utf8_lossy(bytes@),
        valid_utf8(bytes@) ==> text@ == decode_utf8(bytes@),
        text@.len() <= bytes@.len(),
{
    String::from_utf8_lossy(bytes).into_owned()
}

/// `text` is the lenient reading of `bytes`, which for well-formed UTF-8 is
/// its plain decoding, and which has no more characters than there are bytes.
pub open spec fn is_lossy_reading(bytes: Seq<u8>, text: Seq<char>) -> bool {
    &&& text == utf8_lossy(bytes)
    &&& valid_utf8(bytes) ==> text == decode_utf8(bytes)
    &&& text.len() <= bytes.len()
}

/// Every byte is below 0x80.
pub open spec fn is_ascii_bytes(bytes: Seq<u8>) -> bool {
    forall|i: int| 0 <= i < bytes.len() ==> #[trigger] bytes[i] < 0x80
}

/// The characters that ASCII bytes stand for, one per byte.
pub open spec fn ascii_chars(bytes: Seq<u8>) -> Seq<char> {
    Seq::new(bytes.len(), |i: int| bytes[i] as char)
}

/// ASCII bytes are well-formed UTF-8 and decode byte by byte.
pub proof fn lemma_ascii_decodes(bytes: Seq<u8>)
    requires
        is_ascii_bytes(bytes),
    ensures
        valid_utf8(bytes),
        decode_utf8(bytes) == ascii_chars(bytes),
{
    let chars = ascii_chars(bytes);
    assert(is_ascii_chars(chars)) by {
        assert forall|i: int| 0 <= i < chars.len() implies '\0' <= #[trigger] chars[i]
            <= '\u{7f}' by {
            assert(bytes[i] < 0x80);
        }
    }
    is_ascii_chars_encode_utf8(chars);
    assert(encode_utf8(chars) =~= bytes) by {
        assert forall|i: int| 0 <= i < bytes.len() implies encode_utf8(chars)[i] == bytes[i] by {
            assert(bytes[i] < 0x80);
            assert(chars[i] as u8 == encode_utf8(chars)[i]);
        }
    }
    encode_utf8_valid_utf8(chars);
    encode_utf8_decode_utf8(chars);
}

/// The number of bytes before the first NUL of `buffer`, or the whole length
/// where it holds none.
pub open spec fn text_len(buffer: Seq<u8>) -> int
    decreases buffer.len(),
{
    if buffer.len() == 0 || buffer[0] == 0 {
        0
    } else {
        1 + text_len(buffer.drop_first())
    }
}

/// The bytes of the text that `buffer` holds: all that stand before its first
/// NUL, and the whole buffer where no NUL ends the text.
pub open spec fn text_bytes(buffer: Seq<u8>) -> Seq<u8> {
    buffer.take(text_len(buffer))
}

/// What `text_len` is: it stays within the buffer, no byte before it is NUL,
/// and the byte at it, where there is one, is NUL.
pub proof fn lemma_text_len(buffer: Seq<u8>)
    ensures
        0 <= text_len(buffer) <= buffer.len(),
        forall|i: int| 0 <= i < text_len(buffer) ==> buffer[i] != 0,
        text_len(buffer) < buffer.len() ==> buffer[text_len(buffer)] == 0,
    decreases buffer.len(),
{
    if buffer.len() == 0 || buffer[0] == 0 {
    } else {
        let rest = buffer.drop_first();
        lemma_text_len(rest);
        assert forall|i: int| 0 <= i < text_len(buffer) implies buffer[i] != 0 by {
            if i > 0 {
                assert(rest[i - 1] == buffer[i]);
            }
        }
        if text_len(buffer) < buffer.len() {
            assert(rest[text_len(rest)] == buffer[text_len(buffer)]);
        }
    }
}

/// Only one length has the three properties of `lemma_text_len`.
pub proof fn lemma_text_len_is(buffer: Seq<u8>, n: int)
    requires
        0 <= n <= buffer.len(),
        forall|i: int| 0 <= i < n ==> buffer[i] != 0,
        n < buffer.len() ==> buffer[n] == 0,
    ensures
        text_len(buffer) == n,
{
    lemma_text_len(buffer);
    let found = text_len(buffer);
    if found < n {
        assert(buffer[found] == 0);
    } else if n < found {
        assert(buffer[n] != 0);
    }
}

/// A buffer without a NUL is text from its first byte to its last: the
/// reading ends with the buffer.
pub proof fn lemma_unterminated_text(buffer: Seq<u8>)
    requires
        forall|i: int| 0 <= i < buffer.len() ==> buffer[i] != 0,
    ensures
        text_len(buffer) == buffer.len(),
        text_bytes(buffer) == buffer,
{
    lemma_text_len_is(buffer, buffer.len() as int);
    assert(buffer.take(buffer.len() as int) =~= buffer);
}

/// The text never reaches past the buffer, terminated or not: it is read
/// from a prefix of the buffer and has no more characters than the buffer has
/// bytes.
pub proof fn lemma_text_within_capacity(buffer: Seq<u8>, text: Seq<char>)
    requires
        is_lossy_reading(text_bytes(buffer), text),
    ensures
        text_bytes(buffer).len() <= buffer.len(),
        text_bytes(buffer) == buffer.subrange(0, text_len(buffer)),
        text.len() <= buffer.len(),
{
    lemma_text_len(buffer);
}

/// Counts the bytes before the first NUL.
pub fn measure_text(buffer: &[u8]) -> (len: usize)
    ensures
        len == text_len(buffer@),
        len <= buffer@.len(),
{
    let mut len: usize = 0;
    while len < buffer.len() && buffer[len] != 0
        invariant
            len <= buffer@.len(),
            forall|i: int| 0 <= i < len ==> buffer@[i] != 0,
        decreases buffer@.len() - len,
    {
        len = len + 1;
    }
    proof {
        lemma_text_len_is(buffer@, len as int);
    }
    len
}

/// Reads the text of a fixed-capacity buffer. Nothing is rejected: the text
/// ends at the first NUL, or with the buffer, and bytes that are not UTF-8
/// come out as U+FFFD.
pub fn decode_text(buffer: &[u8]) -> (text: String)
    ensures
        is_lossy_reading(text_bytes(buffer@), text@),
        text@.len() <= buffer@.len(),
{
    let len = measure_text(buffer);
    lossy_string(slice_subrange(buffer, 0, len))
}

/// The character of a decimal digit.
pub open spec fn digit_char(digit: int) -> char {
    seq!['0', '1', '2', '3', '4', '5', '6', '7', '8', '9'][digit]
}

/// `n` in decimal, without sign or leading zeros.
pub open spec fn decimal(n: nat) -> Seq<char>
    decreases n,
{
    if n < 10 {
        seq![digit_char(n as int)]
    } else {
        decimal(n / 10).push(digit_char((n % 10) as int))
    }
}

fn digit_str(digit: u32) -> (text: &'static str)
    requires
        digit < 10,
    ensures
        text@ == seq![digit_char(digit as int)],
{
    proof {
        reveal_strlit("0");
        reveal_strlit("1");
        reveal_strlit("2");
        reveal_strlit("3");
        reveal_strlit("4");
        reveal_strlit("5");
        reveal_strlit("6");
        reveal_strlit("7");
        reveal_strlit("8");
        reveal_strlit("9");
    }
    let text = match digit {
        0 => "0",
        1 => "1",
        2 => "2",
        3 => "3",
        4 => "4",
        5 => "5",
        6 => "6",
        7 => "7",
        8 => "8",
        _ => "9",
    };
    assert(text@ =~= seq![digit_char(digit as int)]);
    text
}

/// The character of a hexadecimal digit, in upper case.
pub open spec fn hex_digit_char(digit: int) -> char {
    seq!['0', '1', '2', '3', '4', '5', '6', '7', '8', '9', 'A', 'B', 'C', 'D', 'E', 'F'][digit]
}

/// `n` in hexadecimal, in upper case, without prefix or leading zeros.
pub open spec fn upper_hex(n: nat) -> Seq<char>
    decreases n,
{
    if n < 16 {
        seq![hex_digit_char(n as int)]
    } else {
        upper_hex(n / 16).push(hex_digit_char((n % 16) as int))
    }
}

fn hex_digit_str(digit: u32) -> (text: &'static str)
    requires
        digit < 16,
    ensures
        text@ == seq![hex_digit_char(digit as int)],
{
    if digit < 10 {
        let text = digit_str(digit);
        assert(text@ =~= seq![hex_digit_char(digit as int)]);
        text
    } else {
        proof {
            reveal_strlit("A");
            reveal_strlit("B");
            reveal_strlit("C");
            reveal_strlit("D");
            reveal_strlit("E");
            reveal_strlit("F");
        }
        let text = match digit {
            10 => "A",
            11 => "B",
            12 => "C",
            13 => "D",
            14 => "E",
            _ => "F",
        };
        assert(text@ =~= seq![hex_digit_char(digit as int)]);
        text
    }
}

/// Appends `n` in upper-case hexadecimal to `text`.
pub fn push_upper_hex(text: &mut String, n: u32)
    ensures
        final(text)@ == old(text)@ + upper_hex(n as nat),
    decreases n,
{
    if n >= 16 {
        push_upper_hex(text, n / 16);
    }
    text.append(hex_digit_str(n % 16));
    assert(final(text)@ =~= old(text)@ + upper_hex(n as nat));
}

/// Appends `n` in decimal to `text`.
pub fn push_decimal(text: &mut String, n: u32)
    ensures
        final(text)@ == old(text)@ + decimal(n as nat),
    decreases n,
{
    if n >= 10 {
        push_decimal(text, n / 10);
    }
    text.append(digit_str(n % 10));
    assert(final(text)@ =~= old(text)@ + decimal(n as nat));
}

} // verus!
