//! Writing a text into a search query, and a search query into a path.
//!
//! A search query holds its values between single quotes, and a backslash
//! before a quote or a backslash makes that byte part of the value. A path
//! holds a query with every byte but letters, digits and `-._~` written as a
//! percent sign and two hexadecimal digits. Both writings are stated here
//! together with the way they are read back, and reading what was written
//! gives the bytes that went in.

use vstd::prelude::*;
use vstd::string::*;

verus! {

/// The single quote, which opens and closes a value of a search query.
pub open spec fn quote() -> u8 {
    0x27
}

/// The backslash, which in a value of a search query makes the next byte part
/// of the value.
pub open spec fn backslash() -> u8 {
    0x5c
}

/// One byte of a value, as it is written between the quotes of a search
/// query.
pub open spec fn escaped_byte(byte: u8) -> Seq<u8> {
    if byte == quote() || byte == backslash() {
        seq![backslash(), byte]
    } else {
        seq![byte]
    }
}

/// A value, as it is written between the quotes of a search query.
pub open spec fn escaped(bytes: Seq<u8>) -> Seq<u8>
    decreases bytes.len(),
{
    if bytes.len() == 0 {
        Seq::empty()
    } else {
        escaped_byte(bytes.first()) + escaped(bytes.drop_first())
    }
}

/// The value that is read from what stands between the quotes of a search
/// query, or `None` where a bare quote ends the value early or a backslash
/// has nothing after it.
pub open spec fn unescaped(written: Seq<u8>) -> Option<Seq<u8>>
    decreases written.len(),
{
    if written.len() == 0 {
        Some(Seq::empty())
    } else if written[0] == backslash() {
        if written.len() >= 2 {
            match unescaped(written.skip(2)) {
                Some(rest) => Some(seq![written[1]] + rest),
                None => None,
            }
        } else {
            None
        }
    } else if written[0] == quote() {
        None
    } else {
        match unescaped(written.skip(1)) {
            Some(rest) => Some(seq![written[0]] + rest),
            None => None,
        }
    }
}

/// Whether a byte stands for itself in a path: an ASCII letter, a digit, or
/// one of `-`, `.`, `_` and `~`.
pub open spec fn is_unreserved(byte: u8) -> bool {
    ||| 0x30 <= byte <= 0x39
    ||| 0x41 <= byte <= 0x5a
    ||| 0x61 <= byte <= 0x7a
    ||| byte == 0x2d
    ||| byte == 0x2e
    ||| byte == 0x5f
    ||| byte == 0x7e
}

/// The sixteen hexadecimal digits, in order.
pub open spec fn hex_digits() -> Seq<char> {
    seq!['0', '1', '2', '3', '4', '5', '6', '7', '8', '9', 'A', 'B', 'C', 'D', 'E', 'F']
}

/// The hexadecimal digit for a value below sixteen.
pub open spec fn hex_digit(value: u8) -> char {
    hex_digits()[value as int]
}

/// The value of a hexadecimal digit, or `None` for any other character.
/// Lowercase digits are read too.
pub open spec fn hex_value(digit: char) -> Option<u8> {
    if '0' <= digit <= '9' {
        Some((digit as u8 - 0x30) as u8)
    } else if 'A' <= digit <= 'F' {
        Some((digit as u8 - 0x41 + 10) as u8)
    } else if 'a' <= digit <= 'f' {
        Some((digit as u8 - 0x61 + 10) as u8)
    } else {
        None
    }
}

/// One byte, as it is written in a path.
pub open spec fn url_encoded_byte(byte: u8) -> Seq<char> {
    if is_unreserved(byte) {
        seq![byte as char]
    } else {
        seq!['%', hex_digit(byte / 16), hex_digit(byte % 16)]
    }
}

/// A run of bytes, as it is written in a path.
pub open spec fn url_encoded(bytes: Seq<u8>) -> Seq<char>
    decreases bytes.len(),
{
    if bytes.len() == 0 {
        Seq::empty()
    } else {
        url_encoded_byte(bytes.first()) + url_encoded(bytes.drop_first())
    }
}

/// Whether a character of a path stands for the byte of the same number.
pub open spec fn is_unreserved_char(c: char) -> bool {
    c as u32 <= 0x7f && is_unreserved(c as u8)
}

/// The bytes that are read from a part of a path, or `None` where a percent
/// sign lacks its two digits or a character has no business there.
pub open spec fn url_decoded(text: Seq<char>) -> Option<Seq<u8>>
    decreases text.len(),
{
    if text.len() == 0 {
        Some(Seq::empty())
    } else if text[0] == '%' {
        if text.len() >= 3 && hex_value(text[1]) is Some && hex_value(text[2]) is Some {
            match url_decoded(text.skip(3)) {
                Some(rest) => Some(
                    seq![(hex_value(text[1])->Some_0 * 16 + hex_value(text[2])->Some_0) as u8]
                        + rest,
                ),
                None => None,
            }
        } else {
            None
        }
    } else if is_unreserved_char(text[0]) {
        match url_decoded(text.skip(1)) {
            Some(rest) => Some(seq![text[0] as u8] + rest),
            None => None,
        }
    } else {
        None
    }
}

/// Writing one more byte after a value writes that byte after what was
/// written of the value.
pub proof fn lemma_escaped_push(bytes: Seq<u8>, byte: u8)
    ensures
        escaped(bytes.push(byte)) == escaped(bytes) + escaped_byte(byte),
    decreases bytes.len(),
{
    if bytes.len() == 0 {
        assert(bytes.push(byte).drop_first() =~= Seq::<u8>::empty());
        assert(escaped(bytes.push(byte)) =~= escaped_byte(byte) + escaped(Seq::<u8>::empty()));
        assert(escaped(bytes.push(byte)) =~= escaped(bytes) + escaped_byte(byte));
    } else {
        lemma_escaped_push(bytes.drop_first(), byte);
        assert(bytes.push(byte).drop_first() =~= bytes.drop_first().push(byte));
        assert(escaped(bytes.push(byte)) =~= escaped(bytes) + escaped_byte(byte));
    }
}

/// Writing one more byte after a run writes that byte after what was written
/// of the run.
pub proof fn lemma_url_encoded_push(bytes: Seq<u8>, byte: u8)
    ensures
        url_encoded(bytes.push(byte)) == url_encoded(bytes) + url_encoded_byte(byte),
    decreases bytes.len(),
{
    if bytes.len() == 0 {
        assert(bytes.push(byte).drop_first() =~= Seq::<u8>::empty());
        assert(url_encoded(bytes.push(byte)) =~= url_encoded_byte(byte) + url_encoded(
            Seq::<u8>::empty(),
        ));
        assert(url_encoded(bytes.push(byte)) =~= url_encoded(bytes) + url_encoded_byte(byte));
    } else {
        lemma_url_encoded_push(bytes.drop_first(), byte);
        assert(bytes.push(byte).drop_first() =~= bytes.drop_first().push(byte));
        assert(url_encoded(bytes.push(byte)) =~= url_encoded(bytes) + url_encoded_byte(byte));
    }
}

/// What is written of a value is read back as that value: no byte of it ends
/// the value early, and none is lost or added.
pub proof fn lemma_escaped_reads_back(bytes: Seq<u8>)
    ensures
        unescaped(escaped(bytes)) == Some(bytes),
    decreases bytes.len(),
{
    if bytes.len() > 0 {
        let first = bytes.first();
        let rest = bytes.drop_first();
        let written = escaped(bytes);
        lemma_escaped_reads_back(rest);
        if first == quote() || first == backslash() {
            assert(written.skip(2) =~= escaped(rest));
            assert(written[1] == first);
        } else {
            assert(written.skip(1) =~= escaped(rest));
        }
        assert(seq![first] + rest =~= bytes);
    }
}

/// Every hexadecimal digit has the value it was written for.
pub proof fn lemma_hex_digit_reads_back(value: u8)
    requires
        value < 16,
    ensures
        hex_value(hex_digit(value)) == Some(value),
{
}

/// What is written of a run of bytes in a path is read back as that run.
pub proof fn lemma_url_encoded_reads_back(bytes: Seq<u8>)
    ensures
        url_decoded(url_encoded(bytes)) == Some(bytes),
    decreases bytes.len(),
{
    if bytes.len() > 0 {
        let first = bytes.first();
        let rest = bytes.drop_first();
        let written = url_encoded(bytes);
        lemma_url_encoded_reads_back(rest);
        if is_unreserved(first) {
            assert(written[0] == first as char);
            assert(written.skip(1) =~= url_encoded(rest));
        } else {
            lemma_hex_digit_reads_back(first / 16);
            lemma_hex_digit_reads_back(first % 16);
            assert(written[0] == '%');
            assert(written[1] == hex_digit(first / 16));
            assert(written[2] == hex_digit(first % 16));
            assert(written.skip(3) =~= url_encoded(rest));
        }
        assert(seq![first] + rest =~= bytes);
    }
}

/// Whether a character may stand in what is written of bytes in a path: one
/// that stands for itself, or the percent sign.
pub open spec fn is_path_safe(c: char) -> bool {
    c == '%' || is_unreserved_char(c)
}

/// What is written of bytes in a path holds no character that means anything
/// to a path: no `&`, `=`, `#`, `?`, quote or space.
pub proof fn lemma_url_encoded_is_safe(bytes: Seq<u8>, i: int)
    requires
        0 <= i < url_encoded(bytes).len(),
    ensures
        is_path_safe(url_encoded(bytes)[i]),
    decreases bytes.len(),
{
    let first = bytes.first();
    let piece = url_encoded_byte(first);
    if i >= piece.len() {
        lemma_url_encoded_is_safe(bytes.drop_first(), i - piece.len());
    }
}

/// The text of one hexadecimal digit.
fn hex_digit_text(value: u8) -> (digit: &'static str)
    requires
        value < 16,
    ensures
        digit@ == seq![hex_digit(value)],
{
    let digits = "0123456789ABCDEF";
    proof {
        reveal_strlit("0123456789ABCDEF");
    }
    let at: usize = value as usize;
    let digit = digits.substring_ascii(at, at + 1);
    assert(digit@ =~= seq![hex_digit(value)]);
    digit
}

/// Whether a byte stands for itself in a path.
fn stands_for_itself(byte: u8) -> (unreserved: bool)
    ensures
        unreserved == is_unreserved(byte),
{
    (0x30 <= byte && byte <= 0x39) || (0x41 <= byte && byte <= 0x5a) || (0x61 <= byte && byte
        <= 0x7a) || byte == 0x2d || byte == 0x2e || byte == 0x5f || byte == 0x7e
}

/// The text of one byte that stands for itself in a path.
fn unreserved_text(byte: u8) -> (text: &'static str)
    requires
        is_unreserved(byte),
    ensures
        text@ == seq![byte as char],
{
    let table = "-.0123456789ABCDEFGHIJKLMNOPQRSTUVWXYZ_abcdefghijklmnopqrstuvwxyz~";
    proof {
        reveal_strlit("-.0123456789ABCDEFGHIJKLMNOPQRSTUVWXYZ_abcdefghijklmnopqrstuvwxyz~");
    }
    let at: usize = if byte == 0x2d {
        0
    } else if byte == 0x2e {
        1
    } else if byte <= 0x39 {
        (byte - 0x30) as usize + 2
    } else if byte <= 0x5a {
        (byte - 0x41) as usize + 12
    } else if byte == 0x5f {
        38
    } else if byte <= 0x7a {
        (byte - 0x61) as usize + 39
    } else {
        65
    };
    assert(table@[at as int] == byte as char);
    let text = table.substring_ascii(at, at + 1);
    assert(text@ =~= seq![byte as char]);
    text
}

/// Writes a value as it stands between the quotes of a search query.
pub fn escape(bytes: &Vec<u8>) -> (written: Vec<u8>)
    ensures
        written@ == escaped(bytes@),
{
    let mut written: Vec<u8> = Vec::new();
    let mut i: usize = 0;
    while i < bytes.len()
        invariant
            i <= bytes.len(),
            written@ == escaped(bytes@.take(i as int)),
        decreases bytes.len() - i,
    {
        let byte: u8 = bytes[i];
        proof {
            lemma_escaped_push(bytes@.take(i as int), byte);
            assert(bytes@.take(i + 1) =~= bytes@.take(i as int).push(byte));
        }
        if byte == 0x27 || byte == 0x5c {
            written.push(0x5c);
        }
        written.push(byte);
        assert(written@ =~= escaped(bytes@.take(i as int)) + escaped_byte(byte));
        i += 1;
    }
    assert(bytes@.take(bytes.len() as int) =~= bytes@);
    written
}

/// Writes a run of bytes as it stands in a path.
pub fn url_encode(bytes: &Vec<u8>) -> (written: String)
    ensures
        written@ == url_encoded(bytes@),
{
    let mut written = String::new();
    let mut i: usize = 0;
    while i < bytes.len()
        invariant
            i <= bytes.len(),
            written@ == url_encoded(bytes@.take(i as int)),
        decreases bytes.len() - i,
    {
        let byte: u8 = bytes[i];
        proof {
            lemma_url_encoded_push(bytes@.take(i as int), byte);
            assert(bytes@.take(i + 1) =~= bytes@.take(i as int).push(byte));
            reveal_strlit("%");
        }
        if stands_for_itself(byte) {
            written.append(unreserved_text(byte));
        } else {
            written.append("%");
            written.append(hex_digit_text(byte / 16));
            written.append(hex_digit_text(byte % 16));
        }
        assert(written@ =~= url_encoded(bytes@.take(i as int)) + url_encoded_byte(byte));
        i += 1;
    }
    assert(bytes@.take(bytes.len() as int) =~= bytes@);
    written
}

} // verus!
