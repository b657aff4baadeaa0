//! Identifiers as path segments of a URL.

use vstd::prelude::*;
use vstd::utf8::{encode_utf8, is_ascii_chars, is_ascii_chars_encode_utf8};

verus! {

/// Whether a byte of a path segment is written as a percent escape: the
/// control characters, everything outside ASCII, and the characters that
/// would end or split a path segment.
pub open spec fn is_escaped(byte: u8) -> bool {
    ||| byte < 0x20
    ||| byte >= 0x7f
    ||| byte == 0x20  // space
    ||| byte == 0x22  // "
    ||| byte == 0x23  // #
    ||| byte == 0x25  // %
    ||| byte == 0x2f  // /
    ||| byte == 0x3c  // <
    ||| byte == 0x3e  // >
    ||| byte == 0x3f  // ?
    ||| byte == 0x60  // `
    ||| byte == 0x7b  // {
    ||| byte == 0x7d  // }
}

/// The upper-case hexadecimal digit of a value below sixteen.
pub open spec fn hex_digit(nibble: u8) -> char {
    if nibble < 10 {
        (0x30 + nibble) as u8 as char
    } else {
        (0x41 + (nibble - 10)) as u8 as char
    }
}

/// One byte of a path segment as it stands in a URL.
pub open spec fn escaped_byte(byte: u8) -> Seq<char> {
    if is_escaped(byte) {
        seq!['%', hex_digit(byte / 16), hex_digit(byte % 16)]
    } else {
        seq![byte as char]
    }
}

/// The bytes of a path segment as they stand in a URL.
pub open spec fn escaped_bytes(bytes: Seq<u8>) -> Seq<char>
    decreases bytes.len(),
{
    if bytes.len() == 0 {
        Seq::empty()
    } else {
        escaped_byte(bytes[0]) + escaped_bytes(bytes.drop_first())
    }
}

/// An identifier as one path segment of a URL: its UTF-8 bytes, percent-encoded.
pub open spec fn path_segment(id: Seq<char>) -> Seq<char> {
    escaped_bytes(encode_utf8(id))
}

/// Calls `progenitor_client::encode_path`, which percent-encodes the UTF-8
/// bytes of a string for use as one path segment: a byte that `is_escaped`
/// becomes `%` and two upper-case hexadecimal digits, any other byte stays.
#[verifier::external_body]
pub(crate) fn encode_path(id: &str) -> (segment: String)
    ensures
        segment@ == path_segment(id@),
{
    progenitor_client::encode_path(id)
}

/// Whether a character stands in a path segment as it is.
pub open spec fn is_plain(c: char) -> bool {
    '\0' <= c <= '\u{7f}' && !is_escaped(c as u8)
}

/// An encoded segment is made of `%` and of characters that need no
/// escape. It holds no `/`, `?` or `#`: whatever the identifier is, it cannot
/// change the path of a request nor reach into its query.
pub proof fn segment_is_inert(id: Seq<char>)
    ensures
        forall|i: int|
            0 <= i < path_segment(id).len() ==> {
                let c = #[trigger] path_segment(id)[i];
                &&& c == '%' || is_plain(c)
                &&& c != '/' && c != '?' && c != '#'
            },
{
    escaped_bytes_are_inert(encode_utf8(id));
}

/// An identifier made of characters that need no escape is its own
/// segment.
pub proof fn plain_id_is_kept(id: Seq<char>)
    requires
        forall|i: int| 0 <= i < id.len() ==> is_plain(#[trigger] id[i]),
    ensures
        path_segment(id) == id,
{
    assert(is_ascii_chars(id)) by {
        assert forall|i: int| 0 <= i < id.len() implies '\0' <= #[trigger] id[i] <= '\u{7f}' by {
            assert(is_plain(id[i]));
        }
    }
    is_ascii_chars_encode_utf8(id);
    let bytes = encode_utf8(id);
    assert forall|i: int| 0 <= i < bytes.len() implies !is_escaped(#[trigger] bytes[i]) by {
        assert(is_plain(id[i]));
        assert(bytes[i] == id[i] as u8);
    }
    unescaped_bytes_are_kept(bytes);
    assert(path_segment(id) =~= id) by {
        assert forall|i: int| 0 <= i < id.len() implies path_segment(id)[i] == id[i] by {
            assert(is_plain(id[i]));
            assert(bytes[i] == id[i] as u8);
        }
    }
}

proof fn escaped_bytes_are_inert(bytes: Seq<u8>)
    ensures
        forall|i: int|
            0 <= i < escaped_bytes(bytes).len() ==> {
                let c = #[trigger] escaped_bytes(bytes)[i];
                &&& c == '%' || is_plain(c)
                &&& c != '/' && c != '?' && c != '#'
            },
    decreases bytes.len(),
{
    if bytes.len() > 0 {
        escaped_bytes_are_inert(bytes.drop_first());
        let head = escaped_byte(bytes[0]);
        let tail = escaped_bytes(bytes.drop_first());
        hex_digit_is_plain((bytes[0] / 16) as u8);
        hex_digit_is_plain((bytes[0] % 16) as u8);
        assert forall|i: int| 0 <= i < escaped_bytes(bytes).len() implies {
            let c = #[trigger] escaped_bytes(bytes)[i];
            &&& c == '%' || is_plain(c)
            &&& c != '/' && c != '?' && c != '#'
        } by {
            if i < head.len() {
                assert(escaped_bytes(bytes)[i] == head[i]);
            } else {
                assert(escaped_bytes(bytes)[i] == tail[i - head.len()]);
            }
        }
    }
}

proof fn hex_digit_is_plain(nibble: u8)
    requires
        nibble < 16,
    ensures
        is_plain(hex_digit(nibble)),
        hex_digit(nibble) != '/',
        hex_digit(nibble) != '?',
        hex_digit(nibble) != '#',
{
}

proof fn unescaped_bytes_are_kept(bytes: Seq<u8>)
    requires
        forall|i: int| 0 <= i < bytes.len() ==> !is_escaped(#[trigger] bytes[i]),
    ensures
        escaped_bytes(bytes).len() == bytes.len(),
        forall|i: int| 0 <= i < bytes.len() ==> #[trigger] escaped_bytes(bytes)[i] == bytes[i] as char,
    decreases bytes.len(),
{
    if bytes.len() > 0 {
        let rest = bytes.drop_first();
        assert forall|i: int| 0 <= i < rest.len() implies !is_escaped(#[trigger] rest[i]) by {
            assert(rest[i] == bytes[i + 1]);
        }
        unescaped_bytes_are_kept(rest);
        assert(!is_escaped(bytes[0]));
        assert forall|i: int| 0 <= i < bytes.len() implies #[trigger] escaped_bytes(bytes)[i]
            == bytes[i] as char by {
            if i > 0 {
                assert(escaped_bytes(bytes)[i] == escaped_bytes(rest)[i - 1]);
                assert(rest[i - 1] == bytes[i]);
            }
        }
    }
}

} // verus!
