//! Percent-encoded workspace paths, as file mentions carry them.

use vstd::prelude::*;
use vstd::utf8::{decode_utf8, encode_scalar, encode_utf8, valid_utf8};

verus! {

/// The value of a hexadecimal digit, given as its ASCII byte.
pub open spec fn hex_value(b: u8) -> Option<u8> {
    if 0x30 <= b <= 0x39 {
        Some((b - 0x30) as u8)
    } else if 0x41 <= b <= 0x46 {
        Some((b - 0x37) as u8)
    } else if 0x61 <= b <= 0x66 {
        Some((b - 0x57) as u8)
    } else {
        None
    }
}

/// The bytes that percent-encoded bytes stand for: every `%` (0x25) is followed by two hexadecimal
/// digits and the three stand for one byte; any other byte stands for itself. `None` where a `%`
/// is not followed by two hexadecimal digits.
pub open spec fn unescaped(bytes: Seq<u8>) -> Option<Seq<u8>>
    decreases bytes.len(),
{
    if bytes.len() == 0 {
        Some(seq![])
    } else if bytes[0] != 0x25 {
        match unescaped(bytes.skip(1)) {
            Some(rest) => Some(seq![bytes[0]] + rest),
            None => None,
        }
    } else if bytes.len() >= 3 && hex_value(bytes[1]) is Some && hex_value(bytes[2]) is Some {
        match unescaped(bytes.skip(3)) {
            Some(rest) => Some(
                seq![(hex_value(bytes[1])->0 * 16 + hex_value(bytes[2])->0) as u8] + rest,
            ),
            None => None,
        }
    } else {
        None
    }
}

/// The text that a percent-encoded text stands for: its UTF-8 bytes are unescaped and read as
/// UTF-8 again. `None` where an escape is malformed or the bytes are not UTF-8.
pub open spec fn percent_decoded(s: Seq<char>) -> Option<Seq<char>> {
    match unescaped(encode_utf8(s)) {
        Some(bytes) => if valid_utf8(bytes) {
            Some(decode_utf8(bytes))
        } else {
            None
        },
        None => None,
    }
}

/// `String::from_utf8` gives the string with exactly these UTF-8 bytes, and fails exactly where
/// the bytes are not valid UTF-8.
#[verifier::external_body]
fn string_from_utf8(bytes: Vec<u8>) -> (r: Option<String>)
    ensures
        match r {
            Some(s) => valid_utf8(bytes@) && encode_utf8(s@) == bytes@,
            None => !valid_utf8(bytes@),
        },
{
    String::from_utf8(bytes).ok()
}

/// The value of a hexadecimal digit, given as its ASCII byte.
fn hex_digit_value(b: u8) -> (r: Option<u8>)
    ensures
        r == hex_value(b),
        r matches Some(v) ==> v < 16,
{
    if 0x30 <= b && b <= 0x39 {
        Some(b - 0x30)
    } else if 0x41 <= b && b <= 0x46 {
        Some(b - 0x37)
    } else if 0x61 <= b && b <= 0x66 {
        Some(b - 0x57)
    } else {
        None
    }
}

/// What unescaping the whole gives once `front` stands for its first part and `rest` is left.
spec fn joined(front: Seq<u8>, rest: Option<Seq<u8>>) -> Option<Seq<u8>> {
    match rest {
        Some(tail) => Some(front + tail),
        None => None,
    }
}

/// Decodes a percent-encoded path; `None` where it is not valid percent-encoding of a text.
pub fn percent_decode_path(encoded: &str) -> (r: Option<String>)
    ensures
        match r {
            Some(path) => percent_decoded(encoded@) == Some(path@),
            None => percent_decoded(encoded@) is None,
        },
{
    broadcast use vstd::utf8::encode_utf8_decode_utf8;

    let bytes = encoded.as_bytes();
    let ghost all = bytes@;
    let mut out: Vec<u8> = Vec::new();
    let mut i: usize = 0;
    assert(all.skip(0) =~= all);
    proof {
        if let Some(tail) = unescaped(all) {
            assert(Seq::<u8>::empty() + tail =~= tail);
        }
    }
    while i < bytes.len()
        invariant
            bytes@ == all,
            all == encode_utf8(encoded@),
            i <= all.len(),
            unescaped(all) == joined(out@, unescaped(all.skip(i as int))),
        decreases all.len() - i,
    {
        let ghost rest = all.skip(i as int);
        let ghost before = out@;
        if bytes[i] != 0x25 {
            out.push(bytes[i]);
            proof {
                assert(rest.skip(1) =~= all.skip(i + 1));
                if let Some(tail) = unescaped(rest.skip(1)) {
                    assert(before + (seq![rest[0]] + tail) =~= out@ + tail);
                }
            }
            i += 1;
        } else {
            if bytes.len() - i < 3 {
                return None;
            }
            match (hex_digit_value(bytes[i + 1]), hex_digit_value(bytes[i + 2])) {
                (Some(high), Some(low)) => {
                    out.push(high * 16 + low);
                    proof {
                        assert(rest.skip(3) =~= all.skip(i + 3));
                        if let Some(tail) = unescaped(rest.skip(3)) {
                            assert(before + (seq![(high * 16 + low) as u8] + tail) =~= out@ + tail);
                        }
                    }
                    i += 3;
                },
                _ => {
                    return None;
                },
            }
        }
    }
    assert(all.skip(i as int) =~= Seq::<u8>::empty());
    assert(out@ + Seq::<u8>::empty() =~= out@);
    string_from_utf8(out)
}

// ---------------------------------------------------------------------------
// Laws
// ---------------------------------------------------------------------------

/// The ASCII byte of a hexadecimal digit, in capitals.
pub open spec fn hex_digit(v: int) -> u8 {
    if v < 10 {
        (0x30 + v) as u8
    } else {
        (0x37 + v) as u8
    }
}

/// Bytes percent-encoded by an encoder that leaves the bytes in `keep` as they are, except for
/// `%` itself, and writes any other byte as `%` and two hexadecimal digits.
pub open spec fn escaped(bytes: Seq<u8>, keep: spec_fn(u8) -> bool) -> Seq<u8>
    decreases bytes.len(),
{
    if bytes.len() == 0 {
        seq![]
    } else {
        let b = bytes[0];
        let rest = escaped(bytes.drop_first(), keep);
        if keep(b) && b != 0x25 {
            seq![b] + rest
        } else {
            seq![0x25u8, hex_digit(b as int / 16), hex_digit(b as int % 16)] + rest
        }
    }
}

/// Unescaping gives back what was escaped, whichever bytes the encoder left as they were.
proof fn lemma_unescape_escaped(bytes: Seq<u8>, keep: spec_fn(u8) -> bool)
    ensures
        unescaped(escaped(bytes, keep)) == Some(bytes),
    decreases bytes.len(),
{
    if bytes.len() == 0 {
        assert(bytes =~= seq![]);
    } else {
        let b = bytes[0];
        let tail = bytes.drop_first();
        lemma_unescape_escaped(tail, keep);
        let rest = escaped(tail, keep);
        let e = escaped(bytes, keep);
        assert(seq![b] + tail =~= bytes);
        if keep(b) && b != 0x25 {
            assert(e.skip(1) =~= rest);
        } else {
            assert(e.skip(3) =~= rest);
            assert(hex_value(hex_digit(b as int / 16)) == Some((b as int / 16) as u8));
            assert(hex_value(hex_digit(b as int % 16)) == Some((b as int % 16) as u8));
        }
    }
}

/// Decoding undoes encoding: a text whose bytes are an escaped form of a path's bytes decodes to
/// that path, whichever bytes the encoder chose to escape besides `%`.
pub proof fn law_decoding_undoes_encoding(
    path: Seq<char>,
    encoded: Seq<char>,
    keep: spec_fn(u8) -> bool,
)
    requires
        encode_utf8(encoded) == escaped(encode_utf8(path), keep),
    ensures
        percent_decoded(encoded) == Some(path),
{
    broadcast use {vstd::utf8::encode_utf8_decode_utf8, vstd::utf8::encode_utf8_valid_utf8};

    lemma_unescape_escaped(encode_utf8(path), keep);
}

/// No byte of the encoding of a character other than `%` is the byte of `%`.
proof fn lemma_scalar_bytes(c: char)
    requires
        c != '%',
    ensures
        forall|i: int|
            0 <= i < encode_scalar(c as u32).len() ==> #[trigger] encode_scalar(c as u32)[i]
                != 0x25,
{
    let v = c as u32;
    assert(v != 0x25);
    assert(v <= 0x7f && v != 0x25 ==> (v & 0x7F) as u8 != 0x25) by (bit_vector);
    assert((0xC0 | ((v >> 6) & 0x1F) as u8) >= 0x80) by (bit_vector);
    assert((0xE0 | ((v >> 12) & 0x0F) as u8) >= 0x80) by (bit_vector);
    assert((0xF0 | ((v >> 18) & 0x7) as u8) >= 0x80) by (bit_vector);
    assert((0x80 | (v & 0x3F) as u8) >= 0x80) by (bit_vector);
    assert((0x80 | ((v >> 6) & 0x3F) as u8) >= 0x80) by (bit_vector);
    assert((0x80 | ((v >> 12) & 0x3F) as u8) >= 0x80) by (bit_vector);
}

/// The bytes of a text without `%` hold no `%` byte.
proof fn lemma_no_percent_byte(s: Seq<char>)
    requires
        !s.contains('%'),
    ensures
        forall|i: int| 0 <= i < encode_utf8(s).len() ==> #[trigger] encode_utf8(s)[i] != 0x25,
    decreases s.len(),
{
    if s.len() > 0 {
        assert(s[0] != '%');
        assert forall|i: int| 0 <= i < s.drop_first().len() implies s.drop_first()[i] != '%' by {
            assert(s.drop_first()[i] == s[i + 1]);
        }
        lemma_scalar_bytes(s[0]);
        lemma_no_percent_byte(s.drop_first());
        let head = encode_scalar(s[0] as u32);
        let tail = encode_utf8(s.drop_first());
        assert forall|i: int| 0 <= i < encode_utf8(s).len() implies #[trigger] encode_utf8(s)[i]
            != 0x25 by {
            if i < head.len() {
                assert(encode_utf8(s)[i] == head[i]);
            } else {
                assert(encode_utf8(s)[i] == tail[i - head.len()]);
            }
        }
    }
}

/// Bytes without a `%` byte stand for themselves.
proof fn lemma_unescape_plain(bytes: Seq<u8>)
    requires
        forall|i: int| 0 <= i < bytes.len() ==> #[trigger] bytes[i] != 0x25,
    ensures
        unescaped(bytes) == Some(bytes),
    decreases bytes.len(),
{
    if bytes.len() == 0 {
        assert(bytes =~= seq![]);
    } else {
        lemma_unescape_plain(bytes.skip(1));
        assert(seq![bytes[0]] + bytes.skip(1) =~= bytes);
    }
}

/// A text without `%` decodes to itself.
pub proof fn law_plain_text_decodes_to_itself(s: Seq<char>)
    requires
        !s.contains('%'),
    ensures
        percent_decoded(s) == Some(s),
{
    broadcast use {vstd::utf8::encode_utf8_decode_utf8, vstd::utf8::encode_utf8_valid_utf8};

    lemma_no_percent_byte(s);
    lemma_unescape_plain(encode_utf8(s));
}

/// An ASCII character other than `%` at the front of a text is at the front of what the text
/// decodes to.
pub proof fn lemma_first_letter_stays(s: Seq<char>)
    requires
        s.len() > 0,
        s[0] as u32 <= 0x7f,
        s[0] != '%',
    ensures
        percent_decoded(s) matches Some(decoded) ==> decoded.len() > 0 && decoded[0] == s[0],
{
    let bytes = encode_utf8(s);
    let v = s[0] as u32;
    vstd::utf8::encode_utf8_first_scalar(s);
    vstd::utf8::char_u32_cast(s[0], v);
    assert(v <= 0x7f ==> (v & 0x7F) as u8 == v) by (bit_vector);
    assert(v != 0x25);
    assert(bytes.len() > 0 && bytes[0] == v);
    if let Some(out) = unescaped(bytes) {
        let rest = unescaped(bytes.skip(1))->0;
        assert(out == seq![bytes[0]] + rest);
        if valid_utf8(out) {
            let b = out[0];
            assert(b <= 0x7f ==> (b & 0x7F) as u32 == b) by (bit_vector);
            assert(vstd::utf8::decode_first_scalar(out) == v);
        }
    }
}

/// The byte is the hexadecimal digit of this value, in either case.
pub open spec fn digit_of(b: u8, value: int) -> bool {
    ||| 0 <= value < 10 && b == 48 + value
    ||| 10 <= value < 16 && (b == 55 + value || b == 87 + value)
}

/// Encoded bytes stand for plain bytes: one after the other, a plain byte is written as itself,
/// unless that is a `%`, or as `%` and its two hexadecimal digits.
pub open spec fn stands_for(encoded: Seq<u8>, plain: Seq<u8>) -> bool
    decreases plain.len(),
{
    if plain.len() == 0 {
        encoded.len() == 0
    } else {
        ||| {
            &&& encoded.len() >= 1
            &&& encoded[0] == plain[0]
            &&& encoded[0] != 37
            &&& stands_for(encoded.skip(1), plain.skip(1))
        }
        ||| {
            &&& encoded.len() >= 3
            &&& encoded[0] == 37
            &&& digit_of(encoded[1], plain[0] as int / 16)
            &&& digit_of(encoded[2], plain[0] as int % 16)
            &&& stands_for(encoded.skip(3), plain.skip(1))
        }
    }
}

/// Unescaping gives the bytes that the encoded ones stand for, and gives bytes only where there are
/// such.
proof fn lemma_unescaped_stands_for(encoded: Seq<u8>, plain: Seq<u8>)
    ensures
        unescaped(encoded) == Some(plain) <==> stands_for(encoded, plain),
    decreases encoded.len(),
{
    if encoded.len() == 0 {
        if plain.len() == 0 {
            assert(plain =~= seq![]);
        }
    } else {
        let step: int = if encoded[0] != 0x25 {
            1
        } else {
            3
        };
        if encoded.len() >= step {
            let rest = encoded.skip(step);
            if plain.len() > 0 {
                lemma_unescaped_stands_for(rest, plain.skip(1));
                assert(seq![plain[0]] + plain.skip(1) =~= plain);
            }
            if let Some(out) = unescaped(encoded) {
                let tail = unescaped(rest)->0;
                assert(out.skip(1) =~= tail);
                lemma_unescaped_stands_for(rest, tail);
            }
            if step == 3 && plain.len() > 0 {
                let (high, low) = (encoded[1], encoded[2]);
                let value = plain[0] as int;
                assert(digit_of(high, value / 16) ==> hex_value(high) == Some((value / 16) as u8));
                assert(digit_of(low, value % 16) ==> hex_value(low) == Some((value % 16) as u8));
                if hex_value(high) is Some && hex_value(low) is Some {
                    let sum = hex_value(high)->0 * 16 + hex_value(low)->0;
                    assert(0 <= sum < 256);
                    assert(sum / 16 == hex_value(high)->0 && sum % 16 == hex_value(low)->0);
                }
            }
        }
    }
}

/// A text decodes to a path exactly where its UTF-8 bytes stand for those of the path.
pub proof fn law_decoding_goes_by_bytes(encoded: Seq<char>, path: Seq<char>)
    ensures
        percent_decoded(encoded) == Some(path) <==> stands_for(
            encode_utf8(encoded),
            encode_utf8(path),
        ),
{
    broadcast use {vstd::utf8::encode_utf8_decode_utf8, vstd::utf8::encode_utf8_valid_utf8};

    lemma_unescaped_stands_for(encode_utf8(encoded), encode_utf8(path));
    if let Some(bytes) = unescaped(encode_utf8(encoded)) {
        if valid_utf8(bytes) {
            vstd::utf8::decode_utf8_encode_utf8(bytes);
        }
    }
}

} // verus!
