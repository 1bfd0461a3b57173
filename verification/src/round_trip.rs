//! What is written can be read back: the escaped form of a path, as bytes,
//! gives the path again under the length-prefix rule.

use crate::decimal::{decimal, digit_char};
use crate::edl::escaped_path;
use crate::reader::{
    digit_run, digits_value, is_digit, lemma_digit_run_is, unescape, Unescaped, SENTINEL,
};
use vstd::prelude::*;
use vstd::utf8::{
    decode_utf8, encode_utf8, encode_utf8_decode_utf8, is_ascii_chars, is_ascii_chars_encode_utf8,
};

verus! {

/// The encoding of two texts joined is the two encodings joined.
pub proof fn lemma_encode_joined(head: Seq<char>, tail: Seq<char>)
    ensures
        encode_utf8(head + tail) == encode_utf8(head) + encode_utf8(tail),
    decreases head.len(),
{
    if head.len() == 0 {
        assert(head + tail =~= tail);
        assert(encode_utf8(head) + encode_utf8(tail) =~= encode_utf8(tail));
    } else {
        assert((head + tail).drop_first() =~= head.drop_first() + tail);
        lemma_encode_joined(head.drop_first(), tail);
        assert(encode_utf8(head + tail) =~= encode_utf8(head) + encode_utf8(tail));
    }
}

/// The encoding of one ASCII character is the one byte of its code.
pub proof fn lemma_encode_ascii_char(c: char)
    requires
        c <= '\u{7f}',
    ensures
        encode_utf8(seq![c]) == seq![c as u8],
{
    let text = seq![c];
    assert(is_ascii_chars(text));
    is_ascii_chars_encode_utf8(text);
    assert(text[0] as u8 == encode_utf8(text)[0]);
    assert(encode_utf8(text) =~= seq![c as u8]);
}

/// A decimal numeral is encoded as digits, at least one, which write the
/// number it was made from.
pub proof fn lemma_decimal_reads_back(n: nat)
    ensures
        encode_utf8(decimal(n)).len() >= 1,
        forall|j: int|
            0 <= j < encode_utf8(decimal(n)).len() ==> is_digit(
                #[trigger] encode_utf8(decimal(n))[j],
            ),
        digits_value(encode_utf8(decimal(n))) == n,
    decreases n,
{
    if n < 10 {
        lemma_encode_ascii_char(digit_char(n));
        let bytes = encode_utf8(decimal(n));
        assert(bytes.drop_last() =~= Seq::<u8>::empty());
        assert(digits_value(bytes.drop_last()) == 0);
    } else {
        let last = digit_char(n % 10);
        lemma_decimal_reads_back(n / 10);
        lemma_encode_ascii_char(last);
        assert(decimal(n) =~= decimal(n / 10) + seq![last]);
        lemma_encode_joined(decimal(n / 10), seq![last]);
        let bytes = encode_utf8(decimal(n));
        let front = encode_utf8(decimal(n / 10));
        assert(bytes == front + seq![last as u8]);
        assert(bytes.drop_last() =~= front);
        assert(bytes.last() == last as u8);
        assert forall|j: int| 0 <= j < bytes.len() implies is_digit(#[trigger] bytes[j]) by {
            if j < front.len() {
                assert(bytes[j] == front[j]);
            }
        }
    }
}

/// Encode, then read: the escaped form of any path, followed by any bytes,
/// is read back as the bytes of that path, and the bytes that followed are
/// left over. The path may hold the comma that parts the fields of a line,
/// the sentinel, or a line feed: the length alone says where it ends.
pub proof fn lemma_escape_round_trip(path: Seq<char>, rest: Seq<u8>)
    ensures
        unescape(encode_utf8(escaped_path(path)) + rest) == Some(
            Unescaped { path: encode_utf8(path), rest },
        ),
        decode_utf8(encode_utf8(path)) == path,
{
    let raw = encode_utf8(path);
    let numeral = decimal(raw.len());
    let digits = encode_utf8(numeral);
    let mark = seq![SENTINEL];
    lemma_encode_ascii_char('%');
    lemma_encode_joined(seq!['%'], numeral);
    lemma_encode_joined(seq!['%'] + numeral, seq!['%']);
    lemma_encode_joined(seq!['%'] + numeral + seq!['%'], path);
    lemma_decimal_reads_back(raw.len());
    encode_utf8_decode_utf8(path);
    let bytes = encode_utf8(escaped_path(path)) + rest;
    assert(bytes =~= mark + digits + mark + raw + rest);
    let after = bytes.skip(1);
    assert(after =~= digits + mark + raw + rest);
    assert forall|j: int| 0 <= j < digits.len() implies is_digit(#[trigger] after[j]) by {
        assert(after[j] == digits[j]);
    }
    assert(after[digits.len() as int] == SENTINEL);
    lemma_digit_run_is(after, digits.len() as int);
    let close = digits.len() as int + 1;
    assert(bytes.subrange(1, close) =~= digits);
    assert(bytes[close] == SENTINEL);
    assert(bytes.subrange(close + 1, close + 1 + raw.len()) =~= raw);
    assert(bytes.skip(close + 1 + raw.len()) =~= rest);
}

} // verus!
