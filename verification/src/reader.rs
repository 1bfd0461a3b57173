//! Reading an escaped path back: the length-prefix rule, on bytes.

use vstd::prelude::*;
use vstd::slice::{slice_subrange, slice_to_vec};

verus! {

/// The byte `%`, which stands on both sides of the length.
pub const SENTINEL: u8 = 37;

/// Whether `byte` is one of `0` to `9`.
pub open spec fn is_digit(byte: u8) -> bool {
    48 <= byte <= 57
}

/// How many digits `bytes` starts with.
pub open spec fn digit_run(bytes: Seq<u8>) -> nat
    decreases bytes.len(),
{
    if bytes.len() > 0 && is_digit(bytes[0]) {
        1 + digit_run(bytes.drop_first())
    } else {
        0
    }
}

/// The number that a sequence of digits writes; 0 for none.
pub open spec fn digits_value(digits: Seq<u8>) -> nat
    decreases digits.len(),
{
    if digits.len() == 0 {
        0
    } else {
        digits_value(digits.drop_last()) * 10 + (digits.last() - 48) as nat
    }
}

/// A path taken from the head of some bytes, and the bytes that follow it.
pub struct Unescaped {
    pub path: Seq<u8>,
    pub rest: Seq<u8>,
}

/// Reads an escaped path from the head of `bytes`: a sentinel, one digit or
/// more, a sentinel, and then as many bytes as the digits say, which are the
/// path. `None` where `bytes` does not start so, or ends before the path does.
pub open spec fn unescape(bytes: Seq<u8>) -> Option<Unescaped> {
    let close: int = digit_run(bytes.skip(1)) as int + 1;
    let length: int = digits_value(bytes.subrange(1, close)) as int;
    if bytes.len() > 0 && bytes[0] == SENTINEL && close >= 2 && close < bytes.len() && bytes[close]
        == SENTINEL && close + 1 + length <= bytes.len() {
        Some(
            Unescaped {
                path: bytes.subrange(close + 1, close + 1 + length),
                rest: bytes.skip(close + 1 + length),
            },
        )
    } else {
        None
    }
}

/// The run of leading digits ends inside `bytes`, holds digits only, and is
/// followed by no digit.
pub proof fn lemma_digit_run_bounds(bytes: Seq<u8>)
    ensures
        digit_run(bytes) <= bytes.len(),
        forall|j: int| 0 <= j < digit_run(bytes) ==> is_digit(#[trigger] bytes[j]),
        digit_run(bytes) < bytes.len() ==> !is_digit(bytes[digit_run(bytes) as int]),
    decreases bytes.len(),
{
    if bytes.len() > 0 && is_digit(bytes[0]) {
        let tail = bytes.drop_first();
        lemma_digit_run_bounds(tail);
        assert forall|j: int| 0 <= j < digit_run(bytes) implies is_digit(#[trigger] bytes[j]) by {
            if j > 0 {
                assert(bytes[j] == tail[j - 1]);
            }
        }
        if digit_run(bytes) < bytes.len() {
            assert(bytes[digit_run(bytes) as int] == tail[digit_run(tail) as int]);
        }
    }
}

/// Where the first `count` bytes are digits and the next one, if there is
/// one, is not, the run of leading digits is `count` long.
pub proof fn lemma_digit_run_is(bytes: Seq<u8>, count: int)
    requires
        0 <= count <= bytes.len(),
        forall|j: int| 0 <= j < count ==> is_digit(#[trigger] bytes[j]),
        count < bytes.len() ==> !is_digit(bytes[count]),
    ensures
        digit_run(bytes) == count,
{
    lemma_digit_run_bounds(bytes);
    let run = digit_run(bytes) as int;
    if run < count {
        assert(is_digit(bytes[run]));
    } else if run > count {
        assert(is_digit(bytes[count]));
    }
}

/// A longer sequence of digits writes no smaller a number than its head.
pub proof fn lemma_digits_value_grows(digits: Seq<u8>, head: int)
    requires
        0 <= head <= digits.len(),
        forall|j: int| 0 <= j < digits.len() ==> is_digit(#[trigger] digits[j]),
    ensures
        digits_value(digits.take(head)) <= digits_value(digits),
    decreases digits.len() - head,
{
    if head == digits.len() {
        assert(digits.take(head) =~= digits);
    } else {
        let shorter = digits.drop_last();
        assert(shorter.take(head) =~= digits.take(head));
        lemma_digits_value_grows(shorter, head);
        assert(is_digit(digits.last()));
    }
}

/// Whether `byte` is a digit.
pub fn is_digit_byte(byte: u8) -> (digit: bool)
    ensures
        digit == is_digit(byte),
{
    48 <= byte && byte <= 57
}

/// Takes the path from the head of `line` by the length-prefix rule: the
/// bytes that [`unescape`] gives, and `None` where it gives none.
pub fn extract_path(line: &[u8]) -> (found: Option<Vec<u8>>)
    ensures
        match found {
            Some(path) => unescape(line@) matches Some(read) && read.path == path@,
            None => unescape(line@) is None,
        },
{
    let total = line.len();
    if total == 0 || line[0] != SENTINEL {
        return None;
    }
    let ghost tail = line@.skip(1);
    let mut at: usize = 1;
    let mut length: usize = 0;
    while at < total && is_digit_byte(line[at])
        invariant
            1 <= at <= total,
            total == line@.len(),
            tail == line@.skip(1),
            forall|j: int| 0 <= j < at - 1 ==> is_digit(#[trigger] tail[j]),
            length == digits_value(line@.subrange(1, at as int)),
            length <= total,
        decreases total - at,
    {
        let digit: u128 = (line[at] - 48) as u128;
        let longer: u128 = length as u128 * 10 + digit;
        proof {
            let read = line@.subrange(1, at + 1);
            assert(read.drop_last() =~= line@.subrange(1, at as int));
            assert(read.last() == line@[at as int]);
            assert(tail[at - 1] == line@[at as int]);
        }
        if longer > total as u128 {
            proof {
                lemma_digit_run_bounds(tail);
                let run = digit_run(tail) as int;
                if run < at {
                    assert(is_digit(tail[run]));
                }
                let digits = line@.subrange(1, run + 1);
                assert(digits.take(at as int) =~= line@.subrange(1, at + 1));
                assert forall|j: int| 0 <= j < digits.len() implies is_digit(
                    #[trigger] digits[j],
                ) by {
                    assert(digits[j] == tail[j]);
                }
                lemma_digits_value_grows(digits, at as int);
            }
            return None;
        }
        length = longer as usize;
        at += 1;
    }
    proof {
        if at < total {
            assert(tail[at - 1] == line@[at as int]);
        }
        lemma_digit_run_is(tail, at - 1);
    }
    if at < 2 || at >= total || line[at] != SENTINEL {
        return None;
    }
    let start = at + 1;
    if length > total - start {
        return None;
    }
    let path = slice_to_vec(slice_subrange(line, start, start + length));
    Some(path)
}

} // verus!
