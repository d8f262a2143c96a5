//! Reading the decoder's report.
//!
//! When the decoder fails it says so in one line of text, and the only
//! thing of substance in the line is a number, its native code, which
//! stands behind the label `Native:`. This module finds the number.
//!
//! The text is taken as bytes. The label and the digits are ASCII, and in
//! UTF-8 no byte of a longer character is an ASCII byte, so what is found
//! in the bytes is what stands in the text.

use vstd::prelude::*;
use crate::protocol::DecodeError;

verus! {

/// Length of the label `Native:`.
pub const LABEL_LENGTH: usize = 7;

/// The label that stands before the native code: `Native:`.
pub open spec fn code_label() -> Seq<u8> {
    seq![78u8, 97u8, 116u8, 105u8, 118u8, 101u8, 58u8]
}

/// Whether the label stands in the text at this place.
pub open spec fn label_at(text: Seq<u8>, at: int) -> bool {
    &&& 0 <= at
    &&& at + LABEL_LENGTH <= text.len()
    &&& forall|k: int| 0 <= k < LABEL_LENGTH ==> #[trigger] text[at + k] == code_label()[k]
}

/// The first place at or after `from` where the label stands.
pub open spec fn find_label(text: Seq<u8>, from: int) -> Option<int>
    decreases text.len() - from,
{
    if from < 0 || from + LABEL_LENGTH > text.len() {
        None
    } else if label_at(text, from) {
        Some(from)
    } else {
        find_label(text, from + 1)
    }
}

/// Whether a byte is a decimal digit.
pub open spec fn is_digit(byte: u8) -> bool {
    48 <= byte <= 57
}

/// How many digits stand in a row from this place on.
pub open spec fn digit_run(text: Seq<u8>, from: int) -> nat
    decreases text.len() - from,
{
    if 0 <= from < text.len() && is_digit(text[from]) {
        1 + digit_run(text, from + 1)
    } else {
        0
    }
}

/// The number that a row of digits spells.
pub open spec fn spelled(digits: Seq<u8>) -> nat
    decreases digits.len(),
{
    if digits.len() == 0 {
        0
    } else {
        spelled(digits.drop_last()) * 10 + (digits.last() - 48) as nat
    }
}

/// The number that stands at this place: a minus sign or none, and the
/// digits that follow it in a row. None where no digit follows.
pub open spec fn number_at(text: Seq<u8>, at: int) -> Option<int> {
    let negative = 0 <= at < text.len() && text[at] == 45u8;
    let first = if negative {
        at + 1
    } else {
        at
    };
    let count = digit_run(text, first);
    if count == 0 {
        None
    } else {
        let magnitude = spelled(text.subrange(first, first + count));
        Some(
            if negative {
                -magnitude
            } else {
                magnitude as int
            },
        )
    }
}

/// The native code that a report names: the number directly behind the
/// first `Native:` in it. None where the report has no such label, where no
/// number stands behind it, and where the number is beyond the range of a
/// code.
pub open spec fn reported_code(text: Seq<u8>) -> Option<i64> {
    match find_label(text, 0) {
        None => None,
        Some(at) => match number_at(text, at + LABEL_LENGTH) {
            None => None,
            Some(number) => if i64::MIN <= number <= i64::MAX {
                Some(number as i64)
            } else {
                None
            },
        },
    }
}

/// What `find_label` finds is the first place of the label: the label
/// stands there, and nowhere between `from` and there. Where it finds
/// nothing, the label stands nowhere from `from` on.
pub proof fn lemma_find_label_is_first(text: Seq<u8>, from: int)
    requires
        0 <= from,
    ensures
        match find_label(text, from) {
            Some(at) => from <= at && label_at(text, at) && forall|earlier: int|
                from <= earlier < at ==> !label_at(text, earlier),
            None => forall|at: int| from <= at ==> !label_at(text, at),
        },
    decreases text.len() - from,
{
    if from + LABEL_LENGTH <= text.len() && !label_at(text, from) {
        lemma_find_label_is_first(text, from + 1);
    }
}

/// A row of digits that ends at `to` is the whole run from `from`: every
/// byte between the two is a digit, and at `to` the text ends or goes on
/// with something else.
proof fn lemma_digit_run_ends(text: Seq<u8>, from: int, to: int)
    requires
        0 <= from <= to <= text.len(),
        forall|k: int| from <= k < to ==> is_digit(#[trigger] text[k]),
        to == text.len() || !is_digit(text[to]),
    ensures
        digit_run(text, from) == to - from,
    decreases to - from,
{
    if from < to {
        lemma_digit_run_ends(text, from + 1, to);
    }
}

/// One more digit never makes the number smaller.
proof fn lemma_spelled_grows(text: Seq<u8>, first: int, shorter: int, longer: int)
    requires
        0 <= first <= shorter <= longer <= text.len(),
    ensures
        spelled(text.subrange(first, shorter)) <= spelled(text.subrange(first, longer)),
    decreases longer - shorter,
{
    if shorter < longer {
        lemma_spelled_grows(text, first, shorter, longer - 1);
        assert(text.subrange(first, longer).drop_last() =~= text.subrange(first, longer - 1));
    }
}

/// Whether the label stands in the text at this place.
fn label_stands_at(text: &[u8], at: usize) -> (found: bool)
    requires
        at + LABEL_LENGTH <= text.len(),
    ensures
        found == label_at(text@, at as int),
{
    let found = text[at] == 78 && text[at + 1] == 97 && text[at + 2] == 116 && text[at + 3] == 105
        && text[at + 4] == 118 && text[at + 5] == 101 && text[at + 6] == 58;
    proof {
        if found {
            assert forall|k: int| 0 <= k < LABEL_LENGTH implies #[trigger] text@[at + k]
                == code_label()[k] by {
                assert(k == 0 || k == 1 || k == 2 || k == 3 || k == 4 || k == 5 || k == 6);
            }
        } else {
            if label_at(text@, at as int) {
                assert(text@[at + 0] == code_label()[0]);
                assert(text@[at + 1] == code_label()[1]);
                assert(text@[at + 2] == code_label()[2]);
                assert(text@[at + 3] == code_label()[3]);
                assert(text@[at + 4] == code_label()[4]);
                assert(text@[at + 5] == code_label()[5]);
                assert(text@[at + 6] == code_label()[6]);
            }
        }
    }
    found
}

/// Finds the first place in the text where the label stands.
fn locate_label(text: &[u8]) -> (place: Option<usize>)
    ensures
        match place {
            Some(at) => at + LABEL_LENGTH <= text.len() && find_label(text@, 0) == Some(at as int),
            None => find_label(text@, 0) is None,
        },
{
    if text.len() < LABEL_LENGTH {
        return None;
    }
    let last: usize = text.len() - LABEL_LENGTH;
    let mut at: usize = 0;
    while at <= last
        invariant
            last + LABEL_LENGTH == text.len(),
            at <= last + 1,
            find_label(text@, 0) == find_label(text@, at as int),
        decreases last + 1 - at,
    {
        if label_stands_at(text, at) {
            return Some(at);
        }
        at += 1;
    }
    None
}

/// Reads the number that stands in the text at this place, if one does and
/// it is within the range of a code.
fn read_number(text: &[u8], at: usize) -> (number: Option<i64>)
    requires
        at <= text.len(),
    ensures
        number == match number_at(text@, at as int) {
            Some(n) => if i64::MIN <= n <= i64::MAX {
                Some(n as i64)
            } else {
                None
            },
            None => None,
        },
{
    let negative = at < text.len() && text[at] == 45;
    let first: usize = if negative {
        at + 1
    } else {
        at
    };
    // One more than the largest code: the magnitude of the smallest.
    let limit: u64 = 0x8000_0000_0000_0000;
    let mut magnitude: u64 = 0;
    let mut overflow = false;
    let mut to: usize = first;
    while to < text.len() && text[to] >= 48 && text[to] <= 57
        invariant
            first <= to <= text.len(),
            limit == 0x8000_0000_0000_0000,
            forall|k: int| first <= k < to ==> is_digit(#[trigger] text@[k]),
            !overflow ==> magnitude == spelled(text@.subrange(first as int, to as int)),
            !overflow ==> magnitude <= limit,
            overflow ==> spelled(text@.subrange(first as int, to as int)) > limit,
        decreases text.len() - to,
    {
        let digit: u64 = (text[to] - 48) as u64;
        proof {
            assert(text@.subrange(first as int, to + 1).drop_last() =~= text@.subrange(
                first as int,
                to as int,
            ));
            lemma_spelled_grows(text@, first as int, to as int, to + 1);
        }
        if !overflow {
            // `magnitude * 10 + digit` is beyond the limit exactly if
            // `magnitude` is beyond a tenth of what is left of it.
            if magnitude > (limit - digit) / 10 {
                overflow = true;
            } else {
                magnitude = magnitude * 10 + digit;
            }
        }
        to += 1;
    }
    proof {
        lemma_digit_run_ends(text@, first as int, to as int);
    }
    if to == first || overflow {
        return None;
    }
    if negative {
        if magnitude == limit {
            Some(i64::MIN)
        } else {
            Some(-(magnitude as i64))
        }
    } else if magnitude == limit {
        None
    } else {
        Some(magnitude as i64)
    }
}

/// Reads the native code out of a report of the decoder.
pub fn native_code(report: &[u8]) -> (code: Option<i64>)
    ensures
        code == reported_code(report@),
{
    match locate_label(report) {
        None => None,
        Some(at) => {
            proof {
                lemma_find_label_is_first(report@, 0);
            }
            read_number(report, at + LABEL_LENGTH)
        },
    }
}

impl DecodeError {
    /// The error that a report tells of: its code is the native code that
    /// the report names, and 0 where it names none.
    pub open spec fn told_by(report: Seq<u8>) -> DecodeError {
        DecodeError {
            code: match reported_code(report) {
                Some(code) => code,
                None => 0,
            },
        }
    }

    /// Keeps of a report of the decoder what there is to keep: the code.
    pub fn from_report(report: &[u8]) -> (error: DecodeError)
        ensures
            error == Self::told_by(report@),
    {
        match native_code(report) {
            Some(code) => DecodeError { code },
            None => DecodeError { code: 0 },
        }
    }
}

} // verus!
