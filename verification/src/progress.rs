//! Progress extracted from an encoder's diagnostic lines.
//!
//! A line that holds the marker `frame=` reports the index of the frame the
//! encoder has reached: the first whitespace-delimited token after the
//! leftmost marker, read as a decimal number. A completion percentage is that
//! index against the total frame count, in hundredths of a percent.

use vstd::prelude::*;
use crate::number::{
    all_digits,
    decimal,
    digits_value,
    lemma_decimal,
    lemma_digit_is_no_whitespace,
    lemma_parse_digits,
    parse_range,
    parse_unsigned,
};
use crate::text::{
    all_whitespace,
    chars_of,
    find,
    first_occurrence,
    first_token,
    first_token_range,
    is_first_occurrence,
    is_whitespace,
    lemma_first_occurrence_is,
    lemma_first_token_is,
    occurs_at,
};

verus! {

/// A finished job, in hundredths of a percent.
pub const FULL: u32 = 10000;

/// What one diagnostic line says about progress.
#[derive(Clone, Copy, Debug, PartialEq, Eq, Structural)]
pub enum LineClass {
    /// The line holds no marker.
    NoMatch,
    /// The line reports this frame index.
    Progress(u64),
    /// The line holds the marker, but no number follows it.
    Malformed,
}

/// One progress report: the frame reached and, where the total is known, the
/// completion in hundredths of a percent.
#[derive(Clone, Copy, Debug, PartialEq, Eq, Structural)]
pub struct ProgressSample {
    pub current: u64,
    pub percentage: Option<u32>,
}

/// The text that announces a frame index.
pub open spec fn marker() -> Seq<char> {
    seq!['f', 'r', 'a', 'm', 'e', '=']
}

/// The class of a diagnostic line.
pub open spec fn classify(line: Seq<char>) -> LineClass {
    match first_occurrence(line, marker()) {
        None => LineClass::NoMatch,
        Some(i) => match parse_unsigned(
            first_token(line.skip(i + marker().len())),
            10,
            u64::MAX as nat,
        ) {
            Some(k) => LineClass::Progress(k as u64),
            None => LineClass::Malformed,
        },
    }
}

/// The completion of `current` against `total` in hundredths of a percent,
/// rounded down and never over `FULL`. A job of no frames is complete.
pub open spec fn percentage_of(current: nat, total: nat) -> nat {
    if current >= total {
        FULL as nat
    } else {
        current * FULL as nat / total
    }
}

/// The report that a line of the given class gives rise to, if any.
pub open spec fn sample_of(class: LineClass, total: Option<u64>) -> Option<ProgressSample> {
    match class {
        LineClass::Progress(k) => Some(
            ProgressSample {
                current: k,
                percentage: match total {
                    Some(t) => Some(percentage_of(k as nat, t as nat) as u32),
                    None => None,
                },
            },
        ),
        _ => None,
    }
}

/// A line whose leftmost marker stands at `at` is classified by the first
/// token after that marker.
pub proof fn lemma_classify_at(line: Seq<char>, at: int)
    requires
        is_first_occurrence(line, marker(), at),
    ensures
        classify(line) == match parse_unsigned(
            first_token(line.skip(at + marker().len())),
            10,
            u64::MAX as nat,
        ) {
            Some(k) => LineClass::Progress(k as u64),
            None => LineClass::Malformed,
        },
{
    lemma_first_occurrence_is(line, marker(), at);
}

/// A line in which the leftmost marker is followed by optional whitespace,
/// a non-empty string of decimal digits whose value fits 64 bits, and then
/// whitespace or the end of the line, reports exactly that value.
pub proof fn lemma_classify_digits(
    before: Seq<char>,
    gap: Seq<char>,
    digits: Seq<char>,
    after: Seq<char>,
)
    requires
        digits.len() > 0,
        all_digits(digits, 10),
        digits_value(digits, 10) <= u64::MAX,
        all_whitespace(gap),
        after.len() > 0 ==> is_whitespace(after[0]),
        forall|j: int|
            0 <= j < before.len() ==> !occurs_at(
                before + marker() + gap + digits + after,
                marker(),
                j,
            ),
    ensures
        classify(before + marker() + gap + digits + after) == LineClass::Progress(
            digits_value(digits, 10) as u64,
        ),
{
    let tail = gap + digits + after;
    let line = before + marker() + tail;
    assert(before + marker() + gap + digits + after =~= line);
    let at = before.len() as int;
    assert(line.subrange(at, at + marker().len()) =~= marker());
    assert(line.skip(at + marker().len()) =~= tail);
    assert forall|i: int| 0 <= i < digits.len() implies !is_whitespace(#[trigger] digits[i]) by {
        lemma_digit_is_no_whitespace(digits[i]);
    }
    lemma_first_token_is(gap, digits, after);
    lemma_parse_digits(digits, 10, u64::MAX as nat);
    lemma_classify_at(line, at);
}

/// A line in which the leftmost marker is followed by optional whitespace,
/// the decimal numeral of `k`, and then whitespace or the end of the line,
/// reports exactly `k`.
pub proof fn lemma_classify_progress(
    before: Seq<char>,
    gap: Seq<char>,
    k: nat,
    after: Seq<char>,
)
    requires
        k <= u64::MAX,
        all_whitespace(gap),
        after.len() > 0 ==> is_whitespace(after[0]),
        forall|j: int|
            0 <= j < before.len() ==> !occurs_at(
                before + marker() + gap + decimal(k) + after,
                marker(),
                j,
            ),
    ensures
        classify(before + marker() + gap + decimal(k) + after) == LineClass::Progress(k as u64),
{
    lemma_decimal(k);
    lemma_classify_digits(before, gap, decimal(k), after);
}

/// A line without the marker is no progress line and gives rise to no
/// report, whatever the total.
pub proof fn lemma_classify_no_marker(line: Seq<char>, total: Option<u64>)
    requires
        forall|i: int| !occurs_at(line, marker(), i),
    ensures
        classify(line) == LineClass::NoMatch,
        sample_of(classify(line), total) is None,
{
}

/// The percentage never decreases while the frame index does not, and it
/// never exceeds `FULL`, even where the index is over the total.
pub proof fn lemma_percentage_monotonic(earlier: nat, later: nat, total: nat)
    requires
        earlier <= later,
    ensures
        percentage_of(earlier, total) <= percentage_of(later, total) <= FULL,
{
    if later < total {
        assert(earlier * 10000 / total <= later * 10000 / total <= 10000) by (nonlinear_arith)
            requires
                earlier <= later < total,
        ;
    } else if earlier < total {
        assert(earlier * 10000 / total <= 10000) by (nonlinear_arith)
            requires
                earlier < total,
        ;
    }
}

/// Of two progress lines of one job, the one with the higher frame index
/// gives a sample with at least the percentage of the other.
pub proof fn lemma_samples_monotonic(earlier: u64, later: u64, total: u64)
    requires
        earlier <= later,
    ensures
        sample_of(LineClass::Progress(earlier), Some(total))->0.percentage->0 <= sample_of(
            LineClass::Progress(later),
            Some(total),
        )->0.percentage->0 <= FULL,
{
    lemma_percentage_monotonic(earlier as nat, later as nat, total as nat);
}

/// Classifies the characters of a diagnostic line.
pub fn classify_chars(chars: &Vec<char>) -> (class: LineClass)
    ensures
        class == classify(chars@),
{
    let needle: Vec<char> = vec!['f', 'r', 'a', 'm', 'e', '='];
    assert(needle@ =~= marker());
    match find(chars, &needle) {
        None => LineClass::NoMatch,
        Some(at) => {
            let from: usize = at + 6;
            let (start, end) = first_token_range(chars, from, chars.len());
            proof {
                assert(chars@.subrange(from as int, chars.len() as int) =~= chars@.skip(
                    at + marker().len(),
                ));
            }
            match parse_range(chars, start, end, 10, u64::MAX) {
                Some(k) => LineClass::Progress(k),
                None => LineClass::Malformed,
            }
        },
    }
}

/// Classifies a diagnostic line.
pub fn classify_line(line: &str) -> (class: LineClass)
    ensures
        class == classify(line@),
{
    let chars = chars_of(line);
    classify_chars(&chars)
}

/// The completion of `current` against `total`, in hundredths of a percent.
pub fn percentage(current: u64, total: u64) -> (p: u32)
    ensures
        p == percentage_of(current as nat, total as nat),
        p <= FULL,
{
    if current >= total {
        FULL
    } else {
        assert(current * 10000 / (total as int) < 10000) by (nonlinear_arith)
            requires
                0 <= current < total,
        ;
        let scaled: u128 = current as u128 * 10000;
        (scaled / total as u128) as u32
    }
}

/// The report for a line of the given class: none unless it is a progress
/// line; without a percentage when the total is unknown.
pub fn sample_for_class(class: LineClass, total: Option<u64>) -> (sample: Option<ProgressSample>)
    ensures
        sample == sample_of(class, total),
{
    match class {
        LineClass::Progress(k) => {
            let percentage = match total {
                Some(t) => Some(percentage(k, t)),
                None => None,
            };
            Some(ProgressSample { current: k, percentage })
        },
        _ => None,
    }
}

/// The report that a diagnostic line gives rise to, if any.
pub fn sample_for_line(line: &str, total: Option<u64>) -> (sample: Option<ProgressSample>)
    ensures
        sample == sample_of(classify(line@), total),
{
    sample_for_class(classify_line(line), total)
}

} // verus!
