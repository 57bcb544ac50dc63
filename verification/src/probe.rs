//! The probe: how many frames the input holds.
//!
//! The metadata tool is asked for a single bare number. What it did is handed
//! in as a `ToolRun`; the probe turns that into the frame count or into the
//! reason why there is none.

use vstd::prelude::*;
use crate::number::{
    all_digits,
    decimal,
    digit_value,
    digits_value,
    lemma_decimal,
    lemma_digit_is_no_whitespace,
    lemma_parse_digits,
    lemma_parse_rejects,
    parse_range,
    parse_unsigned,
};
use crate::text::{
    all_whitespace,
    chars_of,
    is_whitespace,
    lemma_leading_whitespace_is,
    lemma_trailing_whitespace_is,
    trim,
    trim_range,
    trim_start,
};

verus! {

/// What became of one synchronous run of an external tool.
#[derive(Clone, Debug, PartialEq, Eq)]
pub enum ToolRun {
    /// The tool could not be started; the text says why.
    Unlaunched(String),
    /// The tool ran to its end.
    Exited { success: bool, stdout: String, stderr: String },
}

/// Why a probe gave no frame count.
#[derive(Clone, Debug, PartialEq, Eq)]
pub enum ProbeError {
    /// The metadata tool could not be started.
    Launch(String),
    /// The metadata tool reported failure; the text is its diagnostic output.
    Probe(String),
    /// The metadata tool succeeded, but its output is no frame count.
    Parse,
}

/// The mathematical value of a `ToolRun`.
pub enum ToolRunView {
    Unlaunched(Seq<char>),
    Exited { success: bool, stdout: Seq<char>, stderr: Seq<char> },
}

/// The mathematical value of a `ProbeError`.
pub enum ProbeErrorView {
    Launch(Seq<char>),
    Probe(Seq<char>),
    Parse,
}

impl View for ToolRun {
    type V = ToolRunView;

    open spec fn view(&self) -> ToolRunView {
        match self {
            ToolRun::Unlaunched(why) => ToolRunView::Unlaunched(why@),
            ToolRun::Exited { success, stdout, stderr } => ToolRunView::Exited {
                success: *success,
                stdout: stdout@,
                stderr: stderr@,
            },
        }
    }
}

impl View for ProbeError {
    type V = ProbeErrorView;

    open spec fn view(&self) -> ProbeErrorView {
        match self {
            ProbeError::Launch(why) => ProbeErrorView::Launch(why@),
            ProbeError::Probe(text) => ProbeErrorView::Probe(text@),
            ProbeError::Parse => ProbeErrorView::Parse,
        }
    }
}

/// The mathematical value of a probe's result.
pub open spec fn probe_result_view(r: Result<u64, ProbeError>) -> Result<u64, ProbeErrorView> {
    match r {
        Ok(n) => Ok(n),
        Err(e) => Err(e@),
    }
}

/// The frame count that the tool's output denotes: the output without the
/// whitespace around it, read as a decimal number that fits 64 bits.
pub open spec fn frame_count_of(stdout: Seq<char>) -> Result<u64, ProbeErrorView> {
    match parse_unsigned(trim(stdout), 10, u64::MAX as nat) {
        Some(n) => Ok(n as u64),
        None => Err(ProbeErrorView::Parse),
    }
}

/// The result of a probe, given what the metadata tool did.
pub open spec fn probe_result(run: ToolRunView) -> Result<u64, ProbeErrorView> {
    match run {
        ToolRunView::Unlaunched(why) => Err(ProbeErrorView::Launch(why)),
        ToolRunView::Exited { success, stdout, stderr } => if success {
            frame_count_of(stdout)
        } else {
            Err(ProbeErrorView::Probe(stderr))
        },
    }
}

/// Whitespace around a string that neither starts nor ends with whitespace
/// is exactly what trimming removes.
pub proof fn lemma_trim_padded(lead: Seq<char>, body: Seq<char>, trail: Seq<char>)
    requires
        all_whitespace(lead),
        all_whitespace(trail),
        body.len() > 0 ==> !is_whitespace(body[0]) && !is_whitespace(body.last()),
    ensures
        trim(lead + body + trail) == body,
{
    let s = lead + body + trail;
    if body.len() == 0 {
        assert forall|i: int| 0 <= i < s.len() implies is_whitespace(#[trigger] s[i]) by {
            if i < lead.len() {
                assert(s[i] == lead[i]);
            } else {
                assert(s[i] == trail[i - lead.len()]);
            }
        }
        lemma_leading_whitespace_is(s, s.len() as int);
        assert(trim_start(s) =~= Seq::<char>::empty());
        assert(trim(s) =~= body);
    } else {
        assert forall|i: int| 0 <= i < lead.len() implies is_whitespace(#[trigger] s[i]) by {
            assert(s[i] == lead[i]);
        }
        assert(s[lead.len() as int] == body[0]);
        lemma_leading_whitespace_is(s, lead.len() as int);
        let t = trim_start(s);
        assert(t =~= body + trail);
        assert forall|i: int| t.len() - trail.len() <= i < t.len() implies is_whitespace(
            #[trigger] t[i],
        ) by {
            assert(t[i] == trail[i - body.len()]);
        }
        assert(t[t.len() - trail.len() - 1] == body.last());
        lemma_trailing_whitespace_is(t, trail.len() as int);
        assert(trim(s) =~= body);
    }
}

/// A non-empty string of decimal digits whose value fits 64 bits, with any
/// whitespace around it, is read as exactly that value.
pub proof fn lemma_frame_count_digits(lead: Seq<char>, digits: Seq<char>, trail: Seq<char>)
    requires
        digits.len() > 0,
        all_digits(digits, 10),
        digits_value(digits, 10) <= u64::MAX,
        all_whitespace(lead),
        all_whitespace(trail),
    ensures
        frame_count_of(lead + digits + trail) == Ok::<u64, ProbeErrorView>(
            digits_value(digits, 10) as u64,
        ),
{
    lemma_digit_is_no_whitespace(digits[0]);
    lemma_digit_is_no_whitespace(digits.last());
    lemma_trim_padded(lead, digits, trail);
    lemma_parse_digits(digits, 10, u64::MAX as nat);
}

/// The decimal numeral of any 64-bit count, with any whitespace around it,
/// is read as exactly that count.
pub proof fn lemma_frame_count_valid(lead: Seq<char>, n: nat, trail: Seq<char>)
    requires
        n <= u64::MAX,
        all_whitespace(lead),
        all_whitespace(trail),
    ensures
        frame_count_of(lead + decimal(n) + trail) == Ok::<u64, ProbeErrorView>(n as u64),
{
    lemma_decimal(n);
    lemma_frame_count_digits(lead, decimal(n), trail);
}

/// Output that is empty or blank, that starts with a minus sign, or that
/// holds anything but decimal digits after an optional plus sign, is no
/// frame count.
pub proof fn lemma_frame_count_malformed(stdout: Seq<char>)
    requires
        ({
            let t = trim(stdout);
            ||| t.len() == 0
            ||| t[0] == '-'
            ||| exists|i: int|
                0 <= i < t.len() && digit_value(t[i], 10) is None && !(i == 0 && t[0] == '+')
        }),
    ensures
        frame_count_of(stdout) == Err::<u64, ProbeErrorView>(ProbeErrorView::Parse),
{
    let t = trim(stdout);
    if t.len() > 0 && t[0] == '-' {
        assert(digit_value(t[0], 10) is None);
    }
    lemma_parse_rejects(t, 10, u64::MAX as nat);
}

/// Reads the metadata tool's output as a frame count.
pub fn parse_frame_count(stdout: &str) -> (r: Result<u64, ProbeError>)
    ensures
        probe_result_view(r) == frame_count_of(stdout@),
{
    let chars = chars_of(stdout);
    let (start, end) = trim_range(&chars, 0, chars.len());
    proof {
        assert(chars@.subrange(0, chars.len() as int) =~= stdout@);
    }
    match parse_range(&chars, start, end, 10, u64::MAX) {
        Some(n) => Ok(n),
        None => Err(ProbeError::Parse),
    }
}

/// The frame count of the input, from what the metadata tool did: a launch
/// error where it did not start, a probe error with its diagnostic text where
/// it failed, and otherwise its output read as a frame count.
pub fn probe_total_units(run: &ToolRun) -> (r: Result<u64, ProbeError>)
    ensures
        probe_result_view(r) == probe_result(run@),
{
    match run {
        ToolRun::Unlaunched(why) => Err(ProbeError::Launch(why.clone())),
        ToolRun::Exited { success, stdout, stderr } => {
            if *success {
                parse_frame_count(stdout.as_str())
            } else {
                Err(ProbeError::Probe(stderr.clone()))
            }
        },
    }
}

} // verus!
