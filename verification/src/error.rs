//! What can go wrong in a session, what is only worth a log line, and the
//! text either is reported with.

use vstd::prelude::*;
use vstd::string::*;

verus! {

/// A failure of a session operation. Failures of the codec carry the status
/// the platform reported.
#[derive(Clone, Copy, Debug, PartialEq, Eq, Structural)]
pub enum DecoderError {
    /// The platform could not allocate the image surface, or could not
    /// derive a presentable window from it.
    SurfaceAllocationError,
    /// The platform has no codec for the requested media type.
    CodecCreationError,
    /// The codec refused its configuration.
    ConfigurationError(i32),
    /// The codec did not start.
    StartError(i32),
    /// Asking for an input buffer failed for good.
    InputDequeueError(isize),
    /// Asking for a decoded buffer failed for good.
    OutputDequeueError(isize),
    /// The codec could not render a decoded buffer to the surface.
    OutputReleaseError(i32),
    /// The surface handed out no presented frame.
    SurfacePresentationError,
}

/// A platform call that failed where nothing can be done about it any more.
/// It is reported so that it can be logged, and never stops the operation.
#[derive(Clone, Copy, Debug, PartialEq, Eq, Structural)]
pub enum Warning {
    /// Releasing the configuration after the codec had started failed.
    FormatReleaseFailed(i32),
    /// Deleting the codec during teardown failed.
    CodecDeletionFailed(i32),
}

/// The character of a decimal digit.
pub open spec fn digit_of(digit: nat) -> char {
    if digit == 0 {
        '0'
    } else if digit == 1 {
        '1'
    } else if digit == 2 {
        '2'
    } else if digit == 3 {
        '3'
    } else if digit == 4 {
        '4'
    } else if digit == 5 {
        '5'
    } else if digit == 6 {
        '6'
    } else if digit == 7 {
        '7'
    } else if digit == 8 {
        '8'
    } else {
        '9'
    }
}

/// The decimal digits of a natural number, most significant first, without
/// leading zeros.
pub open spec fn digits_of(number: nat) -> Seq<char>
    decreases number,
{
    if number < 10 {
        seq![digit_of(number)]
    } else {
        digits_of(number / 10).push(digit_of(number % 10))
    }
}

/// The decimal text of an integer: a minus sign if it is negative, then the
/// digits of its magnitude.
pub open spec fn decimal_of(number: int) -> Seq<char> {
    if number < 0 {
        seq!['-'] + digits_of((-number) as nat)
    } else {
        digits_of(number as nat)
    }
}

/// A status within a report: the phrase, then the status in parentheses.
pub open spec fn report_of(phrase: Seq<char>, status: int) -> Seq<char> {
    phrase + seq![' ', '('] + decimal_of(status) + seq![')']
}

/// The text a failure is reported with.
pub open spec fn message_of(error: DecoderError) -> Seq<char> {
    match error {
        DecoderError::SurfaceAllocationError => "Error allocating decoder surface"@,
        DecoderError::CodecCreationError => "Error creating decoder"@,
        DecoderError::ConfigurationError(status) => report_of(
            "Error configuring decoder"@,
            status as int,
        ),
        DecoderError::StartError(status) => report_of("Error starting decoder"@, status as int),
        DecoderError::InputDequeueError(status) => report_of(
            "Error dequeueing decoder input"@,
            status as int,
        ),
        DecoderError::OutputDequeueError(status) => report_of(
            "Error dequeueing decoder output"@,
            status as int,
        ),
        DecoderError::OutputReleaseError(status) => report_of(
            "Error releasing decoder output buffer"@,
            status as int,
        ),
        DecoderError::SurfacePresentationError => "Error acquiring decoder surface frame"@,
    }
}

/// The text a warning is logged with.
pub open spec fn warning_of(warning: Warning) -> Seq<char> {
    match warning {
        Warning::FormatReleaseFailed(status) => report_of("Error deleting format"@, status as int),
        Warning::CodecDeletionFailed(status) => report_of("Error deleting codec"@, status as int),
    }
}

fn digit_text(digit: u64) -> (text: &'static str)
    requires
        digit < 10,
    ensures
        text@ == seq![digit_of(digit as nat)],
{
    proof {
        reveal_strlit("0");
        reveal_strlit("1");
        reveal_strlit("2");
        reveal_strlit("3");
        reveal_strlit("4");
        reveal_strlit("5");
        reveal_strlit("6");
        reveal_strlit("7");
        reveal_strlit("8");
        reveal_strlit("9");
    }
    let text = if digit == 0 {
        "0"
    } else if digit == 1 {
        "1"
    } else if digit == 2 {
        "2"
    } else if digit == 3 {
        "3"
    } else if digit == 4 {
        "4"
    } else if digit == 5 {
        "5"
    } else if digit == 6 {
        "6"
    } else if digit == 7 {
        "7"
    } else if digit == 8 {
        "8"
    } else {
        "9"
    };
    assert(text@ =~= seq![digit_of(digit as nat)]);
    text
}

fn append_digits(text: &mut String, number: u64)
    ensures
        final(text)@ == old(text)@ + digits_of(number as nat),
    decreases number,
{
    if number >= 10 {
        append_digits(text, number / 10);
    }
    text.append(digit_text(number % 10));
}

fn append_status(text: &mut String, status: i64)
    ensures
        final(text)@ == old(text)@ + seq![' ', '('] + decimal_of(status as int) + seq![')'],
{
    proof {
        reveal_strlit(" (");
        reveal_strlit("-");
        reveal_strlit(")");
    }
    text.append(" (");
    if status < 0 {
        text.append("-");
        append_digits(text, (-(status as i128)) as u64);
        assert(text@ =~= old(text)@ + seq![' ', '('] + decimal_of(status as int));
    } else {
        append_digits(text, status as u64);
    }
    text.append(")");
    assert(text@ =~= old(text)@ + seq![' ', '('] + decimal_of(status as int) + seq![')']);
}

fn report(phrase: &str, status: i64) -> (text: String)
    ensures
        text@ == report_of(phrase@, status as int),
{
    let mut text = phrase.to_owned();
    append_status(&mut text, status);
    text
}

impl DecoderError {
    /// The text the failure is reported with.
    pub fn message(&self) -> (text: String)
        ensures
            text@ == message_of(*self),
    {
        match self {
            DecoderError::SurfaceAllocationError => "Error allocating decoder surface".to_owned(),
            DecoderError::CodecCreationError => "Error creating decoder".to_owned(),
            DecoderError::ConfigurationError(status) => report(
                "Error configuring decoder",
                *status as i64,
            ),
            DecoderError::StartError(status) => report("Error starting decoder", *status as i64),
            DecoderError::InputDequeueError(status) => report(
                "Error dequeueing decoder input",
                *status as i64,
            ),
            DecoderError::OutputDequeueError(status) => report(
                "Error dequeueing decoder output",
                *status as i64,
            ),
            DecoderError::OutputReleaseError(status) => report(
                "Error releasing decoder output buffer",
                *status as i64,
            ),
            DecoderError::SurfacePresentationError => "Error acquiring decoder surface frame".to_owned(),
        }
    }
}

impl Warning {
    /// The text the warning is logged with.
    pub fn message(&self) -> (text: String)
        ensures
            text@ == warning_of(*self),
    {
        match self {
            Warning::FormatReleaseFailed(status) => report("Error deleting format", *status as i64),
            Warning::CodecDeletionFailed(status) => report("Error deleting codec", *status as i64),
        }
    }
}

} // verus!
