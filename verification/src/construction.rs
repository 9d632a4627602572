//! The contract of construction: which static parameters a resampler may be
//! built from.

use vstd::prelude::*;
use vstd::string::StringExecFns;

use crate::binary64::Binary64;
use crate::call::within_window;
use crate::text::{decimal, decimal_text};

verus! {

/// The error type returned when constructing a resampler.
#[derive(Debug, Clone, Copy, PartialEq, Eq, Hash, Structural)]
pub enum ResamplerConstructionError {
    /// One of the two sample rates is zero.
    InvalidSampleRate { input: usize, output: usize },
    /// The bound on relative ratio changes is below one, or is no number.
    InvalidRelativeRatio(Binary64),
    /// The resample ratio is zero or less, or is no number.
    InvalidRatio(Binary64),
}

/// What `validate_construction` returns. The sample rates are judged first,
/// then the ratio, then the bound, and the first that fails is reported.
///
/// A ratio fails where it is zero or less, a bound where it is below one.
/// Positive infinity is neither, and passes as both. A NaN is no number: it
/// is neither above zero nor at least one, and fails as both.
pub open spec fn spec_validate_construction(
    input_rate: usize,
    output_rate: usize,
    ratio: Binary64,
    max_relative_ratio: Binary64,
) -> Result<(), ResamplerConstructionError> {
    if input_rate == 0 || output_rate == 0 {
        Err(ResamplerConstructionError::InvalidSampleRate { input: input_rate, output: output_rate })
    } else if ratio.is_at_most_zero() || ratio.spec_is_nan() {
        Err(ResamplerConstructionError::InvalidRatio(ratio))
    } else if max_relative_ratio.is_below_one() || max_relative_ratio.spec_is_nan() {
        Err(ResamplerConstructionError::InvalidRelativeRatio(max_relative_ratio))
    } else {
        Ok(())
    }
}

/// Validates the static parameters of a resampler before anything is built
/// from them.
///
/// Fails where a sample rate is zero, where the ratio is zero or less, and
/// where the bound is below one; a NaN in place of the ratio or of the bound
/// fails too. Succeeds on everything else, infinite ratios and bounds
/// included.
///
/// After success the window of ratios from `ratio / max_relative_ratio` to
/// `ratio * max_relative_ratio` can be derived: the bound is not zero, and
/// the window is not inverted, since it holds `ratio` itself. The one
/// exception is an infinite ratio with an infinite bound, whose quotient is no
/// number.
pub fn validate_construction(
    input_rate: usize,
    output_rate: usize,
    ratio: Binary64,
    max_relative_ratio: Binary64,
) -> (outcome: Result<(), ResamplerConstructionError>)
    ensures
        outcome == spec_validate_construction(input_rate, output_rate, ratio, max_relative_ratio),
        outcome is Ok && !(ratio.spec_is_infinite() && max_relative_ratio.spec_is_infinite())
            ==> within_window(ratio, ratio, max_relative_ratio),
{
    if input_rate == 0 || output_rate == 0 {
        return Err(
            ResamplerConstructionError::InvalidSampleRate { input: input_rate, output: output_rate },
        );
    }
    if !ratio.is_positive() {
        return Err(ResamplerConstructionError::InvalidRatio(ratio));
    }
    if !max_relative_ratio.is_at_least_one() {
        return Err(ResamplerConstructionError::InvalidRelativeRatio(max_relative_ratio));
    }
    proof {
        if !(ratio.spec_is_infinite() && max_relative_ratio.spec_is_infinite()) {
            crate::call::law_window_holds_its_centre(ratio, max_relative_ratio);
        }
    }
    Ok(())
}

/// The text of the fault about sample rates.
pub open spec fn invalid_sample_rate_text(input: usize, output: usize) -> Seq<char> {
    "Input and output sample rates must both be > 0. Provided input: "@ + decimal(input as nat)
        + ", provided output: "@ + decimal(output as nat)
}

/// The text of the fault about the ratio, around the ratio as it is written.
pub open spec fn invalid_ratio_text(provided: Seq<char>) -> Seq<char> {
    "Invalid resample_ratio provided: "@ + provided + ". resample_ratio must be > 0"@
}

/// The text of the fault about the bound, around the bound as it is written.
pub open spec fn invalid_relative_ratio_text(provided: Seq<char>) -> Seq<char> {
    "Invalid max_resample_ratio_relative provided: "@ + provided
        + ". max_resample_ratio_relative must be >= 1"@
}

/// Composes the message of a fault about sample rates.
pub fn invalid_sample_rate_message(input: usize, output: usize) -> (text: String)
    ensures
        text@ == invalid_sample_rate_text(input, output),
{
    let mut text = String::from_str(
        "Input and output sample rates must both be > 0. Provided input: ",
    );
    text.append(decimal_text(input as u64).as_str());
    text.append(", provided output: ");
    text.append(decimal_text(output as u64).as_str());
    text
}

/// Composes the message of a fault about the ratio. `provided` is the ratio
/// as the caller writes it; it is placed in the message as it stands.
pub fn invalid_ratio_message(provided: &str) -> (text: String)
    ensures
        text@ == invalid_ratio_text(provided@),
{
    let mut text = String::from_str("Invalid resample_ratio provided: ");
    text.append(provided);
    text.append(". resample_ratio must be > 0");
    text
}

/// Composes the message of a fault about the bound. `provided` is the bound
/// as the caller writes it; it is placed in the message as it stands.
pub fn invalid_relative_ratio_message(provided: &str) -> (text: String)
    ensures
        text@ == invalid_relative_ratio_text(provided@),
{
    let mut text = String::from_str("Invalid max_resample_ratio_relative provided: ");
    text.append(provided);
    text.append(". max_resample_ratio_relative must be >= 1");
    text
}

impl ResamplerConstructionError {
    /// The text of the fault, given the text of the number it carries.
    pub open spec fn spec_message(&self, provided: Seq<char>) -> Seq<char> {
        match *self {
            ResamplerConstructionError::InvalidSampleRate { input, output } => {
                invalid_sample_rate_text(input, output)
            },
            ResamplerConstructionError::InvalidRatio(_) => invalid_ratio_text(provided),
            ResamplerConstructionError::InvalidRelativeRatio(_) => invalid_relative_ratio_text(
                provided,
            ),
        }
    }

    /// Renders the fault for logs and error output.
    ///
    /// This crate holds a ratio by its bits and does not write it in decimal.
    /// `provided` is the ratio or bound that the fault carries, written by the
    /// caller, who vouches that it is that number; it is placed in the message
    /// as it stands. A fault about sample rates carries no such number: its
    /// rates are written here, and `provided` is not read.
    pub fn to_string(&self, provided: &str) -> (text: String)
        ensures
            text@ == self.spec_message(provided@),
    {
        match *self {
            ResamplerConstructionError::InvalidSampleRate { input, output } => {
                invalid_sample_rate_message(input, output)
            },
            ResamplerConstructionError::InvalidRatio(_) => invalid_ratio_message(provided),
            ResamplerConstructionError::InvalidRelativeRatio(_) => invalid_relative_ratio_message(
                provided,
            ),
        }
    }
}

/// Construction from a sample rate of zero fails, whatever the ratio and the
/// bound are, and the fault carries both rates.
pub proof fn law_zero_rate_is_refused(
    input_rate: usize,
    output_rate: usize,
    ratio: Binary64,
    max_relative_ratio: Binary64,
)
    requires
        input_rate == 0 || output_rate == 0,
    ensures
        spec_validate_construction(input_rate, output_rate, ratio, max_relative_ratio) == Err::<
            (),
            ResamplerConstructionError,
        >(ResamplerConstructionError::InvalidSampleRate { input: input_rate, output: output_rate }),
{
}

/// Construction from positive sample rates, a ratio above zero and a bound
/// of at least one succeeds, whether ratio and bound are finite or not.
pub proof fn law_valid_parameters_are_accepted(
    input_rate: usize,
    output_rate: usize,
    ratio: Binary64,
    max_relative_ratio: Binary64,
)
    requires
        input_rate > 0,
        output_rate > 0,
        ratio.spec_is_positive(),
        max_relative_ratio.spec_is_at_least_one(),
    ensures
        spec_validate_construction(input_rate, output_rate, ratio, max_relative_ratio) == Ok::<
            (),
            ResamplerConstructionError,
        >(()),
{
}

/// With sample rates that pass, a ratio of zero or less fails with the fault
/// that carries the ratio, whatever the bound is.
pub proof fn law_ratio_at_most_zero_is_refused(
    input_rate: usize,
    output_rate: usize,
    ratio: Binary64,
    max_relative_ratio: Binary64,
)
    requires
        input_rate > 0,
        output_rate > 0,
        ratio.is_at_most_zero(),
    ensures
        spec_validate_construction(input_rate, output_rate, ratio, max_relative_ratio) == Err::<
            (),
            ResamplerConstructionError,
        >(ResamplerConstructionError::InvalidRatio(ratio)),
{
}

/// With sample rates and a ratio that pass, a bound below one fails with the
/// fault that carries the bound, and every bound that is at least one
/// succeeds, positive infinity included.
pub proof fn law_bound_is_judged_against_one(
    input_rate: usize,
    output_rate: usize,
    ratio: Binary64,
    max_relative_ratio: Binary64,
)
    requires
        input_rate > 0,
        output_rate > 0,
        ratio.spec_is_positive(),
    ensures
        max_relative_ratio.is_below_one() ==> spec_validate_construction(
            input_rate,
            output_rate,
            ratio,
            max_relative_ratio,
        ) == Err::<(), ResamplerConstructionError>(
            ResamplerConstructionError::InvalidRelativeRatio(max_relative_ratio),
        ),
        max_relative_ratio.spec_is_at_least_one() ==> spec_validate_construction(
            input_rate,
            output_rate,
            ratio,
            max_relative_ratio,
        ) == Ok::<(), ResamplerConstructionError>(()),
{
}

/// A fault about the ratio or the bound is raised only for a number that
/// breaks the rule its message states: a ratio that is not above zero, a
/// bound that is not at least one. The number it carries is the one that was
/// given.
pub proof fn law_fault_carries_the_number_that_failed(
    input_rate: usize,
    output_rate: usize,
    ratio: Binary64,
    max_relative_ratio: Binary64,
)
    ensures
        match spec_validate_construction(input_rate, output_rate, ratio, max_relative_ratio) {
            Err(ResamplerConstructionError::InvalidSampleRate { input, output }) => {
                &&& input == input_rate
                &&& output == output_rate
                &&& input == 0 || output == 0
            },
            Err(ResamplerConstructionError::InvalidRatio(provided)) => {
                &&& provided == ratio
                &&& !provided.spec_is_positive()
            },
            Err(ResamplerConstructionError::InvalidRelativeRatio(provided)) => {
                &&& provided == max_relative_ratio
                &&& !provided.spec_is_at_least_one()
            },
            Ok(_) => {
                &&& input_rate > 0
                &&& output_rate > 0
                &&& ratio.spec_is_positive()
                &&& max_relative_ratio.spec_is_at_least_one()
            },
        },
{
}

} // verus!
