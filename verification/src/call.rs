//! The contract of each streaming call: ratio updates, channel counts and
//! buffer lengths.
//!
//! Every function here only reads its arguments. A call that is refused has
//! changed nothing, so it can be made again once the arguments are mended.

use vstd::arithmetic::power2::*;
use vstd::prelude::*;
use vstd::string::StringExecFns;

use crate::binary64::{Binary64, SCALE, SIGN_BIT};
use crate::text::{decimal, decimal_text};

verus! {

/// The error type of the streaming calls.
#[derive(Debug, Clone, Copy, PartialEq, Eq, Hash, Structural)]
pub enum ResampleError {
    /// Error raised when a new resample ratio lies outside the window that
    /// was fixed when the resampler was constructed.
    RatioOutOfBounds { provided: Binary64, original: Binary64, max_relative_ratio: Binary64 },
    /// Error raised when the ratio of a synchronous resampler is to be
    /// changed.
    SyncNotAdjustable,
    /// Error raised when the number of channels of the input buffer doesn't match expected.
    WrongNumberOfInputChannels { expected: usize, actual: usize },
    /// Error raised when the number of channels of the output buffer doesn't match expected.
    WrongNumberOfOutputChannels { expected: usize, actual: usize },
    /// Error raised when the number of channels of the mask doesn't match expected.
    WrongNumberOfMaskChannels { expected: usize, actual: usize },
    /// Error raised when the number of frames in an input channel is less
    /// than the minimum expected number of frames.
    InsufficientInputBufferSize { channel: usize, expected: usize, actual: usize },
    /// Error raised when the number of frames in an output channel is less
    /// than the minimum expected number of frames.
    InsufficientOutputBufferSize { channel: usize, expected: usize, actual: usize },
}

/// A result alias for the error type of the streaming calls.
pub type ResampleResult<T> = Result<T, ResampleError>;

/// Whether `provided` lies in the window of ratios around `original`, from
/// `original / max_relative_ratio` to `original * max_relative_ratio`, both
/// ends included.
///
/// The window is that of real numbers: quotient and product are not rounded.
/// With a positive bound, `original / bound <= provided` says the same as
/// `original <= provided * bound`, which is how both ends are written here.
///
/// Where `original` or the bound is infinite the ends are those of the
/// extended real line. An infinite bound around a finite ratio spans from
/// zero to infinity, both included. A finite bound around an infinite ratio
/// leaves infinity alone. An infinite bound around an infinite ratio has no
/// lower end, infinity divided by infinity being no number, and so holds
/// nothing.
///
/// Only a positive `original` and a bound of at least one span a window;
/// nothing lies in the window of other parameters, and a NaN lies in none.
pub open spec fn within_window(
    provided: Binary64,
    original: Binary64,
    max_relative_ratio: Binary64,
) -> bool {
    &&& original.spec_is_positive()
    &&& max_relative_ratio.spec_is_at_least_one()
    &&& !provided.spec_is_nan()
    &&& if original.spec_is_finite() && max_relative_ratio.spec_is_finite() {
        &&& provided.spec_is_finite()
        &&& original.scaled() * pow2(SCALE as nat) <= provided.scaled()
            * max_relative_ratio.scaled()
        &&& provided.scaled() * pow2(SCALE as nat) <= original.scaled()
            * max_relative_ratio.scaled()
    } else if original.spec_is_finite() {
        if provided.spec_is_finite() {
            provided.scaled() >= 0
        } else {
            !provided.spec_is_sign_negative()
        }
    } else if max_relative_ratio.spec_is_finite() {
        provided.spec_is_infinite() && !provided.spec_is_sign_negative()
    } else {
        false
    }
}

/// Decides whether `provided` lies in the window around `original`.
pub fn ratio_within_window(
    provided: Binary64,
    original: Binary64,
    max_relative_ratio: Binary64,
) -> (within: bool)
    ensures
        within == within_window(provided, original, max_relative_ratio),
{
    if !original.is_positive() || !max_relative_ratio.is_at_least_one() || provided.is_nan() {
        return false;
    }
    if !original.is_finite() {
        return max_relative_ratio.is_finite() && provided.is_infinite()
            && !provided.is_sign_negative();
    }
    if !max_relative_ratio.is_finite() {
        proof {
            provided.lemma_scaled_magnitude_bounds();
        }
        return !provided.is_sign_negative() || provided.to_bits() == SIGN_BIT;
    }
    if !provided.is_finite() {
        return false;
    }
    proof {
        lemma_pow2_pos(SCALE as nat);
    }
    if !provided.is_positive() {
        assert(provided.scaled() * max_relative_ratio.scaled() <= 0) by (nonlinear_arith)
            requires
                provided.scaled() <= 0,
                max_relative_ratio.scaled() >= 0,
        ;
        assert(original.scaled() * pow2(SCALE as nat) > 0) by (nonlinear_arith)
            requires
                original.scaled() > 0,
                pow2(SCALE as nat) > 0,
        ;
        return false;
    }
    original.magnitude_at_most_product(&provided, &max_relative_ratio)
        && provided.magnitude_at_most_product(&original, &max_relative_ratio)
}

/// What `validate_ratio_update` returns.
pub open spec fn spec_validate_ratio_update(
    new_ratio: Binary64,
    original_ratio: Binary64,
    max_relative_ratio: Binary64,
    adjustable: bool,
) -> Result<(), ResampleError> {
    if !adjustable {
        Err(ResampleError::SyncNotAdjustable)
    } else if !within_window(new_ratio, original_ratio, max_relative_ratio) {
        Err(
            ResampleError::RatioOutOfBounds {
                provided: new_ratio,
                original: original_ratio,
                max_relative_ratio,
            },
        )
    } else {
        Ok(())
    }
}

/// Validates a request to change the resample ratio.
///
/// A resampler that is not adjustable refuses every request. An adjustable
/// one accepts exactly the ratios in the window around the ratio that it was
/// constructed with.
pub fn validate_ratio_update(
    new_ratio: Binary64,
    original_ratio: Binary64,
    max_relative_ratio: Binary64,
    adjustable: bool,
) -> (outcome: Result<(), ResampleError>)
    ensures
        outcome == spec_validate_ratio_update(
            new_ratio,
            original_ratio,
            max_relative_ratio,
            adjustable,
        ),
{
    if !adjustable {
        return Err(ResampleError::SyncNotAdjustable);
    }
    if !ratio_within_window(new_ratio, original_ratio, max_relative_ratio) {
        return Err(
            ResampleError::RatioOutOfBounds {
                provided: new_ratio,
                original: original_ratio,
                max_relative_ratio,
            },
        );
    }
    Ok(())
}

/// What `validate_channels` returns. The input is judged first, then the
/// output, then the mask where there is one.
pub open spec fn spec_validate_channels(
    input_channels: usize,
    output_channels: usize,
    mask_channels: Option<usize>,
    expected: usize,
) -> Result<(), ResampleError> {
    if input_channels != expected {
        Err(ResampleError::WrongNumberOfInputChannels { expected, actual: input_channels })
    } else if output_channels != expected {
        Err(ResampleError::WrongNumberOfOutputChannels { expected, actual: output_channels })
    } else {
        match mask_channels {
            Some(actual) if actual != expected => Err(
                ResampleError::WrongNumberOfMaskChannels { expected, actual },
            ),
            _ => Ok(()),
        }
    }
}

/// Validates the channel counts of a call against the channel count of the
/// resampler. A mask is optional; one that is supplied must cover every
/// channel.
pub fn validate_channels(
    input_channels: usize,
    output_channels: usize,
    mask_channels: Option<usize>,
    expected: usize,
) -> (outcome: Result<(), ResampleError>)
    ensures
        outcome == spec_validate_channels(input_channels, output_channels, mask_channels, expected),
{
    if input_channels != expected {
        return Err(ResampleError::WrongNumberOfInputChannels { expected, actual: input_channels });
    }
    if output_channels != expected {
        return Err(
            ResampleError::WrongNumberOfOutputChannels { expected, actual: output_channels },
        );
    }
    match mask_channels {
        Some(actual) => {
            if actual != expected {
                return Err(ResampleError::WrongNumberOfMaskChannels { expected, actual });
            }
        },
        None => {},
    }
    Ok(())
}

/// The first channel at or after `from` whose length is below `minimum`.
pub open spec fn first_short_channel(lengths: Seq<usize>, minimum: usize, from: int) -> Option<int>
    decreases lengths.len() - from,
{
    if from < 0 || from >= lengths.len() {
        None
    } else if lengths[from] < minimum {
        Some(from)
    } else {
        first_short_channel(lengths, minimum, from + 1)
    }
}

/// What `validate_buffer_sizes` returns. The input channels are judged
/// first, then the output channels, each from channel zero upwards.
pub open spec fn spec_validate_buffer_sizes(
    input_lengths: Seq<usize>,
    output_lengths: Seq<usize>,
    min_input: usize,
    min_output: usize,
) -> Result<(), ResampleError> {
    match first_short_channel(input_lengths, min_input, 0) {
        Some(channel) => Err(
            ResampleError::InsufficientInputBufferSize {
                channel: channel as usize,
                expected: min_input,
                actual: input_lengths[channel],
            },
        ),
        None => match first_short_channel(output_lengths, min_output, 0) {
            Some(channel) => Err(
                ResampleError::InsufficientOutputBufferSize {
                    channel: channel as usize,
                    expected: min_output,
                    actual: output_lengths[channel],
                },
            ),
            None => Ok(()),
        },
    }
}

/// Finds the first channel whose length is below `minimum`.
pub fn find_short_channel(lengths: &[usize], minimum: usize) -> (found: Option<usize>)
    ensures
        found is None <==> first_short_channel(lengths@, minimum, 0) is None,
        found matches Some(channel) ==> first_short_channel(lengths@, minimum, 0) == Some(
            channel as int,
        ) && channel < lengths@.len(),
{
    let mut channel: usize = 0;
    while channel < lengths.len()
        invariant
            channel <= lengths@.len(),
            first_short_channel(lengths@, minimum, 0) == first_short_channel(
                lengths@,
                minimum,
                channel as int,
            ),
        decreases lengths@.len() - channel,
    {
        if lengths[channel] < minimum {
            return Some(channel);
        }
        channel = channel + 1;
    }
    None
}

/// Validates the length of every channel of a call against the number of
/// frames that the call needs to read and to write.
///
/// The channels are judged one by one, so the fault names the channel that
/// is short, with the length that was needed and the one that was found.
pub fn validate_buffer_sizes(
    input_lengths: &[usize],
    output_lengths: &[usize],
    min_input: usize,
    min_output: usize,
) -> (outcome: Result<(), ResampleError>)
    ensures
        outcome == spec_validate_buffer_sizes(
            input_lengths@,
            output_lengths@,
            min_input,
            min_output,
        ),
{
    match find_short_channel(input_lengths, min_input) {
        Some(channel) => {
            return Err(
                ResampleError::InsufficientInputBufferSize {
                    channel,
                    expected: min_input,
                    actual: input_lengths[channel],
                },
            );
        },
        None => {},
    }
    match find_short_channel(output_lengths, min_output) {
        Some(channel) => {
            return Err(
                ResampleError::InsufficientOutputBufferSize {
                    channel,
                    expected: min_output,
                    actual: output_lengths[channel],
                },
            );
        },
        None => {},
    }
    Ok(())
}

/// What `validate_call` returns: the channel counts are judged first, and
/// the buffer lengths only where the counts are right.
pub open spec fn spec_validate_call(
    input_lengths: Seq<usize>,
    output_lengths: Seq<usize>,
    mask_channels: Option<usize>,
    expected: usize,
    min_input: usize,
    min_output: usize,
) -> Result<(), ResampleError> {
    match spec_validate_channels(
        input_lengths.len() as usize,
        output_lengths.len() as usize,
        mask_channels,
        expected,
    ) {
        Err(fault) => Err(fault),
        Ok(_) => spec_validate_buffer_sizes(input_lengths, output_lengths, min_input, min_output),
    }
}

/// Validates the buffers of one streaming call, given by the length of each
/// channel: first the channel counts of input, output and mask, then the
/// length of every channel.
pub fn validate_call(
    input_lengths: &[usize],
    output_lengths: &[usize],
    mask_channels: Option<usize>,
    expected: usize,
    min_input: usize,
    min_output: usize,
) -> (outcome: Result<(), ResampleError>)
    ensures
        outcome == spec_validate_call(
            input_lengths@,
            output_lengths@,
            mask_channels,
            expected,
            min_input,
            min_output,
        ),
{
    match validate_channels(input_lengths.len(), output_lengths.len(), mask_channels, expected) {
        Err(fault) => Err(fault),
        Ok(_) => validate_buffer_sizes(input_lengths, output_lengths, min_input, min_output),
    }
}

/// The numbers of a fault about the ratio, each as it is written in the
/// message: the ratio that was asked for, the original ratio, the bound, and
/// the two ends of the window, lowest first.
///
/// This crate holds a ratio by its bits and does not write it in decimal,
/// nor does it round a quotient or a product to a number that can be
/// written. The caller writes the five numbers and vouches that they are
/// those of the fault.
///
/// The ends are written for the reader. A request is judged against the
/// unrounded ends, `original / max_relative_ratio` and `original *
/// max_relative_ratio` as real numbers, so a ratio that is written like an
/// end may still lie outside the window.
#[derive(Debug, Clone, Copy)]
pub struct RatioText<'a> {
    pub provided: &'a str,
    pub original: &'a str,
    pub max_relative_ratio: &'a str,
    pub lowest: &'a str,
    pub highest: &'a str,
}

/// The text of the fault about a ratio outside its window, around the five
/// numbers as they are written.
pub open spec fn ratio_out_of_bounds_text(
    provided: Seq<char>,
    original: Seq<char>,
    max_relative_ratio: Seq<char>,
    lowest: Seq<char>,
    highest: Seq<char>,
) -> Seq<char> {
    "New resample ratio out of bounds. Provided ratio "@ + provided
        + ", original resample ratio "@ + original + ", maximum relative ratio "@
        + max_relative_ratio + ", allowed absolute range "@ + lowest + " to "@ + highest
}

/// Composes the message of a fault about a ratio outside its window. Each
/// number is placed in the message as it stands.
pub fn ratio_out_of_bounds_message(
    provided: &str,
    original: &str,
    max_relative_ratio: &str,
    lowest: &str,
    highest: &str,
) -> (text: String)
    ensures
        text@ == ratio_out_of_bounds_text(
            provided@,
            original@,
            max_relative_ratio@,
            lowest@,
            highest@,
        ),
{
    let mut text = String::from_str("New resample ratio out of bounds. Provided ratio ");
    text.append(provided);
    text.append(", original resample ratio ");
    text.append(original);
    text.append(", maximum relative ratio ");
    text.append(max_relative_ratio);
    text.append(", allowed absolute range ");
    text.append(lowest);
    text.append(" to ");
    text.append(highest);
    text
}

impl ResampleError {
    /// The text of the fault, given the text of the ratios it carries.
    pub open spec fn spec_message(&self, ratios: RatioText) -> Seq<char> {
        match *self {
            ResampleError::RatioOutOfBounds { .. } => ratio_out_of_bounds_text(
                ratios.provided@,
                ratios.original@,
                ratios.max_relative_ratio@,
                ratios.lowest@,
                ratios.highest@,
            ),
            ResampleError::SyncNotAdjustable => {
                "Not possible to adjust a synchronous resampler"@
            },
            ResampleError::WrongNumberOfInputChannels { expected, actual } => {
                "Wrong number of channels "@ + decimal(actual as nat) + " in input, expected "@
                    + decimal(expected as nat)
            },
            ResampleError::WrongNumberOfOutputChannels { expected, actual } => {
                "Wrong number of channels "@ + decimal(actual as nat) + " in output, expected "@
                    + decimal(expected as nat)
            },
            ResampleError::WrongNumberOfMaskChannels { expected, actual } => {
                "Wrong number of channels "@ + decimal(actual as nat) + " in mask, expected "@
                    + decimal(expected as nat)
            },
            ResampleError::InsufficientInputBufferSize { channel, expected, actual } => {
                "Insufficient buffer size "@ + decimal(actual as nat) + " for input channel "@
                    + decimal(channel as nat) + ", expected "@ + decimal(expected as nat)
            },
            ResampleError::InsufficientOutputBufferSize { channel, expected, actual } => {
                "Insufficient buffer size "@ + decimal(actual as nat) + " for output channel "@
                    + decimal(channel as nat) + ", expected "@ + decimal(expected as nat)
            },
        }
    }

    /// Renders the fault for logs and error output.
    ///
    /// `ratios` is read only for a fault about the ratio, whose numbers the
    /// caller writes. The counts and lengths of the other faults are written
    /// here, in decimal.
    pub fn to_string(&self, ratios: &RatioText) -> (text: String)
        ensures
            text@ == self.spec_message(*ratios),
    {
        match *self {
            ResampleError::RatioOutOfBounds { .. } => ratio_out_of_bounds_message(
                ratios.provided,
                ratios.original,
                ratios.max_relative_ratio,
                ratios.lowest,
                ratios.highest,
            ),
            ResampleError::SyncNotAdjustable => {
                String::from_str("Not possible to adjust a synchronous resampler")
            },
            ResampleError::WrongNumberOfInputChannels { expected, actual } => {
                channel_count_text(actual, " in input, expected ", expected)
            },
            ResampleError::WrongNumberOfOutputChannels { expected, actual } => {
                channel_count_text(actual, " in output, expected ", expected)
            },
            ResampleError::WrongNumberOfMaskChannels { expected, actual } => {
                channel_count_text(actual, " in mask, expected ", expected)
            },
            ResampleError::InsufficientInputBufferSize { channel, expected, actual } => {
                buffer_size_text(actual, " for input channel ", channel, expected)
            },
            ResampleError::InsufficientOutputBufferSize { channel, expected, actual } => {
                buffer_size_text(actual, " for output channel ", channel, expected)
            },
        }
    }
}

/// The text of a fault about a channel count: the count that was found, the
/// place where it was found, and the count that was expected.
fn channel_count_text(actual: usize, place: &str, expected: usize) -> (text: String)
    ensures
        text@ == "Wrong number of channels "@ + decimal(actual as nat) + place@ + decimal(
            expected as nat,
        ),
{
    let mut text = String::from_str("Wrong number of channels ");
    text.append(decimal_text(actual as u64).as_str());
    text.append(place);
    text.append(decimal_text(expected as u64).as_str());
    text
}

/// The text of a fault about a buffer: the length that was found, the
/// channel, and the length that was expected.
fn buffer_size_text(actual: usize, place: &str, channel: usize, expected: usize) -> (text: String)
    ensures
        text@ == "Insufficient buffer size "@ + decimal(actual as nat) + place@ + decimal(
            channel as nat,
        ) + ", expected "@ + decimal(expected as nat),
{
    let mut text = String::from_str("Insufficient buffer size ");
    text.append(decimal_text(actual as u64).as_str());
    text.append(place);
    text.append(decimal_text(channel as u64).as_str());
    text.append(", expected ");
    text.append(decimal_text(expected as u64).as_str());
    text
}

/// Whether `channel` is the first channel whose length is below `minimum`.
pub open spec fn is_first_short_channel(lengths: Seq<usize>, minimum: usize, channel: int) -> bool {
    &&& 0 <= channel < lengths.len()
    &&& lengths[channel] < minimum
    &&& forall|earlier: int| 0 <= earlier < channel ==> #[trigger] lengths[earlier] >= minimum
}

/// Whether every channel has at least `minimum` frames.
pub open spec fn all_channels_suffice(lengths: Seq<usize>, minimum: usize) -> bool {
    forall|channel: int| 0 <= channel < lengths.len() ==> #[trigger] lengths[channel] >= minimum
}

/// The search from `from` upwards finds the first short channel at or after
/// `from`, and finds none exactly where there is none.
pub proof fn lemma_first_short_channel(lengths: Seq<usize>, minimum: usize, from: int)
    requires
        0 <= from,
    ensures
        match first_short_channel(lengths, minimum, from) {
            Some(channel) => {
                &&& from <= channel < lengths.len()
                &&& lengths[channel] < minimum
                &&& forall|earlier: int|
                    from <= earlier < channel ==> #[trigger] lengths[earlier] >= minimum
            },
            None => forall|later: int|
                from <= later < lengths.len() ==> #[trigger] lengths[later] >= minimum,
        },
    decreases lengths.len() - from,
{
    if from < lengths.len() && lengths[from] >= minimum {
        lemma_first_short_channel(lengths, minimum, from + 1);
    }
}

/// A resampler that is not adjustable refuses every change of ratio with
/// the same fault, whatever the new ratio is.
pub proof fn law_fixed_ratio_refuses_every_update(
    new_ratio: Binary64,
    original_ratio: Binary64,
    max_relative_ratio: Binary64,
)
    ensures
        spec_validate_ratio_update(new_ratio, original_ratio, max_relative_ratio, false) == Err::<
            (),
            ResampleError,
        >(ResampleError::SyncNotAdjustable),
{
}

/// The window of parameters that construction accepts is not inverted: it
/// holds the ratio that it is built around. The one exception is an infinite
/// ratio under an infinite bound, whose window has no lower end.
pub proof fn law_window_holds_its_centre(original_ratio: Binary64, max_relative_ratio: Binary64)
    requires
        original_ratio.spec_is_positive(),
        max_relative_ratio.spec_is_at_least_one(),
        !(original_ratio.spec_is_infinite() && max_relative_ratio.spec_is_infinite()),
    ensures
        within_window(original_ratio, original_ratio, max_relative_ratio),
{
    if original_ratio.spec_is_finite() && max_relative_ratio.spec_is_finite() {
        assert(original_ratio.scaled() * pow2(SCALE as nat) <= original_ratio.scaled()
            * max_relative_ratio.scaled()) by (nonlinear_arith)
            requires
                original_ratio.scaled() > 0,
                max_relative_ratio.scaled() >= pow2(SCALE as nat),
        ;
    }
}

/// A call whose input has the wrong number of channels fails with the fault
/// that carries the expected and the actual count, whatever else it holds.
pub proof fn law_wrong_input_channels_are_refused(
    input_channels: usize,
    output_channels: usize,
    mask_channels: Option<usize>,
    expected: usize,
)
    requires
        input_channels != expected,
    ensures
        spec_validate_channels(input_channels, output_channels, mask_channels, expected) == Err::<
            (),
            ResampleError,
        >(ResampleError::WrongNumberOfInputChannels { expected, actual: input_channels }),
{
}

/// Where every input channel suffices and `channel` is the first output
/// channel that is short, the call fails with the fault that names exactly
/// that channel, the length needed and the length found.
pub proof fn law_short_output_channel_is_named(
    input_lengths: Seq<usize>,
    output_lengths: Seq<usize>,
    min_input: usize,
    min_output: usize,
    channel: usize,
)
    requires
        all_channels_suffice(input_lengths, min_input),
        is_first_short_channel(output_lengths, min_output, channel as int),
    ensures
        spec_validate_buffer_sizes(input_lengths, output_lengths, min_input, min_output) == Err::<
            (),
            ResampleError,
        >(
            ResampleError::InsufficientOutputBufferSize {
                channel,
                expected: min_output,
                actual: output_lengths[channel as int],
            },
        ),
{
    lemma_first_short_channel(input_lengths, min_input, 0);
    lemma_first_short_channel(output_lengths, min_output, 0);
}

/// Where `channel` is the first input channel that is short, the call fails
/// with the fault that names exactly that channel, whatever the output holds.
pub proof fn law_short_input_channel_is_named(
    input_lengths: Seq<usize>,
    output_lengths: Seq<usize>,
    min_input: usize,
    min_output: usize,
    channel: usize,
)
    requires
        is_first_short_channel(input_lengths, min_input, channel as int),
    ensures
        spec_validate_buffer_sizes(input_lengths, output_lengths, min_input, min_output) == Err::<
            (),
            ResampleError,
        >(
            ResampleError::InsufficientInputBufferSize {
                channel,
                expected: min_input,
                actual: input_lengths[channel as int],
            },
        ),
{
    lemma_first_short_channel(input_lengths, min_input, 0);
}

/// Buffer lengths are accepted exactly where every channel of the input and
/// of the output suffices.
pub proof fn law_buffers_pass_when_all_suffice(
    input_lengths: Seq<usize>,
    output_lengths: Seq<usize>,
    min_input: usize,
    min_output: usize,
)
    ensures
        spec_validate_buffer_sizes(input_lengths, output_lengths, min_input, min_output) is Ok
            <==> all_channels_suffice(input_lengths, min_input) && all_channels_suffice(
            output_lengths,
            min_output,
        ),
{
    lemma_first_short_channel(input_lengths, min_input, 0);
    lemma_first_short_channel(output_lengths, min_output, 0);
}

} // verus!
