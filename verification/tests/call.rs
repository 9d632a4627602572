use rubato::call::{find_short_channel, ratio_within_window};
use rubato::{
    ratio_out_of_bounds_message, validate_buffer_sizes, validate_call, validate_channels,
    validate_ratio_update, Binary64, RatioText, ResampleError,
};

fn number(value: f64) -> Binary64 {
    Binary64::from_bits(value.to_bits())
}

fn out_of_bounds(provided: f64, original: f64, bound: f64) -> Result<(), ResampleError> {
    Err(ResampleError::RatioOutOfBounds {
        provided: number(provided),
        original: number(original),
        max_relative_ratio: number(bound),
    })
}

#[test]
fn ratio_inside_the_window_is_accepted() {
    assert_eq!(validate_ratio_update(number(109.0), number(100.0), number(1.1), true), Ok(()));
    assert_eq!(validate_ratio_update(number(100.0), number(100.0), number(1.1), true), Ok(()));
    assert_eq!(validate_ratio_update(number(91.0), number(100.0), number(1.1), true), Ok(()));
}

#[test]
fn ratio_outside_the_window_is_refused() {
    assert_eq!(
        validate_ratio_update(number(111.0), number(100.0), number(1.1), true),
        out_of_bounds(111.0, 100.0, 1.1)
    );
    assert_eq!(
        validate_ratio_update(number(90.0), number(100.0), number(1.1), true),
        out_of_bounds(90.0, 100.0, 1.1)
    );
}

#[test]
fn fixed_ratio_refuses_every_update() {
    for ratio in [109.0, 111.0, 100.0, 0.0, -1.0, f64::NAN, f64::INFINITY] {
        assert_eq!(
            validate_ratio_update(number(ratio), number(100.0), number(1.1), false),
            Err(ResampleError::SyncNotAdjustable)
        );
    }
}

#[test]
fn window_ends_are_exact() {
    // 100 * 1.1 lies between 110 and the next number above it;
    // 100 / 1.1 lies between 0x4056ba2e8ba2e8b9 and the next number above it.
    let top = Binary64::from_bits(0x405b_8000_0000_0000);
    let over = Binary64::from_bits(0x405b_8000_0000_0001);
    let bottom = Binary64::from_bits(0x4056_ba2e_8ba2_e8ba);
    let under = Binary64::from_bits(0x4056_ba2e_8ba2_e8b9);
    assert!(ratio_within_window(top, number(100.0), number(1.1)));
    assert!(!ratio_within_window(over, number(100.0), number(1.1)));
    assert!(ratio_within_window(bottom, number(100.0), number(1.1)));
    assert!(!ratio_within_window(under, number(100.0), number(1.1)));
}

#[test]
fn window_of_bound_one_holds_one_ratio() {
    let centre = number(0.9070294784580499);
    let above = Binary64::from_bits(centre.to_bits() + 1);
    let below = Binary64::from_bits(centre.to_bits() - 1);
    assert!(ratio_within_window(centre, centre, number(1.0)));
    assert!(!ratio_within_window(above, centre, number(1.0)));
    assert!(!ratio_within_window(below, centre, number(1.0)));
}

#[test]
fn window_with_a_bound_of_two() {
    for original in [1.0, 0.75, 3.5, 1e-300, 1e300, 5e-323] {
        let centre = number(original);
        let two = number(2.0);
        let top = original * 2.0;
        let bottom = original / 2.0;
        assert!(ratio_within_window(number(top), centre, two), "{}", original);
        assert!(ratio_within_window(number(bottom), centre, two), "{}", original);
        assert!(!ratio_within_window(Binary64::from_bits(top.to_bits() + 1), centre, two));
        assert!(!ratio_within_window(Binary64::from_bits(bottom.to_bits() - 1), centre, two));
    }
}

#[test]
fn window_of_the_least_ratio() {
    let least = Binary64::from_bits(1);
    let two = number(2.0);
    assert!(ratio_within_window(Binary64::from_bits(1), least, two));
    assert!(ratio_within_window(Binary64::from_bits(2), least, two));
    assert!(!ratio_within_window(Binary64::from_bits(3), least, two));
    assert!(!ratio_within_window(Binary64::from_bits(0), least, two));
}

#[test]
fn window_of_the_greatest_ratio() {
    let most = number(f64::MAX);
    let two = number(2.0);
    let half = number(f64::MAX / 2.0);
    assert!(ratio_within_window(most, most, two));
    assert!(ratio_within_window(half, most, two));
    assert!(!ratio_within_window(Binary64::from_bits(half.to_bits() - 1), most, two));
    assert!(!ratio_within_window(number(f64::INFINITY), most, two));
}

#[test]
fn window_with_the_greatest_bound() {
    let bound = number(f64::MAX);
    // around one, from 1 / MAX, which is about 5.56e-309, to MAX
    assert!(ratio_within_window(number(1e-308), number(1.0), bound));
    assert!(!ratio_within_window(number(5e-309), number(1.0), bound));
    assert!(ratio_within_window(number(f64::MAX), number(1.0), bound));
    assert!(!ratio_within_window(number(0.0), number(1.0), bound));
    assert!(!ratio_within_window(number(f64::INFINITY), number(1.0), bound));
    // around the least number, up to 2^-50 - 2^-103
    let power: f64 = 8.881784197001252e-16;
    assert_eq!(power.to_bits(), 0x3cd0_0000_0000_0000);
    assert!(!ratio_within_window(number(power), number(5e-324), bound));
    assert!(ratio_within_window(Binary64::from_bits(0x3ccf_ffff_ffff_ffff), number(5e-324), bound));
    assert!(ratio_within_window(number(5e-324), number(5e-324), bound));
    // around the greatest number, from one upwards
    assert!(ratio_within_window(number(1.0), number(f64::MAX), bound));
    assert!(!ratio_within_window(number(0.9999999999999999), number(f64::MAX), bound));
    assert!(ratio_within_window(number(f64::MAX), number(f64::MAX), bound));
}

#[test]
fn ratios_that_are_no_positive_numbers_are_outside() {
    for ratio in [0.0, -0.0, -100.0, f64::NAN, f64::INFINITY, f64::NEG_INFINITY] {
        assert!(!ratio_within_window(number(ratio), number(100.0), number(1.1)), "{}", ratio);
    }
}

#[test]
fn nothing_lies_in_the_window_of_invalid_parameters() {
    assert!(!ratio_within_window(number(1.0), number(1.0), number(0.5)));
    assert!(!ratio_within_window(number(-1.0), number(-1.0), number(1.0)));
    assert!(!ratio_within_window(number(0.0), number(0.0), number(2.0)));
    assert!(!ratio_within_window(number(1.0), number(f64::NAN), number(2.0)));
    assert!(!ratio_within_window(number(1.0), number(1.0), number(f64::NAN)));
    assert!(!ratio_within_window(number(1.0), number(f64::NEG_INFINITY), number(2.0)));
    assert!(!ratio_within_window(number(1.0), number(1.0), number(f64::NEG_INFINITY)));
}

#[test]
fn window_agrees_with_hardware_where_hardware_is_exact() {
    let centres = [1.0, 0.9070294784580499, 1.0884353741496597, 100.0, 3e-7, 7e12];
    let bounds = [1.0, 2.0, 4.0, 1024.0];
    let offsets = [0.0, 0.3, 0.49, 0.5, 0.51, 0.9, 1.0, 1.7, 2.0, 2.1, 3.99, 4.0, 4.01, 1000.0, 1024.0, 1025.0];
    for centre in centres {
        for bound in bounds {
            for offset in offsets {
                let provided: f64 = centre * offset;
                let expected = centre / bound <= provided && provided <= centre * bound;
                assert_eq!(
                    ratio_within_window(number(provided), number(centre), number(bound)),
                    expected,
                    "{} around {} within {}",
                    provided,
                    centre,
                    bound
                );
            }
        }
    }
}

#[test]
fn matching_channel_counts_are_accepted() {
    assert_eq!(validate_channels(2, 2, None, 2), Ok(()));
    assert_eq!(validate_channels(2, 2, Some(2), 2), Ok(()));
    assert_eq!(validate_channels(0, 0, Some(0), 0), Ok(()));
}

#[test]
fn three_input_channels_against_two_are_refused() {
    assert_eq!(
        validate_channels(3, 2, None, 2),
        Err(ResampleError::WrongNumberOfInputChannels { expected: 2, actual: 3 })
    );
    assert_eq!(
        validate_channels(3, 5, Some(7), 2),
        Err(ResampleError::WrongNumberOfInputChannels { expected: 2, actual: 3 })
    );
}

#[test]
fn wrong_output_channels_are_refused() {
    assert_eq!(
        validate_channels(2, 1, None, 2),
        Err(ResampleError::WrongNumberOfOutputChannels { expected: 2, actual: 1 })
    );
    assert_eq!(
        validate_channels(2, 1, Some(9), 2),
        Err(ResampleError::WrongNumberOfOutputChannels { expected: 2, actual: 1 })
    );
}

#[test]
fn partial_masks_are_refused() {
    assert_eq!(
        validate_channels(2, 2, Some(1), 2),
        Err(ResampleError::WrongNumberOfMaskChannels { expected: 2, actual: 1 })
    );
    assert_eq!(
        validate_channels(2, 2, Some(3), 2),
        Err(ResampleError::WrongNumberOfMaskChannels { expected: 2, actual: 3 })
    );
}

#[test]
fn first_short_channel_is_found() {
    assert_eq!(find_short_channel(&[], 10), None);
    assert_eq!(find_short_channel(&[10, 11, 12], 10), None);
    assert_eq!(find_short_channel(&[10, 9, 12], 10), Some(1));
    assert_eq!(find_short_channel(&[10, 9, 8], 10), Some(1));
    assert_eq!(find_short_channel(&[9, 9, 8], 10), Some(0));
    assert_eq!(find_short_channel(&[10, 10, 9], 10), Some(2));
    assert_eq!(find_short_channel(&[0, 0], 0), None);
}

#[test]
fn sufficient_buffers_are_accepted() {
    assert_eq!(validate_buffer_sizes(&[1024, 1024], &[2048, 2048], 1024, 2048), Ok(()));
    assert_eq!(validate_buffer_sizes(&[1025, 4000], &[2048, 9000], 1024, 2048), Ok(()));
    assert_eq!(validate_buffer_sizes(&[], &[], 1024, 2048), Ok(()));
    assert_eq!(validate_buffer_sizes(&[0], &[0], 0, 0), Ok(()));
}

#[test]
fn output_channel_one_frame_short_is_named() {
    assert_eq!(
        validate_buffer_sizes(&[1024, 1024], &[2048, 2047], 1024, 2048),
        Err(ResampleError::InsufficientOutputBufferSize { channel: 1, expected: 2048, actual: 2047 })
    );
    assert_eq!(
        validate_buffer_sizes(&[1024, 1024, 1024], &[2047, 2048, 2048], 1024, 2048),
        Err(ResampleError::InsufficientOutputBufferSize { channel: 0, expected: 2048, actual: 2047 })
    );
}

#[test]
fn input_channel_one_frame_short_is_named() {
    assert_eq!(
        validate_buffer_sizes(&[1024, 1024, 1023], &[2048, 2048, 2048], 1024, 2048),
        Err(ResampleError::InsufficientInputBufferSize { channel: 2, expected: 1024, actual: 1023 })
    );
}

#[test]
fn short_input_is_reported_before_short_output() {
    assert_eq!(
        validate_buffer_sizes(&[1024, 100], &[0, 2048], 1024, 2048),
        Err(ResampleError::InsufficientInputBufferSize { channel: 1, expected: 1024, actual: 100 })
    );
}

#[test]
fn lowest_short_channel_is_reported() {
    assert_eq!(
        validate_buffer_sizes(&[1024, 5, 6, 1024], &[2048, 2048, 2048, 2048], 1024, 2048),
        Err(ResampleError::InsufficientInputBufferSize { channel: 1, expected: 1024, actual: 5 })
    );
    assert_eq!(
        validate_buffer_sizes(&[1024, 1024], &[7, 8], 1024, 2048),
        Err(ResampleError::InsufficientOutputBufferSize { channel: 0, expected: 2048, actual: 7 })
    );
}

#[test]
fn channel_counts_are_judged_before_lengths() {
    assert_eq!(
        validate_call(&[0, 0, 0], &[0, 0], None, 2, 1024, 2048),
        Err(ResampleError::WrongNumberOfInputChannels { expected: 2, actual: 3 })
    );
    assert_eq!(
        validate_call(&[0, 0], &[0], Some(2), 2, 1024, 2048),
        Err(ResampleError::WrongNumberOfOutputChannels { expected: 2, actual: 1 })
    );
    assert_eq!(
        validate_call(&[0, 0], &[0, 0], Some(1), 2, 1024, 2048),
        Err(ResampleError::WrongNumberOfMaskChannels { expected: 2, actual: 1 })
    );
    assert_eq!(
        validate_call(&[0, 0], &[0, 0], Some(2), 2, 1024, 2048),
        Err(ResampleError::InsufficientInputBufferSize { channel: 0, expected: 1024, actual: 0 })
    );
    assert_eq!(validate_call(&[1024, 1024], &[2048, 2048], Some(2), 2, 1024, 2048), Ok(()));
}

#[test]
fn window_of_an_infinite_bound_spans_from_zero_to_infinity() {
    let bound = number(f64::INFINITY);
    for ratio in [0.0, -0.0, 5e-324, 1.0, 100.0, f64::MAX, f64::INFINITY] {
        assert!(ratio_within_window(number(ratio), number(100.0), bound), "{}", ratio);
    }
    for ratio in [-5e-324, -1.0, f64::MIN, f64::NEG_INFINITY, f64::NAN] {
        assert!(!ratio_within_window(number(ratio), number(100.0), bound), "{}", ratio);
    }
}

#[test]
fn window_of_an_infinite_ratio_holds_infinity_alone() {
    let centre = number(f64::INFINITY);
    assert!(ratio_within_window(number(f64::INFINITY), centre, number(1.0)));
    assert!(ratio_within_window(number(f64::INFINITY), centre, number(1.1)));
    assert!(ratio_within_window(number(f64::INFINITY), centre, number(f64::MAX)));
    for ratio in [0.0, 1.0, f64::MAX, -1.0, f64::NEG_INFINITY, f64::NAN] {
        assert!(!ratio_within_window(number(ratio), centre, number(1.1)), "{}", ratio);
    }
}

#[test]
fn window_of_an_infinite_ratio_and_bound_holds_nothing() {
    let infinity = number(f64::INFINITY);
    for ratio in [0.0, 1.0, f64::MAX, f64::INFINITY, -1.0, f64::NEG_INFINITY, f64::NAN] {
        assert!(!ratio_within_window(number(ratio), infinity, infinity), "{}", ratio);
    }
}

#[test]
fn infinite_windows_agree_with_comparison_in_hardware() {
    let infinity = f64::INFINITY;
    let values = [f64::NEG_INFINITY, -1.0, -0.0, 0.0, 5e-324, 1.0, f64::MAX, infinity, f64::NAN];
    for (centre, bound) in [(100.0, infinity), (infinity, 2.0), (infinity, infinity)] {
        for provided in values {
            let expected = centre / bound <= provided && provided <= centre * bound;
            assert_eq!(
                ratio_within_window(number(provided), number(centre), number(bound)),
                expected,
                "{} around {} within {}",
                provided,
                centre,
                bound
            );
        }
    }
}

fn none_written() -> RatioText<'static> {
    RatioText { provided: "", original: "", max_relative_ratio: "", lowest: "", highest: "" }
}

fn shown(fault: ResampleError) -> String {
    match fault {
        ResampleError::RatioOutOfBounds { provided, original, max_relative_ratio } => {
            let provided = f64::from_bits(provided.to_bits());
            let original = f64::from_bits(original.to_bits());
            let bound = f64::from_bits(max_relative_ratio.to_bits());
            let written = [
                format!("{}", provided),
                format!("{}", original),
                format!("{}", bound),
                format!("{}", original / bound),
                format!("{}", original * bound),
            ];
            fault.to_string(&RatioText {
                provided: &written[0],
                original: &written[1],
                max_relative_ratio: &written[2],
                lowest: &written[3],
                highest: &written[4],
            })
        }
        _ => fault.to_string(&none_written()),
    }
}

#[test]
fn message_of_a_ratio_above_the_window() {
    let fault = validate_ratio_update(number(111.0), number(100.0), number(1.1), true).unwrap_err();
    assert_eq!(
        shown(fault),
        "New resample ratio out of bounds. Provided ratio 111, original resample ratio 100, maximum relative ratio 1.1, allowed absolute range 90.9090909090909 to 110.00000000000001"
    );
}

#[test]
fn message_of_a_ratio_names_the_lower_end_first() {
    let fault = ResampleError::RatioOutOfBounds {
        provided: number(5.0),
        original: number(2.0),
        max_relative_ratio: number(2.0),
    };
    assert_eq!(validate_ratio_update(number(5.0), number(2.0), number(2.0), true), Err(fault));
    assert_eq!(
        shown(fault),
        "New resample ratio out of bounds. Provided ratio 5, original resample ratio 2, maximum relative ratio 2, allowed absolute range 1 to 4"
    );
}

#[test]
fn ratio_message_places_the_numbers_as_they_stand() {
    assert_eq!(
        ratio_out_of_bounds_message("a", "b", "c", "d", "e"),
        "New resample ratio out of bounds. Provided ratio a, original resample ratio b, maximum relative ratio c, allowed absolute range d to e"
    );
    let fault = ResampleError::RatioOutOfBounds {
        provided: number(5.0),
        original: number(2.0),
        max_relative_ratio: number(2.0),
    };
    let ratios =
        RatioText { provided: "5", original: "2", max_relative_ratio: "2", lowest: "1", highest: "4" };
    assert_eq!(fault.to_string(&ratios), ratio_out_of_bounds_message("5", "2", "2", "1", "4"));
}

#[test]
fn a_ratio_written_like_the_upper_end_may_be_refused() {
    // The number next above 110 is written as the rounded upper end is, and lies
    // above the unrounded one.
    let provided = f64::from_bits(0x405b_8000_0000_0001);
    assert_eq!(format!("{}", provided), format!("{}", 100.0f64 * 1.1));
    let fault = validate_ratio_update(number(provided), number(100.0), number(1.1), true).unwrap_err();
    assert_eq!(
        shown(fault),
        "New resample ratio out of bounds. Provided ratio 110.00000000000001, original resample ratio 100, maximum relative ratio 1.1, allowed absolute range 90.9090909090909 to 110.00000000000001"
    );
}

#[test]
fn call_messages_carry_every_field() {
    let ratios = RatioText {
        provided: "not read",
        original: "not read",
        max_relative_ratio: "not read",
        lowest: "not read",
        highest: "not read",
    };
    assert_eq!(
        ResampleError::SyncNotAdjustable.to_string(&ratios),
        "Not possible to adjust a synchronous resampler"
    );
    assert_eq!(
        ResampleError::WrongNumberOfInputChannels { expected: 2, actual: 3 }.to_string(&ratios),
        "Wrong number of channels 3 in input, expected 2"
    );
    assert_eq!(
        ResampleError::WrongNumberOfOutputChannels { expected: 2, actual: 1 }.to_string(&ratios),
        "Wrong number of channels 1 in output, expected 2"
    );
    assert_eq!(
        ResampleError::WrongNumberOfMaskChannels { expected: 8, actual: 0 }.to_string(&ratios),
        "Wrong number of channels 0 in mask, expected 8"
    );
    assert_eq!(
        ResampleError::InsufficientInputBufferSize { channel: 1, expected: 1024, actual: 1023 }
            .to_string(&ratios),
        "Insufficient buffer size 1023 for input channel 1, expected 1024"
    );
    assert_eq!(
        ResampleError::InsufficientOutputBufferSize { channel: 12, expected: 2048, actual: 0 }
            .to_string(&ratios),
        "Insufficient buffer size 0 for output channel 12, expected 2048"
    );
}

#[test]
fn channel_messages_differ_by_place() {
    let input = shown(ResampleError::WrongNumberOfInputChannels { expected: 2, actual: 3 });
    let output = shown(ResampleError::WrongNumberOfOutputChannels { expected: 2, actual: 3 });
    let mask = shown(ResampleError::WrongNumberOfMaskChannels { expected: 2, actual: 3 });
    assert_ne!(input, output);
    assert_ne!(input, mask);
    assert_ne!(output, mask);
    let read = shown(ResampleError::InsufficientInputBufferSize { channel: 0, expected: 2, actual: 1 });
    let written =
        shown(ResampleError::InsufficientOutputBufferSize { channel: 0, expected: 2, actual: 1 });
    assert_ne!(read, written);
}
