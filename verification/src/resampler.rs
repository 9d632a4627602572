//! The validated parameters of one resampler, and the checks that guard its
//! entry points.
//!
//! A [`ResamplerContract`] exists only for parameters that construction
//! accepts. It holds what the checks of the streaming calls read: the channel
//! count, whether the ratio may change, the ratio it was built with, the
//! bound on relative changes, and the ratio in force. It holds no samples and
//! does no arithmetic on them.

use vstd::prelude::*;

use crate::binary64::Binary64;
use crate::call::{
    spec_validate_call, spec_validate_ratio_update, validate_call, validate_ratio_update,
    within_window, ResampleError,
};
use crate::construction::{
    spec_validate_construction, validate_construction, ResamplerConstructionError,
};

verus! {

/// The parameters of a resampler that passed construction.
#[derive(Debug, Clone, Copy, PartialEq, Eq)]
pub struct ResamplerContract {
    input_rate: usize,
    output_rate: usize,
    channels: usize,
    adjustable: bool,
    original_ratio: Binary64,
    max_relative_ratio: Binary64,
    ratio: Binary64,
}

impl ResamplerContract {
    /// The sample rate of the input.
    pub closed spec fn spec_input_rate(&self) -> usize {
        self.input_rate
    }

    /// The sample rate of the output.
    pub closed spec fn spec_output_rate(&self) -> usize {
        self.output_rate
    }

    /// The number of channels that every call must bring.
    pub closed spec fn spec_channels(&self) -> usize {
        self.channels
    }

    /// Whether the ratio may be changed.
    pub closed spec fn spec_is_adjustable(&self) -> bool {
        self.adjustable
    }

    /// The ratio that the resampler was constructed with.
    pub closed spec fn spec_original_ratio(&self) -> Binary64 {
        self.original_ratio
    }

    /// The bound on relative changes of the ratio.
    pub closed spec fn spec_max_relative_ratio(&self) -> Binary64 {
        self.max_relative_ratio
    }

    /// The ratio in force.
    pub closed spec fn spec_ratio(&self) -> Binary64 {
        self.ratio
    }

    /// What holds of every contract: its parameters are such that
    /// construction accepts them, and the ratio in force is the original one
    /// or lies in the window around it.
    ///
    /// The window is that of `within_window`, which also says what it is
    /// where the original ratio or the bound is infinite. Under an infinite
    /// ratio with an infinite bound it holds nothing, so that the ratio in
    /// force stays the original one.
    #[verifier::type_invariant]
    pub open spec fn well_formed(&self) -> bool {
        &&& spec_validate_construction(
            self.spec_input_rate(),
            self.spec_output_rate(),
            self.spec_original_ratio(),
            self.spec_max_relative_ratio(),
        ) is Ok
        &&& (self.spec_ratio() == self.spec_original_ratio() || within_window(
            self.spec_ratio(),
            self.spec_original_ratio(),
            self.spec_max_relative_ratio(),
        ))
    }

    /// Whether two contracts agree in everything that is fixed at
    /// construction: all but the ratio in force.
    pub open spec fn same_construction(&self, other: &ResamplerContract) -> bool {
        &&& self.spec_input_rate() == other.spec_input_rate()
        &&& self.spec_output_rate() == other.spec_output_rate()
        &&& self.spec_channels() == other.spec_channels()
        &&& self.spec_is_adjustable() == other.spec_is_adjustable()
        &&& self.spec_original_ratio() == other.spec_original_ratio()
        &&& self.spec_max_relative_ratio() == other.spec_max_relative_ratio()
    }

    /// Validates the parameters of a resampler and, where they pass, keeps
    /// them. Where they fail nothing is built, and the fault says why.
    pub fn new(
        input_rate: usize,
        output_rate: usize,
        ratio: Binary64,
        max_relative_ratio: Binary64,
        channels: usize,
        adjustable: bool,
    ) -> (outcome: Result<ResamplerContract, ResamplerConstructionError>)
        ensures
            match spec_validate_construction(input_rate, output_rate, ratio, max_relative_ratio) {
                Err(fault) => outcome == Err::<ResamplerContract, ResamplerConstructionError>(fault),
                Ok(_) => {
                    &&& outcome matches Ok(contract)
                    &&& contract.well_formed()
                    &&& contract.spec_input_rate() == input_rate
                    &&& contract.spec_output_rate() == output_rate
                    &&& contract.spec_channels() == channels
                    &&& contract.spec_is_adjustable() == adjustable
                    &&& contract.spec_original_ratio() == ratio
                    &&& contract.spec_max_relative_ratio() == max_relative_ratio
                    &&& contract.spec_ratio() == ratio
                },
            },
    {
        match validate_construction(input_rate, output_rate, ratio, max_relative_ratio) {
            Err(fault) => Err(fault),
            Ok(_) => {
                Ok(
                    ResamplerContract {
                        input_rate,
                        output_rate,
                        channels,
                        adjustable,
                        original_ratio: ratio,
                        max_relative_ratio,
                        ratio,
                    },
                )
            },
        }
    }

    /// The sample rate of the input.
    #[verifier::when_used_as_spec(spec_input_rate)]
    pub fn input_rate(&self) -> (rate: usize)
        ensures
            rate == self.spec_input_rate(),
    {
        self.input_rate
    }

    /// The sample rate of the output.
    #[verifier::when_used_as_spec(spec_output_rate)]
    pub fn output_rate(&self) -> (rate: usize)
        ensures
            rate == self.spec_output_rate(),
    {
        self.output_rate
    }

    /// The number of channels that every call must bring.
    #[verifier::when_used_as_spec(spec_channels)]
    pub fn channels(&self) -> (channels: usize)
        ensures
            channels == self.spec_channels(),
    {
        self.channels
    }

    /// Whether the ratio may be changed.
    #[verifier::when_used_as_spec(spec_is_adjustable)]
    pub fn is_adjustable(&self) -> (adjustable: bool)
        ensures
            adjustable == self.spec_is_adjustable(),
    {
        self.adjustable
    }

    /// The ratio that the resampler was constructed with.
    #[verifier::when_used_as_spec(spec_original_ratio)]
    pub fn original_ratio(&self) -> (ratio: Binary64)
        ensures
            ratio == self.spec_original_ratio(),
    {
        self.original_ratio
    }

    /// The bound on relative changes of the ratio.
    #[verifier::when_used_as_spec(spec_max_relative_ratio)]
    pub fn max_relative_ratio(&self) -> (bound: Binary64)
        ensures
            bound == self.spec_max_relative_ratio(),
    {
        self.max_relative_ratio
    }

    /// The ratio in force.
    #[verifier::when_used_as_spec(spec_ratio)]
    pub fn ratio(&self) -> (ratio: Binary64)
        ensures
            ratio == self.spec_ratio(),
    {
        self.ratio
    }

    /// Changes the ratio in force, where the resampler is adjustable and the
    /// new ratio lies in the window around the original one.
    ///
    /// A request that is refused changes nothing. One that is granted changes
    /// the ratio in force and nothing else: the window stays where
    /// construction put it.
    pub fn set_resample_ratio(&mut self, new_ratio: Binary64) -> (outcome: Result<
        (),
        ResampleError,
    >)
        ensures
            outcome == spec_validate_ratio_update(
                new_ratio,
                old(self).spec_original_ratio(),
                old(self).spec_max_relative_ratio(),
                old(self).spec_is_adjustable(),
            ),
            final(self).well_formed(),
            final(self).same_construction(old(self)),
            outcome is Err ==> *final(self) == *old(self),
            outcome is Ok ==> final(self).spec_ratio() == new_ratio,
    {
        proof {
            use_type_invariant(&*self);
        }
        match validate_ratio_update(
            new_ratio,
            self.original_ratio,
            self.max_relative_ratio,
            self.adjustable,
        ) {
            Err(fault) => Err(fault),
            Ok(_) => {
                self.ratio = new_ratio;
                Ok(())
            },
        }
    }

    /// Validates the buffers of one streaming call against this resampler,
    /// given the length of each channel of the input and of the output, the
    /// channel count of the mask where there is one, and the number of frames
    /// that the call needs to read and to write.
    ///
    /// The check reads the contract and changes nothing, whether it passes or
    /// not.
    pub fn check_process(
        &self,
        input_lengths: &[usize],
        output_lengths: &[usize],
        mask_channels: Option<usize>,
        min_input: usize,
        min_output: usize,
    ) -> (outcome: Result<(), ResampleError>)
        ensures
            outcome == spec_validate_call(
                input_lengths@,
                output_lengths@,
                mask_channels,
                self.spec_channels(),
                min_input,
                min_output,
            ),
    {
        validate_call(
            input_lengths,
            output_lengths,
            mask_channels,
            self.channels,
            min_input,
            min_output,
        )
    }
}

} // verus!
