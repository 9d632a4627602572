//! Capability detection and argument contracts of a multi-channel
//! sample-rate converter.
//!
//! The crate answers two questions for a resampling engine. Which accelerated
//! kernels may run on this host, given the features that were probed on it?
//! And is a construction request, or a streaming call, well formed? Every
//! answer is a plain value: a boolean, or a fault that names what was wrong
//! together with the numbers needed to diagnose it.

pub mod binary64;
pub mod call;
pub mod construction;
pub mod cpu;
pub mod resampler;
pub mod text;

pub use binary64::Binary64;
pub use call::{
    ratio_out_of_bounds_message, validate_buffer_sizes, validate_call, validate_channels,
    validate_ratio_update, RatioText, ResampleError, ResampleResult,
};
pub use construction::{
    invalid_ratio_message, invalid_relative_ratio_message, invalid_sample_rate_message,
    validate_construction, ResamplerConstructionError,
};
pub use cpu::{required_capability_missing, CpuFeature, HostCapabilities, MissingCpuFeature};
pub use resampler::ResamplerContract;
