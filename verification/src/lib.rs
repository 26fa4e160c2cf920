pub mod amplifier;
pub mod codec;
pub mod contract;
pub mod fm_receiver;
pub mod laws;
pub mod params;
pub mod validate;

use vstd::prelude::*;

verus! {

/// The fixed audio output rate of the FM receiver, in hertz.
pub const AUDIO_RATE: u64 = 48_000;

/// The interpolation factor of the first resampling stage.
pub const INTERP: u64 = 10;

/// The sample rate assumed for an input stream that declares none, in hertz.
pub const DEFAULT_SAMPLE_RATE: u64 = 1_800_000;

/// The sample rate a stream is processed at: the declared one, or the
/// documented fallback when none is declared.
pub open spec fn effective_sample_rate(declared: Option<u64>) -> u64 {
    match declared {
        Some(r) => r,
        None => DEFAULT_SAMPLE_RATE,
    }
}

} // verus!
