use vstd::prelude::*;

use crate::codec::{b64_decode_of, b64_encode, b64_encode_of, ComplexSample};
use crate::contract::{DataType, FunctionPostRequest, FunctionPostResponse, IQError, SampleStream};
use crate::effective_sample_rate;
use crate::params::{CustomParamType, FunctionParameters, FunctionParamsBuilder};
use crate::validate::{first_stream, rejection_of, stream_samples, validate_request, Rejection};
use crate::{AUDIO_RATE, DEFAULT_SAMPLE_RATE, INTERP};
use vstd::arithmetic::div_mod::{lemma_fundamental_div_mod, lemma_fundamental_div_mod_converse};
use vstd::string::StringExecFns;

verus! {

/// The FM receiver's parameter record: the offset of the carrier of interest
/// from the capture's center, in hertz, held as the IEEE-754
/// single-precision bit pattern of the requested value.
#[derive(Clone, Copy, PartialEq, Eq, Structural, Debug)]
pub struct FmReceiverParams {
    pub target_freq_bits: u32,
}

/// The FM demodulation pipeline: turns baseband IQ samples into mono 16-bit
/// PCM audio at the fixed audio rate.
#[derive(Clone, Copy)]
pub struct FmReceiverFunction {}

/// The validated work of one FM receiver request: the decoded input samples,
/// the resampling plan for the stage chain, and the envelope metadata the
/// output stream inherits. Running the stage chain is the graph execution
/// engine's floating-point work outside this library; `finish` wraps the
/// waveform container it produces back into a response.
#[derive(Debug)]
pub struct FmReceiverJob {
    pub samples: Vec<ComplexSample>,
    pub target_freq_bits: u32,
    /// The rate the input is processed at: declared, or the documented
    /// fallback.
    pub sample_rate: u64,
    /// Interpolation factor of the first resampling stage.
    pub interp: u64,
    /// Decimation factor of the first resampling stage.
    pub decim: u64,
    /// The fixed rate of the output audio, in hertz.
    pub audio_rate: u64,
    pub data_type: DataType,
    /// The declared rate as it stood in the request, inherited by the
    /// output stream's envelope.
    pub declared_sample_rate: Option<u64>,
}

/// The decimation factor that takes `sample_rate` to the intermediate rate
/// `AUDIO_RATE * INTERP` once the interpolation factor `INTERP` is applied:
/// `sample_rate * INTERP / (AUDIO_RATE * INTERP)` rounded to the nearest
/// integer, a half rounding up.
pub open spec fn decim_for(sample_rate: int) -> int {
    (sample_rate + (AUDIO_RATE / 2) as int) / (AUDIO_RATE as int)
}

/// The decimation factor is exactly the rounded ratio of the effective
/// input rate to the intermediate rate, scaled by the interpolation factor:
/// it puts `sample_rate * INTERP` within half an intermediate-rate step of
/// `decim * (AUDIO_RATE * INTERP)`.
pub proof fn lemma_decim_ratio(sample_rate: u64)
    ensures
        decim_for(sample_rate as int) == (sample_rate * INTERP + ((AUDIO_RATE * INTERP) / 2) as int)
            / ((AUDIO_RATE * INTERP) as int),
        decim_for(sample_rate as int) * (AUDIO_RATE * INTERP) <= sample_rate * INTERP + ((
        AUDIO_RATE * INTERP) / 2) as int,
        sample_rate * INTERP < decim_for(sample_rate as int) * (AUDIO_RATE * INTERP) + ((AUDIO_RATE
            * INTERP) / 2) as int,
{
    let s = sample_rate as int;
    let audio = AUDIO_RATE as int;
    let target = (AUDIO_RATE * INTERP) as int;
    let half = (AUDIO_RATE / 2) as int;
    let halft = target / 2;
    let d = decim_for(s);
    lemma_fundamental_div_mod(s + half, audio);
    let rem = (s + half) % audio;
    assert(s * (INTERP as int) + halft == d * target + (INTERP as int) * rem)
        by (nonlinear_arith)
        requires
            s + half == audio * d + rem,
            target == audio * (INTERP as int),
            halft == half * (INTERP as int),
    ;
    lemma_fundamental_div_mod_converse(
        s * (INTERP as int) + halft,
        target,
        d,
        (INTERP as int) * rem,
    );
}

/// When the input stream declares no sample rate, the pipeline computes its
/// resampling plan as if the rate were the documented fallback.
pub proof fn lemma_default_sample_rate(declared: Option<u64>)
    requires
        declared is None,
    ensures
        effective_sample_rate(declared) == DEFAULT_SAMPLE_RATE,
        decim_for(effective_sample_rate(declared) as int) == decim_for(
            DEFAULT_SAMPLE_RATE as int,
        ),
        decim_for(DEFAULT_SAMPLE_RATE as int) == 38,
{
}

impl FmReceiverFunction {
    /// The published schema: one input stream, one output stream, and the
    /// mandatory carrier offset `target_freq` with documented default `0.0`.
    pub fn parameters(self) -> (r: FunctionParameters)
        ensures
            r.max_inputs == 1,
            r.max_outputs == 1,
            r.custom_params@.len() == 1,
            r.custom_params@[0].name@ == "target_freq"@,
            r.custom_params@[0].description@ == "Center of FM carrier"@,
            r.custom_params@[0].param_type == CustomParamType::Number,
            r.custom_params@[0].default matches Some(d) && d@ == "0.0"@,
    {
        FunctionParamsBuilder::new().max_inputs(1).max_outputs(1).custom_param(
            "target_freq",
            "Center of FM carrier",
            CustomParamType::Number,
            Some("0.0"),
        ).build()
    }

    /// Check a request against the shared contract, decode its input, and
    /// compute the resampling plan. Succeeds exactly where no ground for
    /// rejection exists; each rejection surfaces as the typed error the
    /// contract calls for, the mandatory parameter being `target_freq`.
    pub fn prepare(self, request: &FunctionPostRequest<FmReceiverParams>) -> (r: Result<
        FmReceiverJob,
        IQError,
    >)
        ensures
            r is Err <==> rejection_of(*request, DataType::IqSlashCf32Le, true) is Some,
            r matches Ok(job) ==> {
                &&& Some(job.samples@) == stream_samples(first_stream(*request))
                &&& job.target_freq_bits == request.custom_params->0.target_freq_bits
                &&& job.sample_rate == effective_sample_rate(first_stream(*request).sample_rate)
                &&& job.interp == INTERP
                &&& job.audio_rate == AUDIO_RATE
                &&& job.decim == decim_for(job.sample_rate as int)
                &&& job.data_type == first_stream(*request).data_type
                &&& job.declared_sample_rate == first_stream(*request).sample_rate
            },
            rejection_of(*request, DataType::IqSlashCf32Le, true) == Some(Rejection::CloudSamples) ==> (
            r matches Err(IQError::NotYetImplemented(m)) && m@
                == "Cloud samples not yet implemented"@),
            rejection_of(*request, DataType::IqSlashCf32Le, true) == Some(Rejection::MissingSamplesB64)
                ==> (r matches Err(IQError::NotYetImplemented(m)) && m@
                == "samples in Base64 are mandatory"@),
            rejection_of(*request, DataType::IqSlashCf32Le, true) == Some(Rejection::MissingParameter)
                ==> (r matches Err(IQError::MandatoryParameter(n)) && n@ == "target_freq"@),
            rejection_of(*request, DataType::IqSlashCf32Le, true) == Some(Rejection::UnsupportedType)
                ==> (r matches Err(IQError::UnsupportedDataType(dt)) && dt == first_stream(
                *request,
            ).data_type),
            rejection_of(*request, DataType::IqSlashCf32Le, true) == Some(Rejection::NotBase64) ==> (
            r matches Err(IQError::CodecError(m)) && m@ == "samples are not valid Base64"@),
            rejection_of(*request, DataType::IqSlashCf32Le, true) == Some(Rejection::OddByteCount) ==> (
            r matches Err(IQError::CodecError(m)) && m@
                == "sample byte count is not a multiple of 8"@),
    {
        let samples = validate_request(request, DataType::IqSlashCf32Le, Some("target_freq"))?;
        let params = match &request.custom_params {
            Some(params) => params,
            None => {
                return Err(IQError::MandatoryParameter(String::from_str("target_freq")));
            },
        };
        let stream = match &request.samples_b64 {
            Some(streams) => &streams[0],
            None => {
                return Err(
                    IQError::NotYetImplemented(
                        String::from_str("samples in Base64 are mandatory"),
                    ),
                );
            },
        };
        let sample_rate = match stream.sample_rate {
            Some(rate) => rate,
            None => DEFAULT_SAMPLE_RATE,
        };
        let decim = if sample_rate % AUDIO_RATE >= AUDIO_RATE / 2 {
            sample_rate / AUDIO_RATE + 1
        } else {
            sample_rate / AUDIO_RATE
        };
        proof {
            let s = sample_rate as int;
            let audio = AUDIO_RATE as int;
            let half = (AUDIO_RATE / 2) as int;
            lemma_fundamental_div_mod(s, audio);
            if s % audio >= half {
                lemma_fundamental_div_mod_converse(s + half, audio, s / audio + 1, s % audio - half);
            } else {
                lemma_fundamental_div_mod_converse(s + half, audio, s / audio, s % audio + half);
            }
        }
        Ok(
            FmReceiverJob {
                samples,
                target_freq_bits: params.target_freq_bits,
                sample_rate,
                interp: INTERP,
                decim,
                audio_rate: AUDIO_RATE,
                data_type: stream.data_type,
                declared_sample_rate: stream.sample_rate,
            },
        )
    }

    /// Wrap the waveform container the stage chain produced into the
    /// response: one output stream that inherits the input's envelope
    /// metadata and carries exactly the container's bytes, freshly encoded.
    pub fn finish(self, job: &FmReceiverJob, wav_bytes: &Vec<u8>) -> (r: FunctionPostResponse)
        ensures
            r.details is None,
            r.annotations is None,
            r.data_output matches Some(streams) && {
                &&& streams@.len() == 1
                &&& streams@[0].data_type == job.data_type
                &&& streams@[0].sample_rate == job.declared_sample_rate
                &&& streams@[0].samples@ == b64_encode_of(wav_bytes@)
                &&& b64_decode_of(streams@[0].samples@) == Some(wav_bytes@)
            },
    {
        let text = b64_encode(wav_bytes);
        let output = SampleStream {
            data_type: job.data_type,
            sample_rate: job.declared_sample_rate,
            samples: text,
        };
        FunctionPostResponse {
            data_output: Some(vec![output]),
            annotations: None,
            details: None,
        }
    }
}

} // verus!
