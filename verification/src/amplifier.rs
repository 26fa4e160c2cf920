use vstd::prelude::*;

use crate::codec::{
    b64_decode_of, b64_encode, b64_encode_of, bytes_of_samples, encode_samples,
    lemma_samples_roundtrip, ComplexSample,
};
use crate::contract::{DataType, FunctionPostRequest, FunctionPostResponse, IQError, SampleStream};
use crate::params::{CustomParamType, FunctionParameters, FunctionParamsBuilder};
use crate::validate::{first_stream, rejection_of, stream_samples, validate_request, Rejection};
use vstd::arithmetic::div_mod::lemma_fundamental_div_mod_converse;
use vstd::string::StringExecFns;

verus! {

/// The amplifier's parameter record: the real scalar every sample is
/// multiplied by, held as its IEEE-754 single-precision bit pattern.
#[derive(Clone, Copy, PartialEq, Eq, Structural, Debug)]
pub struct AmplifierParams {
    pub a_bits: u32,
}

/// The IEEE-754 single-precision bit pattern of one: the published default
/// for the scalar, applied when the parameter record is omitted.
pub const DEFAULT_SCALE_BITS: u32 = 0x3F80_0000;

/// The scalar a request asks to multiply by: the one it carries, or the
/// published default of one where the parameter record is omitted.
pub open spec fn requested_scale_bits(req: FunctionPostRequest<AmplifierParams>) -> u32 {
    match req.custom_params {
        Some(params) => params.a_bits,
        None => DEFAULT_SCALE_BITS,
    }
}

/// Elementwise complex scaling: the trivial function, here to exercise the
/// shared contract end to end.
#[derive(Clone, Copy)]
pub struct AmplifierFunction {}

/// The validated work of one amplifier request: the decoded input samples,
/// the scalar to multiply by, and the envelope metadata the output stream
/// inherits. The multiplication itself is floating-point work done outside
/// this library; `finish` wraps its result back into a response.
#[derive(Debug)]
pub struct AmplifierJob {
    pub samples: Vec<ComplexSample>,
    pub a_bits: u32,
    pub data_type: DataType,
    pub sample_rate: Option<u64>,
}

impl AmplifierFunction {
    /// The published schema: one input stream, one output stream, and the
    /// mandatory scalar `a` with documented default `1.0`.
    pub fn parameters(self) -> (r: FunctionParameters)
        ensures
            r.max_inputs == 1,
            r.max_outputs == 1,
            r.custom_params@.len() == 1,
            r.custom_params@[0].name@ == "a"@,
            r.custom_params@[0].description@ == "amplitude multiplier coefficient"@,
            r.custom_params@[0].param_type == CustomParamType::Number,
            r.custom_params@[0].default matches Some(d) && d@ == "1.0"@,
    {
        FunctionParamsBuilder::new().max_inputs(1).max_outputs(1).custom_param(
            "a",
            "amplitude multiplier coefficient",
            CustomParamType::Number,
            Some("1.0"),
        ).build()
    }

    /// Check a request against the shared contract and decode its input.
    /// Succeeds exactly where no ground for rejection exists; each rejection
    /// surfaces as the typed error the contract calls for. The scalar is not
    /// mandatory: where the parameter record is omitted it takes its
    /// published default of one.
    pub fn prepare(self, request: &FunctionPostRequest<AmplifierParams>) -> (r: Result<
        AmplifierJob,
        IQError,
    >)
        ensures
            r is Err <==> rejection_of(*request, DataType::IqSlashCf32Le, false) is Some,
            r matches Ok(job) ==> {
                &&& Some(job.samples@) == stream_samples(first_stream(*request))
                &&& job.a_bits == requested_scale_bits(*request)
                &&& job.data_type == first_stream(*request).data_type
                &&& job.sample_rate == first_stream(*request).sample_rate
            },
            rejection_of(*request, DataType::IqSlashCf32Le, false) == Some(Rejection::CloudSamples)
                ==> (r matches Err(IQError::NotYetImplemented(m)) && m@
                == "Cloud samples not yet implemented"@),
            rejection_of(*request, DataType::IqSlashCf32Le, false) == Some(
                Rejection::MissingSamplesB64,
            ) ==> (r matches Err(IQError::NotYetImplemented(m)) && m@
                == "samples in Base64 are mandatory"@),
            rejection_of(*request, DataType::IqSlashCf32Le, false) == Some(
                Rejection::UnsupportedType,
            ) ==> (r matches Err(IQError::UnsupportedDataType(dt)) && dt == first_stream(
                *request,
            ).data_type),
            rejection_of(*request, DataType::IqSlashCf32Le, false) == Some(Rejection::NotBase64)
                ==> (r matches Err(IQError::CodecError(m)) && m@
                == "samples are not valid Base64"@),
            rejection_of(*request, DataType::IqSlashCf32Le, false) == Some(Rejection::OddByteCount)
                ==> (r matches Err(IQError::CodecError(m)) && m@
                == "sample byte count is not a multiple of 8"@),
    {
        let samples = validate_request(request, DataType::IqSlashCf32Le, None)?;
        let a_bits = match &request.custom_params {
            Some(params) => params.a_bits,
            None => DEFAULT_SCALE_BITS,
        };
        let stream = match &request.samples_b64 {
            Some(streams) => &streams[0],
            None => {
                return Err(
                    IQError::NotYetImplemented(
                        String::from_str("samples in Base64 are mandatory"),
                    ),
                );
            },
        };
        Ok(
            AmplifierJob {
                samples,
                a_bits,
                data_type: stream.data_type,
                sample_rate: stream.sample_rate,
            },
        )
    }

    /// Wrap the scaled samples into the response: one output stream that
    /// inherits the input's envelope metadata and carries exactly the given
    /// samples, freshly encoded.
    pub fn finish(self, job: &AmplifierJob, scaled: &Vec<ComplexSample>) -> (r:
        FunctionPostResponse)
        ensures
            r.details is None,
            r.annotations is None,
            r.data_output matches Some(streams) && {
                &&& streams@.len() == 1
                &&& streams@[0].data_type == job.data_type
                &&& streams@[0].sample_rate == job.sample_rate
                &&& streams@[0].samples@ == b64_encode_of(bytes_of_samples(scaled@))
                &&& stream_samples(streams@[0]) == Some(scaled@)
            },
    {
        let bytes = encode_samples(scaled);
        let text = b64_encode(&bytes);
        proof {
            lemma_fundamental_div_mod_converse(
                bytes@.len() as int,
                8,
                scaled@.len() as int,
                0,
            );
            lemma_samples_roundtrip(scaled@);
        }
        let output = SampleStream {
            data_type: job.data_type,
            sample_rate: job.sample_rate,
            samples: text,
        };
        FunctionPostResponse {
            data_output: Some(vec![output]),
            annotations: None,
            details: None,
        }
    }
}

} // verus!
