use vstd::prelude::*;
use vstd::string::StringExecFns;

use crate::codec::{b64_decode, b64_decode_of, decode_samples, samples_of_bytes, ComplexSample};
use crate::contract::{DataType, FunctionPostRequest, IQError, SampleStream};

verus! {

/// Whether a request carries a non-empty cloud-sample reference list.
pub open spec fn has_cloud_samples<P>(req: FunctionPostRequest<P>) -> bool {
    match req.samples_cloud {
        Some(refs) => refs@.len() > 0,
        None => false,
    }
}

/// Whether a request carries at least one Base64 sample stream.
pub open spec fn has_b64_stream<P>(req: FunctionPostRequest<P>) -> bool {
    match req.samples_b64 {
        Some(streams) => streams@.len() > 0,
        None => false,
    }
}

/// The one input stream a function works on: the first Base64 stream.
/// Meaningful only where `has_b64_stream` holds.
pub open spec fn first_stream<P>(req: FunctionPostRequest<P>) -> SampleStream {
    match req.samples_b64 {
        Some(streams) => streams@[0],
        None => arbitrary(),
    }
}

/// The complex samples a stream's Base64 payload spells, or nothing where
/// the text is not valid Base64 or the bytes do not pair into samples.
pub open spec fn stream_samples(s: SampleStream) -> Option<Seq<ComplexSample>> {
    match b64_decode_of(s.samples@) {
        None => None,
        Some(bytes) => if bytes.len() % 8 == 0 {
            Some(samples_of_bytes(bytes))
        } else {
            None
        },
    }
}

/// Why a request is turned away, in the order the checks are made. The same
/// contract governs every function; only the supported data type and whether
/// the custom parameter record is mandatory or carries a default differ.
#[derive(Clone, Copy, PartialEq, Eq, Structural, Debug)]
pub enum Rejection {
    /// A non-empty `samples_cloud` list: cloud ingestion is unsupported.
    CloudSamples,
    /// No Base64 sample stream: the one supported sample source is absent.
    MissingSamplesB64,
    /// The custom parameter record is absent where the function declares it
    /// mandatory rather than defaulted.
    MissingParameter,
    /// The input stream's declared data type is not the supported one.
    UnsupportedType,
    /// The sample payload is not valid Base64 text.
    NotBase64,
    /// The decoded payload does not split into eight-byte complex samples.
    OddByteCount,
}

/// The first ground, if any, on which a request is rejected.
/// `param_required` says whether the function's custom parameter record is
/// mandatory; where it is not, its absence means the published default.
pub open spec fn rejection_of<P>(
    req: FunctionPostRequest<P>,
    supported: DataType,
    param_required: bool,
) -> Option<Rejection> {
    if has_cloud_samples(req) {
        Some(Rejection::CloudSamples)
    } else if !has_b64_stream(req) {
        Some(Rejection::MissingSamplesB64)
    } else if param_required && req.custom_params is None {
        Some(Rejection::MissingParameter)
    } else if first_stream(req).data_type != supported {
        Some(Rejection::UnsupportedType)
    } else if b64_decode_of(first_stream(req).samples@) is None {
        Some(Rejection::NotBase64)
    } else if b64_decode_of(first_stream(req).samples@)->0.len() % 8 != 0 {
        Some(Rejection::OddByteCount)
    } else {
        None
    }
}

/// Run the shared contract checks on a request and decode its input stream.
/// Succeeds exactly where no ground for rejection exists, handing back the
/// decoded samples; otherwise the typed error the rejection calls for.
/// `mandatory_param` names the custom parameter where the function declares
/// it mandatory; `None` where its absence means the published default.
pub fn validate_request<P>(
    req: &FunctionPostRequest<P>,
    supported: DataType,
    mandatory_param: Option<&str>,
) -> (r: Result<Vec<ComplexSample>, IQError>)
    ensures
        r is Err <==> rejection_of(*req, supported, mandatory_param is Some) is Some,
        r matches Ok(samples) ==> Some(samples@) == stream_samples(first_stream(*req)),
        rejection_of(*req, supported, mandatory_param is Some) == Some(Rejection::CloudSamples)
            ==> (r matches Err(IQError::NotYetImplemented(m)) && m@
            == "Cloud samples not yet implemented"@),
        rejection_of(*req, supported, mandatory_param is Some) == Some(
            Rejection::MissingSamplesB64,
        ) ==> (r matches Err(IQError::NotYetImplemented(m)) && m@
            == "samples in Base64 are mandatory"@),
        rejection_of(*req, supported, mandatory_param is Some) == Some(
            Rejection::MissingParameter,
        ) ==> (r matches Err(IQError::MandatoryParameter(n)) && mandatory_param matches Some(p)
            && n@ == p@),
        rejection_of(*req, supported, mandatory_param is Some) == Some(Rejection::UnsupportedType)
            ==> (r matches Err(IQError::UnsupportedDataType(dt)) && dt == first_stream(
            *req,
        ).data_type),
        rejection_of(*req, supported, mandatory_param is Some) == Some(Rejection::NotBase64) ==> (
        r matches Err(IQError::CodecError(m)) && m@ == "samples are not valid Base64"@),
        rejection_of(*req, supported, mandatory_param is Some) == Some(Rejection::OddByteCount)
            ==> (r matches Err(IQError::CodecError(m)) && m@
            == "sample byte count is not a multiple of 8"@),
{
    if let Some(cloud) = &req.samples_cloud {
        if cloud.len() > 0 {
            return Err(
                IQError::NotYetImplemented(String::from_str("Cloud samples not yet implemented")),
            );
        }
    }
    let streams = match &req.samples_b64 {
        Some(streams) => streams,
        None => {
            return Err(
                IQError::NotYetImplemented(String::from_str("samples in Base64 are mandatory")),
            );
        },
    };
    if streams.len() == 0 {
        return Err(
            IQError::NotYetImplemented(String::from_str("samples in Base64 are mandatory")),
        );
    }
    if let Some(param_name) = mandatory_param {
        if req.custom_params.is_none() {
            return Err(IQError::MandatoryParameter(String::from_str(param_name)));
        }
    }
    let stream = &streams[0];
    if stream.data_type != supported {
        return Err(IQError::UnsupportedDataType(stream.data_type));
    }
    let bytes = match b64_decode(stream.samples.as_str()) {
        Ok(bytes) => bytes,
        Err(_) => {
            return Err(IQError::CodecError(String::from_str("samples are not valid Base64")));
        },
    };
    match decode_samples(&bytes) {
        Some(samples) => Ok(samples),
        None => Err(
            IQError::CodecError(String::from_str("sample byte count is not a multiple of 8")),
        ),
    }
}

} // verus!
