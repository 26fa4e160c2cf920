use vstd::prelude::*;

use crate::amplifier::{requested_scale_bits, AmplifierParams, DEFAULT_SCALE_BITS};
use crate::contract::{DataType, FunctionPostRequest};
use crate::validate::{
    first_stream, has_b64_stream, has_cloud_samples, rejection_of, Rejection,
};

verus! {

/// A request that carries no Base64 sample stream is rejected before its
/// parameters are looked at, whatever function it is addressed to and
/// whether or not that function's parameter record is mandatory: the ground
/// is either the cloud-sample check or the missing stream itself, and both
/// surface as a `NotYetImplemented` error, never as `MandatoryParameter`.
pub proof fn lemma_missing_b64_refused<P>(
    req: FunctionPostRequest<P>,
    supported: DataType,
    param_required: bool,
)
    requires
        !has_b64_stream(req),
    ensures
        rejection_of(req, supported, param_required) == Some(Rejection::CloudSamples)
            || rejection_of(req, supported, param_required) == Some(Rejection::MissingSamplesB64),
{
}

/// A request with a non-empty cloud-sample reference list is rejected as not
/// yet implemented, whatever function it is addressed to and whatever its
/// Base64 streams hold.
pub proof fn lemma_cloud_samples_refused<P>(
    req: FunctionPostRequest<P>,
    supported: DataType,
    param_required: bool,
)
    requires
        has_cloud_samples(req),
    ensures
        rejection_of(req, supported, param_required) == Some(Rejection::CloudSamples),
{
}

/// Where a function declares its custom parameter record mandatory (the FM
/// receiver here), a request without one is rejected on that ground as soon
/// as its sample source is in order. The function's `prepare` maps this
/// rejection to `MandatoryParameter` naming exactly its own declared
/// parameter.
pub proof fn lemma_missing_parameter_refused<P>(req: FunctionPostRequest<P>, supported: DataType)
    requires
        !has_cloud_samples(req),
        has_b64_stream(req),
        req.custom_params is None,
    ensures
        rejection_of(req, supported, true) == Some(Rejection::MissingParameter),
{
}

/// Where the parameter record carries a published default instead (the
/// amplifier's scalar), its absence is no ground for rejection: the request
/// is judged on its stream alone, and the scalar taken is the default, one.
pub proof fn lemma_omitted_scale_defaults(req: FunctionPostRequest<AmplifierParams>)
    requires
        req.custom_params is None,
    ensures
        forall|supported: DataType|
            rejection_of(req, supported, false) != Some(Rejection::MissingParameter),
        requested_scale_bits(req) == DEFAULT_SCALE_BITS,
{
}

/// A request whose input stream declares a data type the function does not
/// support is rejected on that ground, whatever function it is addressed to,
/// as soon as its sample source and parameters are in order. Each function's
/// `prepare` maps this rejection to `UnsupportedDataType` naming the
/// offending type.
pub proof fn lemma_unsupported_type_refused<P>(
    req: FunctionPostRequest<P>,
    supported: DataType,
    param_required: bool,
)
    requires
        !has_cloud_samples(req),
        has_b64_stream(req),
        param_required ==> req.custom_params is Some,
        first_stream(req).data_type != supported,
    ensures
        rejection_of(req, supported, param_required) == Some(Rejection::UnsupportedType),
{
}

} // verus!
