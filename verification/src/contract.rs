use vstd::prelude::*;
use vstd::string::StringExecFns;

verus! {

/// The declared encoding of a sample stream's payload.
#[derive(Clone, Copy, PartialEq, Eq, Structural, Debug)]
pub enum DataType {
    /// Interleaved complex 32-bit floats, little-endian: the one encoding
    /// the functions here process.
    IqSlashCf32Le,
    /// Interleaved complex 16-bit integers, little-endian.
    IqSlashCi16Le,
    /// Interleaved complex 8-bit integers.
    IqSlashCi8,
}

/// The wire name of a data type.
pub open spec fn data_type_name(dt: DataType) -> Seq<char> {
    match dt {
        DataType::IqSlashCf32Le => "iq/cf32_le"@,
        DataType::IqSlashCi16Le => "iq/ci16_le"@,
        DataType::IqSlashCi8 => "iq/ci8"@,
    }
}

impl DataType {
    /// The wire name of this data type.
    pub fn name(&self) -> (r: String)
        ensures
            r@ == data_type_name(*self),
    {
        match self {
            DataType::IqSlashCf32Le => String::from_str("iq/cf32_le"),
            DataType::IqSlashCi16Le => String::from_str("iq/ci16_le"),
            DataType::IqSlashCi8 => String::from_str("iq/ci8"),
        }
    }
}

/// One self-describing sample stream: its payload encoding, its sample rate
/// in hertz where one is declared, and its samples as Base64 text.
#[derive(Clone, Debug)]
pub struct SampleStream {
    pub data_type: DataType,
    pub sample_rate: Option<u64>,
    pub samples: String,
}

/// A reference to samples held by a cloud store. Requests that carry one are
/// rejected: cloud-sourced ingestion is intentionally unsupported.
#[derive(Clone, Debug)]
pub struct CloudRef {
    pub account: String,
    pub container: String,
    pub file_path: String,
}

/// A labeled region of interest over a sample stream.
#[derive(Clone, Debug)]
pub struct Annotation {
    pub start_sample_or_freq: i64,
    pub length_or_bandwidth: i64,
    pub label: Option<String>,
    pub comment: Option<String>,
}

/// The body of a request to one of the functions: at most one meaningful
/// sample source, plus the function's own parameter record.
#[derive(Clone, Debug)]
pub struct FunctionPostRequest<P> {
    pub samples_b64: Option<Vec<SampleStream>>,
    pub samples_cloud: Option<Vec<CloudRef>>,
    pub custom_params: Option<P>,
}

/// The body of a response: output streams and annotations on success,
/// a diagnostic under `details` on failure.
#[derive(Clone, Debug)]
pub struct FunctionPostResponse {
    pub data_output: Option<Vec<SampleStream>>,
    pub annotations: Option<Vec<Annotation>>,
    pub details: Option<String>,
}

impl FunctionPostResponse {
    /// An empty response, to be filled by the function that succeeds.
    pub fn new() -> (r: FunctionPostResponse)
        ensures
            r.data_output is None,
            r.annotations is None,
            r.details is None,
    {
        FunctionPostResponse { data_output: None, annotations: None, details: None }
    }
}

/// Everything that can go wrong while serving one request. Every validation
/// failure surfaces as one of these; no function panics on malformed input.
#[derive(Clone, Debug)]
pub enum IQError {
    /// A feature that is intentionally unsupported was asked for.
    NotYetImplemented(String),
    /// A declared-mandatory custom parameter is absent.
    MandatoryParameter(String),
    /// The input stream's declared data type is not handled by the function.
    UnsupportedDataType(DataType),
    /// The sample payload is malformed or truncated.
    CodecError(String),
    /// The graph execution engine reported a failure mid-run.
    ExecutionError(String),
}

/// The diagnostic text an error carries to the caller.
pub open spec fn error_details(e: IQError) -> Seq<char> {
    match e {
        IQError::NotYetImplemented(m) => "Not yet implemented: "@ + m@,
        IQError::MandatoryParameter(n) => "Mandatory parameter missing: "@ + n@,
        IQError::UnsupportedDataType(dt) => "Unsupported data type: "@ + data_type_name(dt),
        IQError::CodecError(m) => "Codec error: "@ + m@,
        IQError::ExecutionError(m) => "Execution error: "@ + m@,
    }
}

impl IQError {
    /// The diagnostic text of this error.
    pub fn details(&self) -> (r: String)
        ensures
            r@ == error_details(*self),
    {
        match self {
            IQError::NotYetImplemented(m) => String::from_str("Not yet implemented: ").concat(
                m.as_str(),
            ),
            IQError::MandatoryParameter(n) => String::from_str(
                "Mandatory parameter missing: ",
            ).concat(n.as_str()),
            IQError::UnsupportedDataType(dt) => String::from_str(
                "Unsupported data type: ",
            ).concat(dt.name().as_str()),
            IQError::CodecError(m) => String::from_str("Codec error: ").concat(m.as_str()),
            IQError::ExecutionError(m) => String::from_str("Execution error: ").concat(m.as_str()),
        }
    }
}

/// The response that reports an error: no output, no annotations, and the
/// error's diagnostic under `details`.
pub fn error_response(e: &IQError) -> (r: FunctionPostResponse)
    ensures
        r.data_output is None,
        r.annotations is None,
        r.details matches Some(d) && d@ == error_details(*e),
{
    FunctionPostResponse { data_output: None, annotations: None, details: Some(e.details()) }
}

} // verus!
