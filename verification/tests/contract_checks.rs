use base64::Engine;
use iq_functions::amplifier::{AmplifierFunction, AmplifierParams};
use iq_functions::contract::{error_response, CloudRef, DataType, FunctionPostRequest, IQError};
use iq_functions::fm_receiver::{FmReceiverFunction, FmReceiverParams};
use iq_functions::contract::SampleStream;

fn b64_of(bytes: &[u8]) -> String {
    base64::engine::general_purpose::STANDARD.encode(bytes)
}

fn valid_stream() -> SampleStream {
    SampleStream {
        data_type: DataType::IqSlashCf32Le,
        sample_rate: Some(2_000_000),
        samples: b64_of(&[0u8; 8]),
    }
}

fn cloud_ref() -> CloudRef {
    CloudRef {
        account: String::from("acct"),
        container: String::from("iq"),
        file_path: String::from("capture.sigmf-data"),
    }
}

fn amp_request(
    samples_b64: Option<Vec<SampleStream>>,
    samples_cloud: Option<Vec<CloudRef>>,
    custom_params: Option<AmplifierParams>,
) -> FunctionPostRequest<AmplifierParams> {
    FunctionPostRequest { samples_b64, samples_cloud, custom_params }
}

fn fm_request(
    samples_b64: Option<Vec<SampleStream>>,
    samples_cloud: Option<Vec<CloudRef>>,
    custom_params: Option<FmReceiverParams>,
) -> FunctionPostRequest<FmReceiverParams> {
    FunctionPostRequest { samples_b64, samples_cloud, custom_params }
}

#[test]
fn missing_b64_rejected_amplifier() {
    let req = amp_request(None, None, Some(AmplifierParams { a_bits: 1.0f32.to_bits() }));
    let err = AmplifierFunction {}.prepare(&req).unwrap_err();
    match err {
        IQError::NotYetImplemented(m) => assert_eq!(m, "samples in Base64 are mandatory"),
        _ => panic!("expected NotYetImplemented"),
    }
}

#[test]
fn missing_b64_rejected_fm_receiver() {
    let req = fm_request(None, None, Some(FmReceiverParams { target_freq_bits: 0 }));
    let err = FmReceiverFunction {}.prepare(&req).unwrap_err();
    match err {
        IQError::NotYetImplemented(m) => assert_eq!(m, "samples in Base64 are mandatory"),
        _ => panic!("expected NotYetImplemented"),
    }
}

#[test]
fn missing_b64_rejected_before_parameters() {
    // No parameters either: the sample-source check still comes first.
    let req = amp_request(None, None, None);
    let err = AmplifierFunction {}.prepare(&req).unwrap_err();
    match err {
        IQError::NotYetImplemented(m) => assert_eq!(m, "samples in Base64 are mandatory"),
        _ => panic!("expected NotYetImplemented"),
    }
}

#[test]
fn empty_b64_list_rejected() {
    let req = amp_request(Some(vec![]), None, Some(AmplifierParams { a_bits: 0 }));
    let err = AmplifierFunction {}.prepare(&req).unwrap_err();
    match err {
        IQError::NotYetImplemented(m) => assert_eq!(m, "samples in Base64 are mandatory"),
        _ => panic!("expected NotYetImplemented"),
    }
}

#[test]
fn cloud_samples_rejected_amplifier() {
    // Cloud samples win over everything else, even a valid Base64 stream.
    let req = amp_request(
        Some(vec![valid_stream()]),
        Some(vec![cloud_ref()]),
        Some(AmplifierParams { a_bits: 1.0f32.to_bits() }),
    );
    let err = AmplifierFunction {}.prepare(&req).unwrap_err();
    match err {
        IQError::NotYetImplemented(m) => assert_eq!(m, "Cloud samples not yet implemented"),
        _ => panic!("expected NotYetImplemented"),
    }
}

#[test]
fn cloud_samples_rejected_fm_receiver() {
    let req = fm_request(
        Some(vec![valid_stream()]),
        Some(vec![cloud_ref()]),
        Some(FmReceiverParams { target_freq_bits: 0 }),
    );
    let err = FmReceiverFunction {}.prepare(&req).unwrap_err();
    match err {
        IQError::NotYetImplemented(m) => assert_eq!(m, "Cloud samples not yet implemented"),
        _ => panic!("expected NotYetImplemented"),
    }
}

#[test]
fn empty_cloud_list_is_not_a_rejection() {
    let req = amp_request(
        Some(vec![valid_stream()]),
        Some(vec![]),
        Some(AmplifierParams { a_bits: 1.0f32.to_bits() }),
    );
    assert!(AmplifierFunction {}.prepare(&req).is_ok());
}

#[test]
fn omitted_scalar_defaults_amplifier() {
    // The amplifier's scalar is published with a default of 1.0: omitting
    // the parameter record is no error, the default applies.
    let req = amp_request(Some(vec![valid_stream()]), None, None);
    let job = AmplifierFunction {}.prepare(&req).unwrap();
    assert_eq!(job.a_bits, 1.0f32.to_bits());
}

#[test]
fn missing_parameter_named_fm_receiver() {
    let req = fm_request(Some(vec![valid_stream()]), None, None);
    let err = FmReceiverFunction {}.prepare(&req).unwrap_err();
    match err {
        IQError::MandatoryParameter(name) => assert_eq!(name, "target_freq"),
        _ => panic!("expected MandatoryParameter"),
    }
}

#[test]
fn unsupported_data_type_named_amplifier() {
    let mut stream = valid_stream();
    stream.data_type = DataType::IqSlashCi16Le;
    let req = amp_request(Some(vec![stream]), None, Some(AmplifierParams { a_bits: 0 }));
    let err = AmplifierFunction {}.prepare(&req).unwrap_err();
    match err {
        IQError::UnsupportedDataType(dt) => assert_eq!(dt, DataType::IqSlashCi16Le),
        _ => panic!("expected UnsupportedDataType"),
    }
}

#[test]
fn unsupported_data_type_named_fm_receiver() {
    let mut stream = valid_stream();
    stream.data_type = DataType::IqSlashCi8;
    let req = fm_request(
        Some(vec![stream]),
        None,
        Some(FmReceiverParams { target_freq_bits: 0 }),
    );
    let err = FmReceiverFunction {}.prepare(&req).unwrap_err();
    match err {
        IQError::UnsupportedDataType(dt) => assert_eq!(dt, DataType::IqSlashCi8),
        _ => panic!("expected UnsupportedDataType"),
    }
}

#[test]
fn invalid_base64_is_codec_error() {
    let mut stream = valid_stream();
    stream.samples = String::from("!!!not base64!!!");
    let req = amp_request(Some(vec![stream]), None, Some(AmplifierParams { a_bits: 0 }));
    let err = AmplifierFunction {}.prepare(&req).unwrap_err();
    match err {
        IQError::CodecError(m) => assert_eq!(m, "samples are not valid Base64"),
        _ => panic!("expected CodecError"),
    }
}

#[test]
fn truncated_payload_is_codec_error() {
    let mut stream = valid_stream();
    stream.samples = b64_of(&[0u8; 12]);
    let req = amp_request(Some(vec![stream]), None, Some(AmplifierParams { a_bits: 0 }));
    let err = AmplifierFunction {}.prepare(&req).unwrap_err();
    match err {
        IQError::CodecError(m) => assert_eq!(m, "sample byte count is not a multiple of 8"),
        _ => panic!("expected CodecError"),
    }
}

#[test]
fn error_details_texts() {
    assert_eq!(
        IQError::NotYetImplemented(String::from("Cloud samples not yet implemented")).details(),
        "Not yet implemented: Cloud samples not yet implemented"
    );
    assert_eq!(
        IQError::MandatoryParameter(String::from("a")).details(),
        "Mandatory parameter missing: a"
    );
    assert_eq!(
        IQError::UnsupportedDataType(DataType::IqSlashCi16Le).details(),
        "Unsupported data type: iq/ci16_le"
    );
    assert_eq!(
        IQError::CodecError(String::from("samples are not valid Base64")).details(),
        "Codec error: samples are not valid Base64"
    );
    assert_eq!(
        IQError::ExecutionError(String::from("flowgraph failed")).details(),
        "Execution error: flowgraph failed"
    );
}

#[test]
fn error_response_carries_details_only() {
    let err = IQError::MandatoryParameter(String::from("target_freq"));
    let resp = error_response(&err);
    assert!(resp.data_output.is_none());
    assert!(resp.annotations.is_none());
    assert_eq!(
        resp.details.as_deref(),
        Some("Mandatory parameter missing: target_freq")
    );
}

#[test]
fn data_type_names() {
    assert_eq!(DataType::IqSlashCf32Le.name(), "iq/cf32_le");
    assert_eq!(DataType::IqSlashCi16Le.name(), "iq/ci16_le");
    assert_eq!(DataType::IqSlashCi8.name(), "iq/ci8");
}
