use base64::Engine;
use iq_functions::codec::{decode_samples, encode_samples, ComplexSample};

fn b64_of(bytes: &[u8]) -> String {
    base64::engine::general_purpose::STANDARD.encode(bytes)
}

#[test]
fn decode_reads_little_endian_words() {
    let bytes: Vec<u8> = vec![
        0x01, 0x02, 0x03, 0x04, 0x05, 0x06, 0x07, 0x08, //
        0xFF, 0x00, 0x00, 0x00, 0x00, 0x00, 0x00, 0x80,
    ];
    let samples = decode_samples(&bytes).unwrap();
    assert_eq!(
        samples,
        vec![
            ComplexSample { re_bits: 0x04030201, im_bits: 0x08070605 },
            ComplexSample { re_bits: 0x000000FF, im_bits: 0x80000000 },
        ]
    );
}

#[test]
fn decode_rejects_odd_byte_counts() {
    assert!(decode_samples(&vec![0u8; 7]).is_none());
    assert!(decode_samples(&vec![0u8; 9]).is_none());
    assert!(decode_samples(&vec![0u8; 4]).is_none());
    assert!(decode_samples(&Vec::new()).is_some());
}

#[test]
fn encode_writes_little_endian_words() {
    let samples = vec![
        ComplexSample { re_bits: 0x3F800000, im_bits: 0xBF800000 },
    ];
    let bytes = encode_samples(&samples);
    assert_eq!(bytes, vec![0x00, 0x00, 0x80, 0x3F, 0x00, 0x00, 0x80, 0xBF]);
}

#[test]
fn float_bit_patterns_survive_the_codec() {
    let values = [(1.0f32, -1.0f32), (0.5, 2.0), (f32::MIN_POSITIVE, -0.0)];
    let mut bytes = Vec::new();
    for (re, im) in &values {
        bytes.extend_from_slice(&re.to_le_bytes());
        bytes.extend_from_slice(&im.to_le_bytes());
    }
    let samples = decode_samples(&bytes).unwrap();
    for (s, (re, im)) in samples.iter().zip(values.iter()) {
        assert_eq!(f32::from_bits(s.re_bits), *re);
        assert_eq!(f32::from_bits(s.im_bits), *im);
    }
    assert_eq!(encode_samples(&samples), bytes);
}

#[test]
fn codec_round_trips_both_ways() {
    let samples = vec![
        ComplexSample { re_bits: 0, im_bits: u32::MAX },
        ComplexSample { re_bits: 0xDEADBEEF, im_bits: 0x12345678 },
        ComplexSample { re_bits: 1, im_bits: 0x80000001 },
    ];
    let bytes = encode_samples(&samples);
    assert_eq!(decode_samples(&bytes).unwrap(), samples);

    let raw: Vec<u8> = (0u8..=255).collect();
    let decoded = decode_samples(&raw).unwrap();
    assert_eq!(encode_samples(&decoded), raw);
}

#[test]
fn known_base64_vector() {
    // A fixed, externally computed vector pins the Base64 wiring: eight zero
    // bytes read "AAAAAAAAAAA=".
    assert_eq!(b64_of(&[0u8; 8]), "AAAAAAAAAAA=");
}
