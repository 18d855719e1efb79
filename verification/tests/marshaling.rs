use itext_rs::marshal::{marshal_bytes, to_signed_byte, to_unsigned_byte, unmarshal_bytes};

#[test]
fn signed_reinterpretation_exact_values() {
    assert_eq!(to_signed_byte(0), 0i8);
    assert_eq!(to_signed_byte(1), 1i8);
    assert_eq!(to_signed_byte(127), 127i8);
    assert_eq!(to_signed_byte(128), -128i8);
    assert_eq!(to_signed_byte(200), -56i8);
    assert_eq!(to_signed_byte(255), -1i8);
}

#[test]
fn unsigned_reinterpretation_exact_values() {
    assert_eq!(to_unsigned_byte(0i8), 0u8);
    assert_eq!(to_unsigned_byte(127i8), 127u8);
    assert_eq!(to_unsigned_byte(-128i8), 128u8);
    assert_eq!(to_unsigned_byte(-56i8), 200u8);
    assert_eq!(to_unsigned_byte(-1i8), 255u8);
}

#[test]
fn round_trip_every_byte_value() {
    let all: Vec<u8> = (0u8..=255u8).collect();
    let signed = marshal_bytes(&all);
    assert_eq!(signed.len(), 256);
    let back = unmarshal_bytes(&signed);
    assert_eq!(back, all);
}

#[test]
fn round_trip_empty_buffer() {
    let empty: Vec<u8> = Vec::new();
    let signed = marshal_bytes(&empty);
    assert_eq!(signed.len(), 0);
    let back = unmarshal_bytes(&signed);
    assert_eq!(back, empty);
}

#[test]
fn round_trip_every_length_up_to_a_bound() {
    for n in 0..300usize {
        let buf: Vec<u8> = (0..n).map(|i| (i * 7 + 13) as u8).collect();
        let back = unmarshal_bytes(&marshal_bytes(&buf));
        assert_eq!(back, buf);
    }
}

#[test]
fn marshaling_reinterprets_high_bytes() {
    let buf = vec![0u8, 127, 128, 129, 255];
    let signed = marshal_bytes(&buf);
    assert_eq!(signed, vec![0i8, 127, -128, -127, -1]);
}
