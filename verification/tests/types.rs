use farm_core::types::{ExtId, ExtIdError};

#[test]
fn ext_id_roundtrip() {
    let id = ExtId::from_param("AAAAAAAAAAAAAAAAAAAAAA==").expect("sixteen zero bytes");
    assert_eq!(id.0, vec![0u8; 16]);
}

#[test]
fn ext_id_takes_first_sixteen_bytes() {
    // 18 decoded bytes: only the first chunk of sixteen makes the identifier.
    let id = ExtId::from_param("AQIDBAUGBwgJCgsMDQ4PEBESAA==");
    match id {
        Ok(ExtId(bytes)) => {
            assert_eq!(bytes.len(), 16);
            assert_eq!(bytes[0], 1);
            assert_eq!(bytes[15], 16);
        },
        Err(e) => panic!("expected an identifier, got: {}", e.0),
    }
}

#[test]
fn ext_id_rejects_short_input() {
    let err = ExtId::from_param("AA==").unwrap_err();
    assert_eq!(err.0, "Illegal chunk size, expected 16 bytes: AA==");
}

#[test]
fn ext_id_rejects_bad_base64() {
    let err: ExtIdError = ExtId::from_param("!!!").unwrap_err();
    assert!(err.0.starts_with("Error decoding url safe base64: "));
}
