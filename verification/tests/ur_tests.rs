use bc_ur::Error;
use bc_ur::UR;
use bc_ur::URTypeChar;
use bc_ur::URTypeString;
use dcbor::CBOR;

#[test]
fn encode() {
    let cbor: CBOR = vec![1, 2, 3].into();
    let ur = UR::new("test", cbor).unwrap();
    let ur_string = ur.string();
    assert_eq!(ur_string, "ur:test/lsadaoaxjygonesw");
}

#[test]
fn decode() {
    let ur_string = "ur:test/lsadaoaxjygonesw";
    let ur = UR::from_ur_string(ur_string).unwrap();
    assert_eq!(ur.ur_type_str(), "test");
    let array_cbor: CBOR = vec![1, 2, 3].into();
    assert_eq!(ur.cbor(), array_cbor);
}

#[test]
fn test_ur() {
    let cbor: CBOR = vec![1, 2, 3].into();
    let ur = UR::new("test", cbor.clone()).unwrap();
    let ur_string = ur.string();
    assert_eq!(ur_string, "ur:test/lsadaoaxjygonesw");
    let ur = UR::from_ur_string(&ur_string).unwrap();
    assert_eq!(ur.ur_type_str(), "test");
    assert_eq!(ur.cbor(), cbor);

    let caps_ur_string = "UR:TEST/LSADAOAXJYGONESW";
    let ur = UR::from_ur_string(caps_ur_string).unwrap();
    assert_eq!(ur.ur_type_str(), "test");
    assert_eq!(ur.cbor(), cbor);
}

#[test]
fn test_round_trip_various() {
    let values: Vec<CBOR> = vec![
        CBOR::from("hello"),
        CBOR::from(42),
        CBOR::to_byte_string([0u8, 1, 2, 255]),
    ];
    for (i, cbor) in values.into_iter().enumerate() {
        let name = format!("type-{}", i);
        let ur = UR::new(&name, cbor).unwrap();
        let back = UR::from_ur_string(&ur.string()).unwrap();
        assert_eq!(ur, back);
        assert_eq!(back.ur_type_str(), name);
    }
}

#[test]
fn test_case_invariance() {
    let s = "ur:test/lsadaoaxjygonesw";
    let a = UR::from_ur_string(s).unwrap();
    let b = UR::from_ur_string(&s.to_uppercase()).unwrap();
    assert_eq!(a, b);
}

#[test]
fn test_invalid_type_segment() {
    let err = UR::from_ur_string("ur:bogus type/xyz").unwrap_err();
    assert!(matches!(err, Error::InvalidType));
}

#[test]
fn test_invalid_scheme() {
    let err = UR::from_ur_string("notur:test/abc").unwrap_err();
    assert!(matches!(err, Error::InvalidScheme));
}

#[test]
fn test_type_unspecified() {
    let err = UR::from_ur_string("ur:test").unwrap_err();
    assert!(matches!(err, Error::TypeUnspecified));
}

#[test]
fn test_empty_type_rejected() {
    let err = UR::from_ur_string("ur:/aeadaolazmjendeoti").unwrap_err();
    assert!(matches!(err, Error::InvalidType));
    let cbor: CBOR = vec![1, 2, 3].into();
    let err = UR::new("", cbor).unwrap_err();
    assert!(matches!(err, Error::InvalidType));
}

#[test]
fn test_new_invalid_type() {
    let cbor: CBOR = vec![1, 2, 3].into();
    let err = UR::new("Not Valid", cbor).unwrap_err();
    assert!(matches!(err, Error::InvalidType));
}

#[test]
fn test_delegated_fragment_error() {
    let err = UR::from_ur_string("ur:test/x").unwrap_err();
    assert!(matches!(err, Error::UR(_)));
}

#[test]
fn test_structural_decode_error() {
    let payload = bc_ur::bytewords::encode(&[0xFF], bc_ur::bytewords::Style::Minimal);
    let s = format!("ur:test/{}", payload);
    let err = UR::from_ur_string(&s).unwrap_err();
    assert!(matches!(err, Error::Cbor(_)));
}

#[test]
fn test_check_type() {
    let cbor: CBOR = vec![1, 2, 3].into();
    let ur = UR::new("test", cbor).unwrap();
    assert!(ur.check_type("test").is_ok());
    let err = ur.check_type("other").unwrap_err();
    match err {
        Error::UnexpectedType(expected, actual) => {
            assert_eq!(expected, "other");
            assert_eq!(actual, "test");
        }
        _ => panic!("expected UnexpectedType"),
    }
    let err = ur.check_type("Bad Type!").unwrap_err();
    assert!(matches!(err, Error::InvalidType));
    assert_eq!(ur.string(), "ur:test/lsadaoaxjygonesw");
}

#[test]
fn test_qr_forms() {
    let cbor: CBOR = vec![1, 2, 3].into();
    let ur = UR::new("test", cbor).unwrap();
    assert_eq!(ur.qr_string(), "UR:TEST/LSADAOAXJYGONESW");
    assert_eq!(ur.qr_data(), b"UR:TEST/LSADAOAXJYGONESW".to_vec());
}

#[test]
fn test_ur_type_accessor() {
    let cbor: CBOR = vec![1, 2, 3].into();
    let ur = UR::new("test", cbor).unwrap();
    assert_eq!(ur.ur_type().string(), "test");
    assert_eq!(bc_ur::URType::new("test").unwrap(), *ur.ur_type());
}

#[test]
fn test_ur_type_validation() {
    assert!(bc_ur::URType::new("crypto-seed").is_ok());
    assert!(bc_ur::URType::new("abc123").is_ok());
    assert!(bc_ur::URType::new("").is_err());
    assert!(bc_ur::URType::new("UPPER").is_err());
    assert!(bc_ur::URType::new("with space").is_err());
    assert_eq!(bc_ur::URType::new("tag").unwrap().string(), "tag");
}

#[test]
fn test_type_char_traits() {
    assert!('a'.is_ur_type());
    assert!('0'.is_ur_type());
    assert!('-'.is_ur_type());
    assert!(!'A'.is_ur_type());
    assert!(!' '.is_ur_type());
    assert!("crypto-seed".is_ur_type());
    assert!(!"crypto seed".is_ur_type());
    assert!("abc".to_string().is_ur_type());
}
