use bc_ur::Error;
use bc_ur::MultipartDecoder;
use bc_ur::MultipartEncoder;
use bc_ur::UR;
use dcbor::CBOR;

fn run_fountain_test(start_part: usize) -> usize {
    let message = "The only thing we have to fear is fear itself.";
    let cbor = CBOR::to_byte_string(message.as_bytes());
    let ur = UR::new("bytes", cbor).unwrap();

    let mut encoder = MultipartEncoder::new(&ur, 10).unwrap();
    let mut decoder = MultipartDecoder::new();
    for _ in 0..1000 {
        let part = encoder.next_part().unwrap();
        if encoder.current_index() >= start_part {
            decoder.receive(&part).unwrap();
        }
        if decoder.is_complete() {
            break;
        }
    }
    let received_ur = decoder.message().unwrap().unwrap();
    assert_eq!(received_ur, ur);
    encoder.current_index()
}

#[test]
fn test_fountain() {
    assert_eq!(run_fountain_test(1), 5);
    assert_eq!(run_fountain_test(51), 61);
    assert_eq!(run_fountain_test(101), 110);
    assert_eq!(run_fountain_test(501), 507);
}

#[test]
fn test_multipart_type_consistency() {
    let cbor_a = CBOR::to_byte_string("a longer message that spans several fragments".as_bytes());
    let ur_a = UR::new("typea", cbor_a).unwrap();
    let cbor_b = CBOR::to_byte_string("another message of a different kind entirely".as_bytes());
    let ur_b = UR::new("typeb", cbor_b).unwrap();
    let mut enc_a = MultipartEncoder::new(&ur_a, 10).unwrap();
    let mut enc_b = MultipartEncoder::new(&ur_b, 10).unwrap();
    let mut decoder = MultipartDecoder::new();
    let part_a = enc_a.next_part().unwrap();
    decoder.receive(&part_a).unwrap();
    let complete_before = decoder.is_complete();
    let part_b = enc_b.next_part().unwrap();
    let err = decoder.receive(&part_b).unwrap_err();
    match err {
        Error::UnexpectedType(expected, actual) => {
            assert_eq!(expected, "typea");
            assert_eq!(actual, "typeb");
        }
        _ => panic!("expected UnexpectedType"),
    }
    assert_eq!(decoder.is_complete(), complete_before);
    for _ in 0..1000 {
        if decoder.is_complete() {
            break;
        }
        let part = enc_a.next_part().unwrap();
        decoder.receive(&part).unwrap();
    }
    assert!(decoder.is_complete());
    let received = decoder.message().unwrap().unwrap();
    assert_eq!(received, ur_a);
}

#[test]
fn test_multipart_eventual_completion() {
    let cbor = CBOR::to_byte_string("Ten chars!Ten chars!Ten chars!Ten chars!".as_bytes());
    let ur = UR::new("bytes", cbor).unwrap();
    let mut encoder = MultipartEncoder::new(&ur, 5).unwrap();
    let n = encoder.parts_count();
    assert!(n > 1);
    let mut decoder = MultipartDecoder::new();
    let mut emitted: usize = 0;
    while !decoder.is_complete() {
        let part = encoder.next_part().unwrap();
        decoder.receive(&part).unwrap();
        emitted += 1;
        assert!(emitted <= 1000);
    }
    assert_eq!(decoder.message().unwrap().unwrap(), ur);
    assert!(emitted >= n);
}

#[test]
fn test_multipart_encoder_counters() {
    let cbor: CBOR = vec![1, 2, 3].into();
    let ur = UR::new("test", cbor).unwrap();
    let mut encoder = MultipartEncoder::new(&ur, 2).unwrap();
    assert_eq!(encoder.current_index(), 0);
    let count = encoder.parts_count();
    assert!(count >= 2);
    encoder.next_part().unwrap();
    assert_eq!(encoder.current_index(), 1);
    encoder.next_part().unwrap();
    assert_eq!(encoder.current_index(), 2);
    assert_eq!(encoder.parts_count(), count);
}

#[test]
fn test_multipart_encoder_zero_fragment_len() {
    let cbor: CBOR = vec![1, 2, 3].into();
    let ur = UR::new("test", cbor).unwrap();
    let err = match MultipartEncoder::new(&ur, 0) {
        Ok(_) => panic!("expected an error"),
        Err(e) => e,
    };
    assert!(matches!(err, Error::UR(_)));
}

#[test]
fn test_not_single_part() {
    let cbor = CBOR::to_byte_string("some payload that needs splitting".as_bytes());
    let ur = UR::new("bytes", cbor).unwrap();
    let mut encoder = MultipartEncoder::new(&ur, 5).unwrap();
    let part = encoder.next_part().unwrap();
    let err = UR::from_ur_string(&part).unwrap_err();
    assert!(matches!(err, Error::NotSinglePart));
}

#[test]
fn test_multipart_receive_single_part_fragment() {
    let mut decoder = MultipartDecoder::new();
    let err = decoder.receive("ur:test/lsadaoaxjygonesw").unwrap_err();
    assert!(matches!(err, Error::UR(_)));
    assert!(!decoder.is_complete());
}

#[test]
fn test_multipart_decoder_empty() {
    let decoder = MultipartDecoder::new();
    assert!(!decoder.is_complete());
    assert!(decoder.message().unwrap().is_none());
    let decoder = MultipartDecoder::default();
    assert!(!decoder.is_complete());
}

#[test]
fn test_multipart_decoder_bad_fragment() {
    let mut decoder = MultipartDecoder::new();
    let err = decoder.receive("nope:typea/1-2/abc").unwrap_err();
    assert!(matches!(err, Error::InvalidScheme));
    let err = decoder.receive("UR:TYPEA/1-2/ABC").unwrap_err();
    assert!(matches!(err, Error::InvalidScheme));
    let err = decoder.receive("ur:TYPEA/1-2/abc").unwrap_err();
    assert!(matches!(err, Error::InvalidType));
    assert!(!decoder.is_complete());
}
