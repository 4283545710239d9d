use bc_ur::Error;
use bc_ur::URCodable;
use bc_ur::URDecodable;
use bc_ur::UREncodable;
use bc_ur::URTagged;
use dcbor::CBOR;

#[derive(Debug)]
struct Test {
    s: String,
}

impl Test {
    fn new(s: &str) -> Self {
        Self { s: s.to_string() }
    }
}

impl URTagged for Test {
    fn ur_tag_name() -> String {
        "leaf".to_string()
    }
}

impl UREncodable for Test {
    fn untagged_cbor(&self) -> CBOR {
        self.s.clone().into()
    }
}

impl URDecodable for Test {
    fn from_untagged_cbor(cbor: CBOR) -> Result<Self, Error> {
        let s: String = cbor
            .try_into()
            .map_err(|e: dcbor::Error| Error::Cbor(format!("{e}")))?;
        Ok(Self::new(&s))
    }
}

struct Bad;

impl URTagged for Bad {
    fn ur_tag_name() -> String {
        "Not Valid!".to_string()
    }
}

impl UREncodable for Bad {
    fn untagged_cbor(&self) -> CBOR {
        "x".to_string().into()
    }
}

fn assert_codable<T: URCodable>() {}

#[test]
fn test_ur_codable() {
    assert_codable::<Test>();
    let test = Test::new("test");
    let ur = test.ur().unwrap();
    let ur_string = ur.string();
    assert_eq!(ur_string, "ur:leaf/iejyihjkjygupyltla");
    let test2 = Test::from_ur_string(&ur_string).unwrap();
    assert_eq!(test.s, test2.s);
}

#[test]
fn test_capability_round_trip() {
    for value in ["", "a", "hello world", "Fear itself"] {
        let v = Test::new(value);
        let s = v.ur_string().unwrap();
        let back = Test::from_ur_string(&s).unwrap();
        assert_eq!(v.s, back.s);
    }
}

#[test]
fn test_capability_wrong_type() {
    let cbor: CBOR = "test".to_string().into();
    let ur = bc_ur::UR::new("other", cbor).unwrap();
    let err = Test::from_ur(&ur).unwrap_err();
    assert!(matches!(err, Error::UnexpectedType(_, _)));
}

#[test]
fn test_capability_invalid_tag_name() {
    let err = Bad.ur().unwrap_err();
    assert!(matches!(err, Error::InvalidType));
    let err = Bad.ur_string().unwrap_err();
    assert!(matches!(err, Error::InvalidType));
}
