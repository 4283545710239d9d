use bc_ur::Error;
use bc_ur::bytewords::BYTEMOJIS;
use bc_ur::bytewords::BYTEWORDS;
use bc_ur::bytewords::Style;
use bc_ur::bytewords::bytemoji_identifier;
use bc_ur::bytewords::identifier;

#[test]
fn test_bytemoji_uniqueness() {
    let bytemojis = BYTEMOJIS.to_vec();
    let mut dict = std::collections::HashMap::new();
    for bytemoji in bytemojis.iter() {
        let count = dict.entry(bytemoji).or_insert(0);
        *count += 1;
    }
    let duplicates: Vec<_> = dict.iter().filter(|(_, v)| *v > &1).collect();
    assert!(duplicates.is_empty(), "Duplicates: {:?}", duplicates);
}

#[test]
fn test_bytemoji_lengths() {
    let mut over_length = Vec::new();
    for &bytemoji in BYTEMOJIS.iter() {
        let len = bytemoji.len();
        if len > 4 {
            over_length.push((bytemoji, len));
        }
    }
    for (bytemoji, len) in over_length.iter() {
        println!("{}  : {},", bytemoji, len);
    }
    assert!(over_length.is_empty(), "Some bytemojis are over 4 bytes");
}

#[test]
fn test_byteword_uniqueness() {
    let mut dict = std::collections::HashMap::new();
    for word in BYTEWORDS.iter() {
        let count = dict.entry(word).or_insert(0);
        *count += 1;
    }
    let duplicates: Vec<_> = dict.iter().filter(|(_, v)| *v > &1).collect();
    assert!(duplicates.is_empty(), "Duplicates: {:?}", duplicates);
}

#[test]
fn test_bytewords_encode_styles() {
    let input: Vec<u8> = vec![0];
    assert_eq!(
        bc_ur::bytewords::encode(&input, Style::Standard),
        "able tied also webs lung"
    );
    assert_eq!(
        bc_ur::bytewords::encode(&input, Style::Uri),
        "able-tied-also-webs-lung"
    );
    assert_eq!(bc_ur::bytewords::encode(&input, Style::Minimal), "aetdaowslg");
}

#[test]
fn test_bytewords_round_trip() {
    let input: Vec<u8> = vec![0, 1, 2, 128, 255];
    for style in [Style::Standard, Style::Uri, Style::Minimal] {
        let encoded = bc_ur::bytewords::encode(&input, style);
        let decoded = bc_ur::bytewords::decode(&encoded, style).unwrap();
        assert_eq!(decoded, input);
    }
}

#[test]
fn test_bytewords_decode_error() {
    let err = bc_ur::bytewords::decode("x", Style::Minimal).unwrap_err();
    assert!(matches!(err, Error::Bytewords(_)));
    let err = bc_ur::bytewords::decode("axxe tied also webs lung", Style::Standard).unwrap_err();
    assert!(matches!(err, Error::Bytewords(_)));
}

#[test]
fn test_identifier_values() {
    let id = identifier(&[1, 2, 3, 4]);
    assert_eq!(id, "acid also apex aqua");
    assert_eq!(identifier(&[1, 2, 3, 4]), id);
    assert_eq!(identifier(&[0, 0, 0, 0]), "able able able able");
    assert_eq!(identifier(&[255, 255, 255, 255]), "zoom zoom zoom zoom");
}

#[test]
fn test_bytemoji_identifier_values() {
    let id = bytemoji_identifier(&[0, 1, 2, 3]);
    assert_eq!(id, "\u{1F600} \u{1F602} \u{1F606} \u{1F609}");
    assert_eq!(bytemoji_identifier(&[0, 1, 2, 3]), id);
}
