use ftnet::keys::{
    public_key_from_decoded, Base32Error, Base32ErrorKind, id52_to_public_key, public_key_to_id52, remote_id52, secret_key_from_stored, Id52Error, PublicKey,
    SecretKey, StoredSecretError,
};

const ZERO_SEED_PUBLIC_HEX: &str =
    "3b6a27bcceb6a42d62a3a8d02a6f0d73653215771de243a63ac048a18b59da29";
const ZERO_SEED_ID52: &str = "7dl2ff6emqi2qol3l382krodedij45bn3nh479hqo14a32qpr8kg";

fn zero_seed_public() -> PublicKey {
    SecretKey::from_bytes([0u8; 32]).public()
}

#[test]
fn public_key_of_zero_seed_is_known() {
    assert_eq!(zero_seed_public().to_hex(), ZERO_SEED_PUBLIC_HEX);
}

#[test]
fn id52_of_zero_seed_key_is_known() {
    let id = public_key_to_id52(&zero_seed_public());
    assert_eq!(id, ZERO_SEED_ID52);
    assert_eq!(id.len(), 52);
}

#[test]
fn id52_round_trip_gives_key_back() {
    for seed in 0u8..16 {
        let key = SecretKey::from_bytes([seed; 32]).public();
        let id = public_key_to_id52(&key);
        let back = id52_to_public_key(&id).expect("an id52 names its key");
        assert_eq!(back.as_bytes(), key.as_bytes());
    }
}

#[test]
fn id52_is_read_case_insensitively() {
    let upper = ZERO_SEED_ID52.to_uppercase();
    let key = id52_to_public_key(&upper).expect("upper case id52");
    assert_eq!(key.as_bytes(), zero_seed_public().as_bytes());
}

#[test]
fn id52_with_invalid_symbol_is_a_decode_error() {
    let mut bad = String::from(ZERO_SEED_ID52);
    bad.replace_range(0..1, "!");
    let err = id52_to_public_key(&bad).err().unwrap();
    assert_eq!(
        err,
        Id52Error::Decode(Base32Error { kind: Base32ErrorKind::Symbol, position: 0 })
    );
    assert_eq!(err.message(), "invalid symbol at 0");
}

#[test]
fn id52_with_impossible_length_is_a_decode_error() {
    let err = id52_to_public_key("0").err().unwrap();
    assert_eq!(
        err,
        Id52Error::Decode(Base32Error { kind: Base32ErrorKind::Length, position: 0 })
    );
    assert_eq!(err.message(), "invalid length at 0");
}

#[test]
fn id52_with_trailing_bits_is_a_decode_error() {
    let err = id52_to_public_key("01").err().unwrap();
    assert_eq!(
        err,
        Id52Error::Decode(Base32Error { kind: Base32ErrorKind::Trailing, position: 1 })
    );
    assert_eq!(err.message(), "non-zero trailing bits at 1");
}

#[test]
fn id52_error_messages() {
    assert_eq!(id52_to_public_key("").err().unwrap().message(), "read: id has invalid length: 0");
    assert_eq!(
        id52_to_public_key("d1imor3f").err().unwrap().message(),
        "read: id has invalid length: 5"
    );
    assert_eq!(Id52Error::InvalidKey.message(), "failed to parse id to public key");
    assert_eq!(
        Base32Error { kind: Base32ErrorKind::Padding, position: 12 }.message(),
        "invalid padding length at 12"
    );
}

#[test]
fn decoded_bytes_become_key() {
    let bytes = zero_seed_public().as_bytes();
    let key = public_key_from_decoded(Ok(bytes.to_vec())).unwrap();
    assert_eq!(key.as_bytes(), bytes);
}

#[test]
fn decoded_outcomes_that_name_no_key() {
    let e = Base32Error { kind: Base32ErrorKind::Symbol, position: 3 };
    assert_eq!(public_key_from_decoded(Err(e)).err(), Some(Id52Error::Decode(e)));
    assert_eq!(public_key_from_decoded(Ok(vec![0u8; 31])).err(), Some(Id52Error::InvalidLength(31)));
    assert_eq!(public_key_from_decoded(Ok(Vec::new())).err(), Some(Id52Error::InvalidLength(0)));
    let not_point = (0u8..=255)
        .map(|b| [b; 32])
        .find(|bytes| PublicKey::from_bytes(*bytes).is_none())
        .unwrap();
    assert_eq!(public_key_from_decoded(Ok(not_point.to_vec())).err(), Some(Id52Error::InvalidKey));
}

#[test]
fn id52_of_wrong_byte_count_is_a_length_error() {
    assert!(matches!(id52_to_public_key("d1imor3f"), Err(Id52Error::InvalidLength(5))));
    assert!(matches!(id52_to_public_key("04106"), Err(Id52Error::InvalidLength(3))));
    assert!(matches!(id52_to_public_key(""), Err(Id52Error::InvalidLength(0))));
}

#[test]
fn id52_of_non_point_is_a_key_error() {
    let not_point = (0u8..=255)
        .map(|b| [b; 32])
        .find(|bytes| PublicKey::from_bytes(*bytes).is_none())
        .expect("some repeated byte is no curve point");
    let id = data_encoding::BASE32_DNSSEC.encode(&not_point);
    assert!(matches!(id52_to_public_key(&id), Err(Id52Error::InvalidKey)));
}

#[test]
fn public_key_from_bytes_keeps_bytes() {
    let bytes = zero_seed_public().as_bytes();
    let key = PublicKey::from_bytes(bytes).expect("a public key's bytes are a point");
    assert_eq!(key.as_bytes(), bytes);
}

#[test]
fn stored_secret_of_32_bytes_is_the_key() {
    let key = secret_key_from_stored(vec![7u8; 32]).expect("32 bytes");
    assert_eq!(key.to_bytes(), [7u8; 32]);
}

#[test]
fn stored_secret_round_trip() {
    let key = SecretKey::from_bytes([42u8; 32]);
    let back = secret_key_from_stored(key.to_bytes().to_vec()).unwrap();
    assert!(back == key);
    assert_eq!(back.public().as_bytes(), key.public().as_bytes());
}

#[test]
fn stored_secret_of_wrong_length_is_refused() {
    assert_eq!(
        secret_key_from_stored(vec![1u8; 31]).err(),
        Some(StoredSecretError::InvalidLength(31))
    );
    assert_eq!(
        secret_key_from_stored(Vec::new()).err(),
        Some(StoredSecretError::InvalidLength(0))
    );
    assert_eq!(
        secret_key_from_stored(vec![1u8; 33]).err(),
        Some(StoredSecretError::InvalidLength(33))
    );
}

#[test]
fn remote_id52_of_known_peer() {
    assert_eq!(remote_id52(Ok(zero_seed_public())), Ok(ZERO_SEED_ID52.to_string()));
}

#[test]
fn remote_id52_of_unreadable_peer_is_error() {
    assert_eq!(
        remote_id52(Err("no handshake".to_string())),
        Err("could not read remote node id: no handshake".to_string())
    );
}

#[test]
fn id52_read_in_either_case_names_same_key() {
    for seed in 0u8..8 {
        let id = public_key_to_id52(&SecretKey::from_bytes([seed; 32]).public());
        let mixed: String = id
            .chars()
            .enumerate()
            .map(|(i, c)| if i % 2 == 0 { c.to_ascii_uppercase() } else { c })
            .collect();
        let a = id52_to_public_key(&mixed).map(|k| k.as_bytes()).ok();
        let b = id52_to_public_key(&mixed.to_ascii_lowercase()).map(|k| k.as_bytes()).ok();
        assert_eq!(a, b);
        assert!(a.is_some());
    }
    let bad = "D1IMOR3F";
    assert_eq!(
        id52_to_public_key(bad).err(),
        id52_to_public_key(&bad.to_ascii_lowercase()).err()
    );
}

#[test]
fn writing_back_a_read_id52_gives_it_in_lower_case() {
    let upper = ZERO_SEED_ID52.to_uppercase();
    let key = id52_to_public_key(&upper).ok().unwrap();
    assert_eq!(public_key_to_id52(&key), upper.to_ascii_lowercase());
}
