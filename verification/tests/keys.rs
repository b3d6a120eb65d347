use shop_bridge::shop_solana_utils::{
    get_key_pair_bytes_from_env_string_return_random_if_no_key_string_found, get_random_key_pair,
    keypair_from_bytes, try_parse_key_pair,
};
use solana_sdk::signature::Keypair;

fn text_of(bytes: &[u8]) -> String {
    let pieces: Vec<String> = bytes.iter().map(|b| format!("{}", b)).collect();
    pieces.join(",")
}

#[test]
fn a_generated_key_pair_is_rebuilt_from_its_bytes() {
    let bytes = Keypair::new().to_bytes();
    let key = keypair_from_bytes(&bytes).unwrap();
    assert_eq!(key.to_bytes(), bytes);
    assert_eq!(key.clone().to_bytes(), bytes);
}

#[test]
fn bytes_of_the_wrong_length_are_refused() {
    let bytes = Keypair::new().to_bytes();
    assert!(keypair_from_bytes(&bytes[..63]).is_err());
    assert!(keypair_from_bytes(&bytes[..32]).is_err());
    assert!(keypair_from_bytes(&[]).is_err());
    let mut longer = bytes.to_vec();
    longer.push(0);
    assert!(keypair_from_bytes(&longer).is_err());
}

#[test]
fn a_public_half_that_does_not_belong_to_the_secret_half_is_refused() {
    let a = Keypair::new().to_bytes();
    let b = Keypair::new().to_bytes();
    let mut mixed = [0u8; 64];
    mixed[..32].copy_from_slice(&a[..32]);
    mixed[32..].copy_from_slice(&b[32..]);
    assert!(keypair_from_bytes(&mixed).is_err());
    assert!(keypair_from_bytes(&[0u8; 64]).is_err());
}

#[test]
fn a_refusal_carries_a_diagnostic() {
    let error = keypair_from_bytes(&[1, 2, 3]).unwrap_err();
    assert!(!error.0.is_empty());
    assert_eq!(error.user_message(), "an internal error occurred, please try again later");
}

#[test]
fn a_random_key_pair_is_a_key_pair() {
    let key = get_random_key_pair();
    let bytes = key.to_bytes();
    let rebuilt = Keypair::from_bytes(&bytes).unwrap();
    assert_eq!(rebuilt.to_bytes(), bytes);
}

#[test]
fn two_random_key_pairs_differ() {
    assert_ne!(get_random_key_pair().to_bytes(), get_random_key_pair().to_bytes());
}

#[test]
fn a_key_pair_is_read_from_its_text() {
    let bytes = Keypair::new().to_bytes();
    let key = try_parse_key_pair(&text_of(&bytes)).unwrap();
    assert_eq!(key.to_bytes(), bytes);
}

#[test]
fn a_text_that_is_no_list_or_no_key_pair_is_refused() {
    let bytes = Keypair::new().to_bytes();
    assert!(try_parse_key_pair("").is_err());
    assert!(try_parse_key_pair("not a key").is_err());
    assert!(try_parse_key_pair("1,2,3").is_err());
    assert!(try_parse_key_pair(&text_of(&bytes[..63])).is_err());
    assert!(try_parse_key_pair(&text_of(&[0u8; 64])).is_err());
    let with_blank = text_of(&bytes).replace(",", ", ");
    assert!(try_parse_key_pair(&with_blank).is_err());
    let too_big = format!("{},256", text_of(&bytes[..63]));
    assert!(try_parse_key_pair(&too_big).is_err());
}

#[test]
fn a_supplied_key_pair_is_used_as_it_is() {
    let bytes = Keypair::new().to_bytes();
    let text = text_of(&bytes);
    let resolved =
        get_key_pair_bytes_from_env_string_return_random_if_no_key_string_found(Some(&text));
    assert_eq!(resolved, bytes);
}

#[test]
fn a_missing_secret_gives_a_fresh_key_pair() {
    let first = get_key_pair_bytes_from_env_string_return_random_if_no_key_string_found(None);
    let second = get_key_pair_bytes_from_env_string_return_random_if_no_key_string_found(None);
    assert!(Keypair::from_bytes(&first).is_ok());
    assert!(Keypair::from_bytes(&second).is_ok());
    assert_ne!(first, second);
}

#[test]
fn a_malformed_secret_gives_a_fresh_key_pair() {
    let bytes = Keypair::new().to_bytes();
    let samples = [
        String::new(),
        "garbage".to_string(),
        "1,2,3".to_string(),
        text_of(&bytes[..63]),
        text_of(&[0u8; 64]),
        format!("{},", text_of(&bytes)),
        format!("{},7", text_of(&bytes)),
        text_of(&bytes).replace(",", ";"),
    ];
    for text in samples.iter() {
        let resolved =
            get_key_pair_bytes_from_env_string_return_random_if_no_key_string_found(Some(text));
        assert!(Keypair::from_bytes(&resolved).is_ok(), "on {:?}", text);
        assert_ne!(resolved, bytes);
    }
}
