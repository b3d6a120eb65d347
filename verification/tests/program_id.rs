use base58::{FromBase58, ToBase58};
use shop_bridge::shop_solana_utils::{
    program_id_from_decoded, try_get_program_id, ProgramId, BASE58_TEXT_LIMIT,
};
use solana_sdk::pubkey::Pubkey;
use std::str::FromStr;

const SAMPLE: &str = "Fg6PaFpoGXkYsidMpWTK6W2BeZ7FEfcYkg476zPFsLnS";

#[test]
fn a_program_id_is_decoded_from_base_58() {
    let id = try_get_program_id(SAMPLE).unwrap();
    assert_eq!(id.0, Pubkey::from_str(SAMPLE).unwrap().to_bytes());
    assert_ne!(&id.0[..], &SAMPLE.as_bytes()[..32]);
}

#[test]
fn thirty_two_ones_are_thirty_two_zero_bytes() {
    let id = try_get_program_id("11111111111111111111111111111111").unwrap();
    assert_eq!(id, ProgramId([0u8; 32]));
}

#[test]
fn decoding_undoes_encoding() {
    let mut bytes = [0u8; 32];
    for (i, b) in bytes.iter_mut().enumerate() {
        *b = (i * 7 + 3) as u8;
    }
    let text = bytes.to_base58();
    assert_eq!(try_get_program_id(&text).unwrap().0, bytes);
}

#[test]
fn a_text_with_a_foreign_character_is_refused() {
    assert!(try_get_program_id("0g6PaFpoGXkYsidMpWTK6W2BeZ7FEfcYkg476zPFsLnS").is_err());
    assert!(try_get_program_id("Og6PaFpoGXkYsidMpWTK6W2BeZ7FEfcYkg476zPFsLnS").is_err());
    assert!(try_get_program_id("Fg6PaFpoGXkYsidMpWTK6W2BeZ7FEfcYkg476zPFsLn!").is_err());
    assert!(try_get_program_id("Fg6PaFpoGXkYsidMpWTK6W2BeZ7FEfcYkg476zPFsLn\u{e9}").is_err());
}

#[test]
fn a_text_that_decodes_to_another_length_is_refused() {
    assert!(try_get_program_id("").is_err());
    assert!(try_get_program_id("abc").is_err());
    assert!(try_get_program_id("1111111111111111111111111111111").is_err());
    assert!(try_get_program_id("111111111111111111111111111111111").is_err());
    let longer = [7u8; 33].to_base58();
    assert!(try_get_program_id(&longer).is_err());
}

#[test]
fn a_text_that_is_too_long_is_refused() {
    let at_the_limit = "1".repeat(BASE58_TEXT_LIMIT);
    assert!(try_get_program_id(&at_the_limit).is_err());
    let past_the_limit = "1".repeat(BASE58_TEXT_LIMIT + 1);
    assert!(try_get_program_id(&past_the_limit).is_err());
    let far_past = "z".repeat(5000);
    assert!(try_get_program_id(&far_past).is_err());
}

#[test]
fn a_refusal_carries_the_diagnostic_of_the_decoder() {
    let error = try_get_program_id("0").unwrap_err();
    assert!(error.0.contains("InvalidBase58Character"));
}

#[test]
fn decoded_bytes_become_a_program_id_when_there_are_thirty_two() {
    let id = program_id_from_decoded(Ok(vec![9u8; 32])).unwrap();
    assert_eq!(id.0, [9u8; 32]);
    assert!(program_id_from_decoded(Ok(vec![9u8; 31])).is_err());
    assert!(program_id_from_decoded(Ok(vec![9u8; 33])).is_err());
    assert!(program_id_from_decoded(Ok(Vec::new())).is_err());
    assert!(program_id_from_decoded("l".from_base58()).is_err());
    assert_eq!(program_id_from_decoded(SAMPLE.from_base58()).unwrap().0.len(), 32);
}
