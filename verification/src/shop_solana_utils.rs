//! Signing keys and program identifiers.
//!
//! A signing key is 64 bytes that the Solana SDK accepts as a key pair. A
//! program identifier is the 32 bytes behind a base-58 text. Both are kept
//! here as plain bytes; whether bytes are a key pair, and what a base-58 text
//! decodes to, is asked of the outside crates.

use crate::errors::{debug_text, ShopCustomError};
use crate::key_text::{byte_list_of_text, parse_byte_list};
use base58::{FromBase58, FromBase58Error};
use solana_sdk::pubkey::Pubkey;
use solana_sdk::signature::Keypair;
use vstd::array::ArrayAdditionalExecFns;
use vstd::prelude::*;
use vstd::string::{StringExecFns, StringSliceAdditionalSpecFns};
use vstd::utf8::encode_utf8;

verus! {

/// The error of the base-58 decoder.
#[verifier::external_type_specification]
#[verifier::external_body]
pub struct ExFromBase58Error(FromBase58Error);

/// Whether `Keypair::from_bytes` of the Solana SDK accepts the bytes.
pub uninterp spec fn is_key_pair(bytes: Seq<u8>) -> bool;

/// What `from_base58` of the `base58` crate decodes the text to, `None`
/// where it reports an error.
pub uninterp spec fn base58_decoded(text: Seq<char>) -> Option<Seq<u8>>;

/// The longest text, in bytes, that is handed to the base-58 decoder.
pub const BASE58_TEXT_LIMIT: usize = 132;

/// Calls `solana_sdk::signature::Keypair::from_bytes` and drops the key pair.
///
/// Trusted: the call succeeds exactly on the bytes that `is_key_pair` names,
/// and only on 64 of them. The SDK refuses fewer than 64 bytes itself, and
/// the public half has to be exactly 32 bytes long. An error comes back as
/// its debug text.
#[verifier::external_body]
fn check_key_pair_bytes(bytes: &[u8]) -> (verdict: Result<(), String>)
    ensures
        verdict is Ok <==> is_key_pair(bytes@),
        verdict is Ok ==> bytes@.len() == 64,
{
    match Keypair::from_bytes(bytes) {
        Ok(_) => Ok(()),
        Err(e) => Err(format!("{e:#?}")),
    }
}

/// Calls `Keypair::new` of the Solana SDK, which draws a key pair from the
/// operating system's random source, and `Keypair::to_bytes` on it.
///
/// Trusted: the bytes of a generated key pair are bytes that
/// `Keypair::from_bytes` accepts: the public half is the compressed point
/// derived from the secret half. Which bytes come back is not stated.
#[verifier::external_body]
fn fresh_key_pair_bytes() -> (bytes: [u8; 64])
    ensures
        is_key_pair(bytes@),
{
    Keypair::new().to_bytes()
}

/// Calls `from_base58` of the `base58` crate on a `str`.
///
/// Trusted: the result is what `base58_decoded` names. The decoder works in
/// a buffer of 132 bytes and fails an index past it on longer runs of `1`,
/// so longer texts are kept away from it.
#[verifier::external_body]
fn decode_base58(text: &str) -> (decoded: Result<Vec<u8>, FromBase58Error>)
    requires
        text.spec_bytes().len() <= BASE58_TEXT_LIMIT,
    ensures
        decoded is Ok <==> base58_decoded(text@) is Some,
        decoded matches Ok(bytes) ==> base58_decoded(text@) == Some(bytes@),
{
    text.from_base58()
}

/// Calls `Pubkey::new` of the Solana SDK and `Pubkey::to_bytes` on the
/// result.
///
/// Trusted: a public key made of 32 bytes holds those bytes. `Pubkey::new`
/// panics on any other length.
#[verifier::external_body]
#[allow(deprecated)]
fn pubkey_bytes(decoded: &[u8]) -> (bytes: [u8; 32])
    requires
        decoded@.len() == 32,
    ensures
        bytes@ == decoded@,
{
    Pubkey::new(decoded).to_bytes()
}

/// A key pair: 32 secret bytes followed by the 32 bytes of the public key.
#[derive(Debug)]
pub struct SigningKey {
    bytes: [u8; 64],
}

impl View for SigningKey {
    type V = Seq<u8>;

    closed spec fn view(&self) -> Seq<u8> {
        self.bytes@
    }
}

impl Clone for SigningKey {
    fn clone(&self) -> (copy: Self)
        ensures
            copy@ == self@,
    {
        proof {
            use_type_invariant(self);
        }
        SigningKey { bytes: self.bytes }
    }
}

impl SigningKey {
    #[verifier::type_invariant]
    spec fn accepted(self) -> bool {
        is_key_pair(self.bytes@)
    }

    /// The 64 bytes of the key pair.
    pub fn to_bytes(&self) -> (bytes: [u8; 64])
        ensures
            bytes@ == self@,
            is_key_pair(bytes@),
    {
        proof {
            use_type_invariant(self);
        }
        self.bytes
    }
}

/// The 32 bytes that name a program on the ledger.
#[derive(Clone, Copy, Debug, PartialEq, Eq)]
pub struct ProgramId(pub [u8; 32]);

impl View for ProgramId {
    type V = Seq<u8>;

    open spec fn view(&self) -> Seq<u8> {
        self.0@
    }
}

fn copy_of_64(bytes: &[u8]) -> (copy: [u8; 64])
    requires
        bytes@.len() == 64,
    ensures
        copy@ == bytes@,
{
    let mut copy = [0u8;64];
    let mut i: usize = 0;
    while i < 64
        invariant
            i <= 64,
            bytes@.len() == 64,
            forall|j: int| 0 <= j < i ==> copy@[j] == bytes@[j],
        decreases 64 - i,
    {
        copy.set(i, bytes[i]);
        i += 1;
    }
    assert(copy@ =~= bytes@);
    copy
}

/// Rebuilds a signing key from raw bytes.
///
/// Succeeds exactly on the bytes that the SDK accepts as a key pair, and the
/// key then holds those bytes. A refusal gives an error that carries the
/// SDK's diagnostic.
pub fn keypair_from_bytes(key_pair_bytes: &[u8]) -> (key: Result<SigningKey, ShopCustomError>)
    ensures
        key is Ok <==> is_key_pair(key_pair_bytes@),
        key matches Ok(k) ==> k@ == key_pair_bytes@,
{
    match check_key_pair_bytes(key_pair_bytes) {
        Ok(_) => Ok(SigningKey { bytes: copy_of_64(key_pair_bytes) }),
        Err(detail) => Err(ShopCustomError::from_detail(detail)),
    }
}

/// The key pair that a comma-separated text of byte values spells out, where
/// it spells one.
pub open spec fn key_pair_of_text(text: Seq<u8>) -> Option<Seq<u8>> {
    match byte_list_of_text(text) {
        Some(bytes) => if is_key_pair(bytes) {
            Some(bytes)
        } else {
            None
        },
        None => None,
    }
}

/// Reads a signing key from a comma-separated text of byte values.
///
/// Fails where the text is not such a list, and where the SDK does not accept
/// the listed bytes as a key pair.
pub fn try_parse_key_pair(key_pair_string: &str) -> (key: Result<SigningKey, ShopCustomError>)
    ensures
        key is Ok <==> key_pair_of_text(key_pair_string.spec_bytes()) is Some,
        key matches Ok(k) ==> key_pair_of_text(key_pair_string.spec_bytes()) == Some(k@),
{
    match parse_byte_list(key_pair_string.as_bytes()) {
        Some(listed) => keypair_from_bytes(listed.as_slice()),
        None => Err(
            ShopCustomError::from_detail(
                String::from_str("the key pair is not a comma-separated list of byte values"),
            ),
        ),
    }
}

/// A key pair drawn at random.
pub fn get_random_key_pair() -> (key: SigningKey)
    ensures
        is_key_pair(key@),
{
    SigningKey { bytes: fresh_key_pair_bytes() }
}

/// The key pair that an optional secret supplies, where it supplies one.
pub open spec fn supplied_key_pair(secret: Option<&str>) -> Option<Seq<u8>> {
    match secret {
        Some(text) => key_pair_of_text(text.spec_bytes()),
        None => None,
    }
}

/// Turns an optional secret into the bytes of a key pair and never fails.
///
/// A secret that spells out a key pair gives exactly that key pair. A
/// missing secret, and one that does not parse or is refused by the SDK,
/// gives a key pair drawn at random.
pub fn get_key_pair_bytes_from_env_string_return_random_if_no_key_string_found(
    optional_string_key_pair: Option<&str>,
) -> (bytes: [u8; 64])
    ensures
        is_key_pair(bytes@),
        supplied_key_pair(optional_string_key_pair) matches Some(supplied) ==> bytes@ == supplied,
{
    match optional_string_key_pair {
        Some(key_pair_string) => match try_parse_key_pair(key_pair_string) {
            Ok(key_pair) => key_pair.to_bytes(),
            Err(_) => get_random_key_pair().to_bytes(),
        },
        None => get_random_key_pair().to_bytes(),
    }
}

/// The program identifier that a text stands for: what the text decodes to
/// from base 58, where that is 32 bytes. A text of more than
/// `BASE58_TEXT_LIMIT` bytes stands for none.
pub open spec fn program_id_of_text(text: Seq<char>) -> Option<Seq<u8>> {
    if encode_utf8(text).len() <= BASE58_TEXT_LIMIT {
        program_id_of_decoded(base58_decoded(text))
    } else {
        None
    }
}

/// The program identifier in decoded bytes: the bytes, where there are 32.
pub open spec fn program_id_of_decoded(decoded: Option<Seq<u8>>) -> Option<Seq<u8>> {
    match decoded {
        Some(bytes) => if bytes.len() == 32 {
            Some(bytes)
        } else {
            None
        },
        None => None,
    }
}

/// What a finished decoding came to, as a mathematical value.
pub open spec fn decoding_view(decoded: Result<Vec<u8>, FromBase58Error>) -> Option<Seq<u8>> {
    match decoded {
        Ok(bytes) => Some(bytes@),
        Err(_) => None,
    }
}

/// Makes a program identifier of what the base-58 decoder returned.
///
/// Succeeds exactly where the decoder did and gave 32 bytes; the identifier
/// is then those bytes.
pub fn program_id_from_decoded(decoded: Result<Vec<u8>, FromBase58Error>) -> (id: Result<
    ProgramId,
    ShopCustomError,
>)
    ensures
        id is Ok <==> program_id_of_decoded(decoding_view(decoded)) is Some,
        id matches Ok(found) ==> program_id_of_decoded(decoding_view(decoded)) == Some(found@),
{
    match decoded {
        Ok(bytes) => {
            if bytes.len() == 32 {
                Ok(ProgramId(pubkey_bytes(bytes.as_slice())))
            } else {
                Err(
                    ShopCustomError::from_detail(
                        String::from_str("a program id is 32 bytes long"),
                    ),
                )
            }
        },
        Err(e) => Err(ShopCustomError::from_detail(debug_text(&e))),
    }
}

/// Decodes a program identifier from its base-58 text.
pub fn try_get_program_id(program_id_as_base_58: &str) -> (id: Result<ProgramId, ShopCustomError>)
    ensures
        id is Ok <==> program_id_of_text(program_id_as_base_58@) is Some,
        id matches Ok(found) ==> program_id_of_text(program_id_as_base_58@) == Some(found@),
{
    if program_id_as_base_58.as_bytes().len() > BASE58_TEXT_LIMIT {
        return Err(
            ShopCustomError::from_detail(String::from_str("the program id is too long")),
        );
    }
    program_id_from_decoded(decode_base58(program_id_as_base_58))
}

} // verus!
