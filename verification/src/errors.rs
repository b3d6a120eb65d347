//! The single error representation shared by every fallible operation.
//!
//! An error carries an internal diagnostic text meant for logs only. What a
//! caller outside the process gets to see is one fixed sentence, whatever the
//! diagnostic says.

use std::fmt::Debug;
use vstd::prelude::*;
use vstd::string::StringExecFns;

verus! {

/// Why a configuration record cannot be turned into a program handle.
///
/// Each variant carries the diagnostic text of the underlying failure.
#[derive(Debug, Clone, PartialEq, Eq)]
pub enum ConfigError {
    /// The program identifier is not the base-58 text of 32 bytes.
    BadProgramId(String),
    /// The stored payer bytes are not a key pair.
    BadKeyMaterial(String),
}

/// The uniform error: a wrapper around the internal diagnostic text.
#[derive(Debug, Clone, PartialEq, Eq)]
pub struct ShopCustomError(pub String);

impl View for ShopCustomError {
    type V = Seq<char>;

    /// The internal diagnostic text.
    open spec fn view(&self) -> Seq<char> {
        self.0@
    }
}

/// The one sentence shown to callers outside the process.
pub open spec fn generic_message() -> Seq<char> {
    "an internal error occurred, please try again later"@
}

/// The pretty debug rendering that `format!("{:#?}", e)` of std produces.
/// Nothing is claimed of the text.
#[verifier::external_body]
pub(crate) fn debug_text<E: Debug>(e: &E) -> String {
    format!("{e:#?}")
}

impl ShopCustomError {
    /// Wraps the debug rendering of `e` as the diagnostic text.
    pub fn get_custom_error<E: Debug>(e: E) -> (err: Self) {
        ShopCustomError(debug_text(&e))
    }

    /// Same as [`ShopCustomError::get_custom_error`], under its older name.
    #[allow(non_snake_case)]
    pub fn getCustomError<E: Debug>(e: E) -> (err: ShopCustomError) {
        ShopCustomError::get_custom_error(e)
    }

    /// Wraps a diagnostic text that is already at hand.
    pub fn from_detail(detail: String) -> (err: Self)
        ensures
            err@ == detail@,
    {
        ShopCustomError(detail)
    }

    /// The internal form, for logs.
    pub fn log_message(&self) -> (text: &String)
        ensures
            text@ == self@,
    {
        &self.0
    }

    /// The external form: always the generic sentence, never the diagnostic.
    pub fn user_message(&self) -> (text: String)
        ensures
            text@ == generic_message(),
    {
        String::from_str("an internal error occurred, please try again later")
    }
}

} // verus!
