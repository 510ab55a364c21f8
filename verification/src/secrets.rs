//! Secrets: JSON documents of which one text field is wanted.
//!
//! Fetching a secret and keeping it for the life of the process is the
//! caller's business; what is decided here is what a fetched document yields.

use crate::decoder::text_field;
use crate::json::{json_of, parse, parsed_json, Json};
use vstd::prelude::*;
use vstd::string::StringExecFns;

verus! {

/// Why a secret did not yield the value asked for.
#[derive(Debug, Clone, Copy, PartialEq, Eq, Structural)]
pub enum SecretError {
    /// The secret is not a JSON text.
    NotJson,
    /// The document has no text under the key.
    KeyNotFound,
}

/// The text that tells why a secret did not yield the value under `key`.
pub open spec fn secret_error_message(error: SecretError, key: Seq<char>) -> Seq<char> {
    match error {
        SecretError::NotJson => "Failed to parse secret string as JSON"@,
        SecretError::KeyNotFound => "Key '"@ + key + "' not found in secret JSON"@,
    }
}

impl SecretError {
    /// The text that tells of this failure to read `key`; see
    /// [`secret_error_message`].
    pub fn message(&self, key: &str) -> (text: String)
        ensures
            text@ == secret_error_message(*self, key@),
    {
        match self {
            SecretError::NotJson => String::from_str("Failed to parse secret string as JSON"),
            SecretError::KeyNotFound => String::from_str("Key '").concat(key).concat(
                "' not found in secret JSON",
            ),
        }
    }
}

/// The text under `key` in a parsed secret document.
pub open spec fn value_in(document: Json, key: Seq<char>) -> Option<Seq<char>> {
    match document.member(key) {
        Some(Json::Text(value)) => Some(value),
        _ => None,
    }
}

/// The text under `key` in a secret document.
pub open spec fn secret_value_spec(secret: Seq<char>, key: Seq<char>) -> Result<
    Seq<char>,
    SecretError,
> {
    match parsed_json(secret) {
        Some(document) => match value_in(document, key) {
            Some(value) => Ok(value),
            None => Err(SecretError::KeyNotFound),
        },
        None => Err(SecretError::NotJson),
    }
}

/// The model of the outcome of reading a secret.
pub open spec fn secret_model(outcome: Result<String, SecretError>) -> Result<
    Seq<char>,
    SecretError,
> {
    match outcome {
        Ok(value) => Ok(value@),
        Err(e) => Err(e),
    }
}

/// Reads values out of secret documents.
#[derive(Debug, Clone, Copy, PartialEq, Eq, Structural)]
pub struct SecretsReader {}

impl SecretsReader {
    /// The reader; there is only one.
    pub fn new() -> (reader: Self)
        ensures
            reader == (SecretsReader {  }),
    {
        SecretsReader {  }
    }

    /// The text stored under `key` in the secret document `secret`.
    pub fn get_secret_value(&self, secret: &str, key: &str) -> (outcome: Result<
        String,
        SecretError,
    >)
        ensures
            secret_model(outcome) == secret_value_spec(secret@, key@),
    {
        let document = match parse(secret) {
            Some(document) => document,
            None => {
                return Err(SecretError::NotJson);
            },
        };
        match Self::value_in_document(&document, key) {
            Some(value) => Ok(value),
            None => Err(SecretError::KeyNotFound),
        }
    }

    /// The text stored under `key` in a parsed secret document.
    pub fn value_in_document(document: &serde_json::Value, key: &str) -> (value: Option<String>)
        ensures
            value.deep_view() == value_in(json_of(*document), key@),
    {
        text_field(document, key)
    }
}

} // verus!
