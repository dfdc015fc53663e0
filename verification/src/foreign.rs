//! Declarations of the types of other crates and of the standard library that the
//! library's errors hold.
use vstd::prelude::*;
use reqwest::Error as HttpClientError;
use serde_json::Error as JsonError;

verus! {

/// `reqwest::Error`, the failure of an HTTP request; opaque to proofs.
#[verifier::external_type_specification]
#[verifier::external_body]
pub struct ExHttpClientError(HttpClientError);

/// `serde_json::Error`, the failure of reading or writing JSON; opaque to proofs.
#[verifier::external_type_specification]
#[verifier::external_body]
pub struct ExJsonError(JsonError);

/// `std::io::ErrorKind`, the kind of an I/O failure; opaque to proofs.
#[verifier::external_type_specification]
#[verifier::external_body]
pub struct ExIoErrorKind(std::io::ErrorKind);

/// `std::str::Utf8Error`, bytes that are not UTF-8; opaque to proofs.
#[verifier::external_type_specification]
#[verifier::external_body]
pub struct ExUtf8Error(std::str::Utf8Error);

} // verus!
