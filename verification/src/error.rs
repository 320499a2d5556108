//! Everything a login attempt can fail with.

use crate::text::{join, joined, views};
use aws_credential_types::provider::error::CredentialsError;
use hyper::Error as HttpError;
use serde_json::Error as JsonError;
use std::io::Error as IoError;
use vstd::prelude::*;
use vstd::std_specs::convert::FromSpecImpl;
use vstd::string::{to_string_from_display_ensures, StringExecFns};

verus! {

/// `aws_credential_types::provider::error::CredentialsError`: the credential
/// chain's own error. It is carried through unopened.
#[verifier::external_type_specification]
#[verifier::external_body]
pub struct ExCredentialsError(CredentialsError);

/// `std::io::Error`, which `tokio` reports a failed connection with. It is
/// carried through unopened.
#[verifier::external_type_specification]
#[verifier::external_body]
pub struct ExIoError(IoError);

/// `hyper::Error`: the HTTP client's error. It is carried through unopened.
#[verifier::external_type_specification]
#[verifier::external_body]
pub struct ExHttpError(HttpError);

/// `serde_json::Error`: the JSON decoder's error. It is carried through
/// unopened.
#[verifier::external_type_specification]
#[verifier::external_body]
pub struct ExJsonError(JsonError);

/// The reasons Vault gave for turning a login down, in the order it gave them.
#[derive(Debug)]
pub struct VaultError {
    pub errors: Vec<String>,
}

/// What is wrong with parameters that cannot be acted on.
#[derive(Debug, Clone, Copy, PartialEq, Eq)]
pub enum InvalidParameters {
    /// The role is empty.
    EmptyRole,
    /// The Vault address is not an absolute URL with a host.
    AddressNotAbsolute,
}

/// Why a login attempt failed.
#[derive(Debug)]
pub enum Error {
    /// The parameters are malformed; nothing was attempted.
    InvalidParameters(InvalidParameters),
    /// No usable credentials: the chain failed, or what it gave cannot sign.
    CredentialsError(CredentialsError),
    /// The connection to Vault could not be opened.
    ConnectError(IoError),
    /// The HTTP exchange broke down.
    HTTPError(HttpError),
    /// Vault's answer was not the JSON expected.
    DeserializationError(JsonError),
    /// Vault refused the login and said why.
    VaultError(VaultError),
    /// Vault reported success but issued no token.
    EmptyToken,
}

impl From<CredentialsError> for Error {
    fn from(err: CredentialsError) -> (error: Self) {
        Error::CredentialsError(err)
    }
}

impl FromSpecImpl<CredentialsError> for Error {
    open spec fn obeys_from_spec() -> bool {
        true
    }

    open spec fn from_spec(err: CredentialsError) -> Self {
        Error::CredentialsError(err)
    }
}

impl From<HttpError> for Error {
    fn from(err: HttpError) -> (error: Self) {
        Error::HTTPError(err)
    }
}

impl FromSpecImpl<HttpError> for Error {
    open spec fn obeys_from_spec() -> bool {
        true
    }

    open spec fn from_spec(err: HttpError) -> Self {
        Error::HTTPError(err)
    }
}

impl From<IoError> for Error {
    fn from(err: IoError) -> (error: Self) {
        Error::ConnectError(err)
    }
}

impl FromSpecImpl<IoError> for Error {
    open spec fn obeys_from_spec() -> bool {
        true
    }

    open spec fn from_spec(err: IoError) -> Self {
        Error::ConnectError(err)
    }
}

impl From<JsonError> for Error {
    fn from(err: JsonError) -> (error: Self) {
        Error::DeserializationError(err)
    }
}

impl FromSpecImpl<JsonError> for Error {
    open spec fn obeys_from_spec() -> bool {
        true
    }

    open spec fn from_spec(err: JsonError) -> Self {
        Error::DeserializationError(err)
    }
}

/// Calls `CredentialsError::not_loaded` with `reason` as the error's source.
/// Nothing is claimed of the error it makes: it reads as the credential chain
/// words it.
#[verifier::external_body]
pub(crate) fn credentials_not_loaded(reason: &str) -> (error: CredentialsError) {
    CredentialsError::not_loaded(reason.to_owned())
}

impl InvalidParameters {
    /// What the fault reads as.
    pub open spec fn spec_message(&self) -> Seq<char> {
        match self {
            InvalidParameters::EmptyRole => "invalid parameters: the role is empty"@,
            InvalidParameters::AddressNotAbsolute => {
                "invalid parameters: the Vault address is not an absolute URL with a host"@
            },
        }
    }

    /// Writes the fault out for a person to read.
    pub fn message(&self) -> (text: String)
        ensures
            text@ == self.spec_message(),
    {
        match self {
            InvalidParameters::EmptyRole => String::from_str(
                "invalid parameters: the role is empty",
            ),
            InvalidParameters::AddressNotAbsolute => String::from_str(
                "invalid parameters: the Vault address is not an absolute URL with a host",
            ),
        }
    }
}

impl VaultError {
    /// What the refusal reads as: Vault's reasons, separated by a comma and a space.
    pub open spec fn spec_message(&self) -> Seq<char> {
        "Vault error: "@ + joined(views(self.errors@), ", "@)
    }

    /// Writes the refusal out with every reason Vault gave.
    pub fn message(&self) -> (text: String)
        ensures
            text@ == self.spec_message(),
    {
        let mut text = String::from_str("Vault error: ");
        let reasons = join(&self.errors, ", ");
        text.append(reasons.as_str());
        text
    }
}

impl Error {
    /// Whether `text` is how this error reads. The errors of the credential
    /// chain, the network and the decoder read as they themselves print.
    pub open spec fn reads_as(&self, text: String) -> bool {
        match self {
            Error::InvalidParameters(fault) => text@ == fault.spec_message(),
            Error::CredentialsError(err) => to_string_from_display_ensures::<CredentialsError>(
                err,
                text,
            ),
            Error::ConnectError(err) => to_string_from_display_ensures::<IoError>(err, text),
            Error::HTTPError(err) => to_string_from_display_ensures::<HttpError>(err, text),
            Error::DeserializationError(err) => to_string_from_display_ensures::<JsonError>(
                err,
                text,
            ),
            Error::VaultError(err) => text@ == err.spec_message(),
            Error::EmptyToken => text@ == "Vault error: returned token was empty"@,
        }
    }

    /// Writes the error out for a person to read.
    pub fn message(&self) -> (text: String)
        ensures
            self.reads_as(text),
    {
        match self {
            Error::InvalidParameters(fault) => fault.message(),
            Error::CredentialsError(err) => err.to_string(),
            Error::ConnectError(err) => err.to_string(),
            Error::HTTPError(err) => err.to_string(),
            Error::DeserializationError(err) => err.to_string(),
            Error::VaultError(err) => err.message(),
            Error::EmptyToken => String::from_str("Vault error: returned token was empty"),
        }
    }
}

} // verus!
