//! Login to a Vault server with ambient AWS credentials.
//!
//! The caller proves its identity by handing Vault a signed
//! `sts:GetCallerIdentity` request. This crate builds that request, signs it,
//! wraps it into the login payload and decides, event by event, how a login
//! attempt proceeds. It performs no I/O itself: resolving credentials, reading
//! the clock and talking to the network are left to the caller, which feeds
//! the outcomes back as events.
//!
//! The pieces, in the order a login uses them:
//!
//! - [`request`]: the identity check that is signed;
//! - [`signer`]: the signature, made by `aws-sigv4`;
//! - [`headers`]: the signed headers gathered by name and written as JSON;
//! - [`payload`]: the envelope that carries all of it, base64-encoded;
//! - [`login`]: the HTTP request that posts the envelope;
//! - [`session`]: the attempt as a whole, one event at a time.

pub mod api;
pub mod credentials;
pub mod encoding;
pub mod error;
pub mod headers;
pub mod login;
pub mod payload;
pub mod request;
pub mod session;
pub mod signer;
pub mod text;

pub use api::{AuthInfo, TokenResponse, WrapInfo};
pub use credentials::{Credentials, Timestamp};
pub use error::{Error, InvalidParameters, VaultError};
pub use login::{LoginRequest, Parameters, VaultAddress};
pub use payload::{new_iam_payload, AuthEnvelope};
pub use session::{Action, CredentialsOutcome, Event, State};
