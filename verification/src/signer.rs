//! Signing the identity check with AWS Signature Version 4.
//!
//! The signature itself is computed by `aws-sigv4`. This module fixes what it
//! is asked to sign and for which scope, and names what it answers.

use crate::credentials::{Credentials, Timestamp, MAX_SIGNING_SECONDS};
use crate::request::{
    identity_check_headers, identity_check_url, CanonicalRequest, HeaderPairs,
};
use aws_sigv4::http_request::{
    sign, SignableBody, SignableRequest, SigningInstructions, SigningSettings,
};
use aws_sigv4::sign::v4::SigningParams;
use std::time::{Duration, UNIX_EPOCH};
use vstd::prelude::*;

verus! {

/// The region every identity check is signed for.
pub open spec fn signing_region() -> Seq<char> {
    "us-east-1"@
}

/// The service every identity check is signed for.
pub open spec fn signing_service() -> Seq<char> {
    "sts"@
}

/// The headers that `aws_sigv4::http_request::sign` answers with, in its order,
/// when it is asked to sign the given request with the given credentials for
/// the given scope at `seconds` after the epoch, under its default settings;
/// `None` where it refuses.
pub uninterp spec fn sigv4_headers(
    method: Seq<char>,
    url: Seq<char>,
    headers: Seq<(Seq<char>, Seq<char>)>,
    body: Seq<u8>,
    access_key_id: Seq<char>,
    secret_access_key: Seq<char>,
    session_token: Option<Seq<char>>,
    region: Seq<char>,
    service: Seq<char>,
    seconds: u64,
) -> Option<Seq<(Seq<char>, Seq<char>)>>;

/// The shape of what the signer adds: the date the signature was made at, the
/// authorization that embeds the signature, and the session token of
/// temporary credentials, in that order and under these names.
pub open spec fn carries_signature(added: HeaderPairs, session_token: Option<Seq<char>>) -> bool {
    &&& added.len() == if session_token is Some { 3nat } else { 2nat }
    &&& added[0].0 == "x-amz-date"@
    &&& added[1].0 == "authorization"@
    &&& session_token matches Some(token) ==> added[2] == ("x-amz-security-token"@, token)
}

/// `aws_sigv4::http_request::SigningInstructions`: the signer's answer, carried
/// from the call that made it to the call that reads it.
#[verifier::external_type_specification]
#[verifier::external_body]
pub struct ExSigningInstructions(SigningInstructions);

/// The headers that signing instructions hold, as
/// `SigningInstructions::headers` walks them.
pub uninterp spec fn instruction_headers(instructions: SigningInstructions) -> Seq<
    (Seq<char>, Seq<char>),
>;

/// Whether `headers` are those of the identity check, with or without a tag.
pub open spec fn signable_headers(headers: HeaderPairs) -> bool {
    headers == identity_check_headers(None) || exists|tag: Seq<char>|
        headers == identity_check_headers(Some(tag))
}

/// Calls `aws_sigv4::http_request::sign` under `SigningSettings::default()`,
/// after putting the arguments into the signer's own types
/// (`aws_credential_types::Credentials::new`, `SigningParams::builder`,
/// `SignableRequest::new`). Whether it answers, and with which headers, is
/// what `sigv4_headers` names; it does not answer where any of these refuses
/// what it is given. Under the default settings the signature goes into
/// headers, and the instructions hold the date, the authorization and, for
/// credentials with a session token, that token, as `carries_signature` says.
///
/// The URL must be that of the identity check. The signer rebuilds the URL
/// around its query and panics where the rebuilt text is no URL, as for a URL
/// without a scheme; `https://sts.amazonaws.com/` has scheme, authority and
/// path, and comes through. The request must carry a `Host` header, as the
/// identity check does: without one the signer derives it from the URL and
/// panics where that has no authority. The time must be one the `time` crate
/// can turn into a calendar date, which ends with the year 9999.
#[verifier::external_body]
fn sigv4_sign(
    method: &str,
    url: &str,
    headers: &Vec<(String, String)>,
    body: &[u8],
    access_key_id: &str,
    secret_access_key: &str,
    session_token: Option<String>,
    region: &str,
    service: &str,
    seconds: u64,
) -> (signed: Option<SigningInstructions>)
    requires
        url@ == identity_check_url(),
        signable_headers(headers.deep_view()),
        seconds <= MAX_SIGNING_SECONDS,
    ensures
        signed is Some == sigv4_headers(
            method@,
            url@,
            headers.deep_view(),
            body@,
            access_key_id@,
            secret_access_key@,
            session_token.deep_view(),
            region@,
            service@,
            seconds,
        ) is Some,
        signed is Some ==> instruction_headers(signed->0) == sigv4_headers(
            method@,
            url@,
            headers.deep_view(),
            body@,
            access_key_id@,
            secret_access_key@,
            session_token.deep_view(),
            region@,
            service@,
            seconds,
        )->0,
        signed is Some ==> carries_signature(
            instruction_headers(signed->0),
            session_token.deep_view(),
        ),
{
    let keys = (access_key_id, secret_access_key, session_token);
    let identity = aws_credential_types::Credentials::new(keys.0, keys.1, keys.2, None, "vault")
        .into();
    let time = UNIX_EPOCH.checked_add(Duration::from_secs(seconds))?;
    let params = SigningParams::builder().identity(&identity).region(region).name(service)
        .time(time).settings(SigningSettings::default()).build().ok()?.into();
    let pairs = headers.iter().map(|h| (h.0.as_str(), h.1.as_str()));
    let request = SignableRequest::new(method, url, pairs, SignableBody::Bytes(body)).ok()?;
    Some(sign(request, &params).ok()?.into_parts().0)
}

/// Calls `SigningInstructions::headers` and copies out each name and value, in
/// the order they come.
#[verifier::external_body]
fn signed_headers(instructions: &SigningInstructions) -> (headers: Vec<(String, String)>)
    ensures
        headers.deep_view() == instruction_headers(*instructions),
{
    instructions.headers().map(|(name, value)| (name.to_owned(), value.to_owned())).collect()
}

/// What signing `request` with `credentials` at `seconds` after the epoch
/// yields: the headers to add, or `None` where the signer refuses.
pub open spec fn signature_headers(
    request: &CanonicalRequest,
    credentials: &Credentials,
    seconds: u64,
) -> Option<HeaderPairs> {
    sigv4_headers(
        request.method@,
        request.url@,
        request.header_pairs(),
        request.body@,
        credentials.access_key_id@,
        credentials.secret_access_key@,
        credentials.session_token.deep_view(),
        signing_region(),
        signing_service(),
        seconds,
    )
}

/// Signs the identity check for `us-east-1` and `sts`, dated `now`, and
/// returns the headers that carry the signature. The body is signed as it
/// stands in `request` and is not changed. `None` means that the signer
/// refused what it was given.
pub fn sign_request(request: &CanonicalRequest, credentials: &Credentials, now: Timestamp) -> (signed:
    Option<Vec<(String, String)>>)
    requires
        request.wf(),
    ensures
        signed.deep_view() == signature_headers(request, credentials, now.seconds()),
        signed is Some ==> carries_signature(
            signed.deep_view()->0,
            credentials.session_token.deep_view(),
        ),
{
    let signed = sigv4_sign(
        request.method.as_str(),
        request.url.as_str(),
        &request.headers,
        request.body.as_slice(),
        credentials.access_key_id.as_str(),
        credentials.secret_access_key.as_str(),
        credentials.session_token.clone(),
        "us-east-1",
        "sts",
        now.unix_seconds(),
    );
    match signed {
        Some(instructions) => Some(signed_headers(&instructions)),
        None => None,
    }
}

/// Signing is a function of what is signed, with what and when: equal
/// requests, equal credentials and equal times give equal headers, the
/// authorization among them.
pub proof fn lemma_signing_is_deterministic(
    first: &CanonicalRequest,
    second: &CanonicalRequest,
    credentials: &Credentials,
    again: &Credentials,
    seconds: u64,
)
    requires
        first.method@ == second.method@,
        first.url@ == second.url@,
        first.header_pairs() == second.header_pairs(),
        first.body@ == second.body@,
        credentials.access_key_id@ == again.access_key_id@,
        credentials.secret_access_key@ == again.secret_access_key@,
        credentials.session_token.deep_view() == again.session_token.deep_view(),
    ensures
        signature_headers(first, credentials, seconds) == signature_headers(
            second,
            again,
            seconds,
        ),
{
}

} // verus!
