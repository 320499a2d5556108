//! The login payload: the signed identity check, sealed for the wire.
//!
//! Vault is not sent the credentials. It is sent the signed request, each
//! part base64-encoded, and replays it against the identity service itself.

use crate::credentials::{Credentials, Timestamp};
use crate::encoding::{base64_decode, base64_encode, base64_standard, json_quote, json_string};
use crate::error::{credentials_not_loaded, Error};
use crate::headers::{headers_json, lemma_merged_lists_every_pair, lists, merge_headers, merged};
use crate::request::{
    canonical_request, identity_check_body, identity_check_headers, identity_check_method,
    identity_check_url, server_id_header, CanonicalRequest, HeaderPairs,
};
use crate::signer::{
    carries_signature, sign_request, signing_region, signing_service, sigv4_headers,
};
use vstd::prelude::*;
use vstd::string::StringExecFns;
use vstd::utf8::encode_utf8;

verus! {

/// The JSON object of a login: five string members under Vault's names for
/// them, in this order and without spaces.
pub open spec fn wire_json(
    http_method: Seq<char>,
    request_url: Seq<char>,
    request_headers: Seq<char>,
    request_body: Seq<char>,
    role: Seq<char>,
) -> Seq<char> {
    "{\"iam_http_request_method\":"@ + json_string(http_method) + ",\"iam_request_url\":"@
        + json_string(request_url) + ",\"iam_request_headers\":"@ + json_string(
        request_headers,
    ) + ",\"iam_request_body\":"@ + json_string(request_body) + ",\"role\":"@ + json_string(
        role,
    ) + "}"@
}

/// The JSON object posted for an envelope sealed from these parts.
pub open spec fn sealed_json(
    url: Seq<char>,
    body: Seq<u8>,
    headers: Seq<char>,
    role: Seq<char>,
) -> Seq<char> {
    wire_json(
        identity_check_method(),
        base64_standard(encode_utf8(url)),
        base64_standard(encode_utf8(headers)),
        base64_standard(body),
        role,
    )
}

/// What is posted to Vault's login endpoint.
///
/// Only `role` and `server_id` come from the caller. The rest is derived from
/// the signed request.
#[derive(Debug)]
pub struct AuthEnvelope {
    /// The method of the signed request: always `POST`.
    pub http_method: String,
    /// The URL of the signed request, base64-encoded.
    pub request_url: String,
    /// The headers of the signed request as JSON, base64-encoded.
    pub request_headers: String,
    /// The body of the signed request, base64-encoded.
    pub request_body: String,
    /// The Vault role to log in as.
    pub role: String,
    /// The server tag the request was signed with, as given. It travels inside
    /// the signed headers and is not written to the wire a second time.
    pub server_id: Option<String>,
}

/// The parts of the signed request that an envelope was sealed from.
#[derive(Debug)]
pub struct OpenedEnvelope {
    pub url: Vec<u8>,
    pub headers: Vec<u8>,
    pub body: Vec<u8>,
}

impl AuthEnvelope {
    /// Whether the envelope is the one sealed from these parts: each of URL,
    /// headers and body encoded on its own, role and tag as they are.
    pub open spec fn seals(
        &self,
        url: Seq<char>,
        body: Seq<u8>,
        headers: Seq<char>,
        role: Seq<char>,
        server_id: Option<Seq<char>>,
    ) -> bool {
        &&& self.http_method@ == identity_check_method()
        &&& self.request_url@ == base64_standard(encode_utf8(url))
        &&& self.request_headers@ == base64_standard(encode_utf8(headers))
        &&& self.request_body@ == base64_standard(body)
        &&& self.role@ == role
        &&& self.server_id.deep_view() == server_id
    }

    /// The JSON object the envelope is posted as.
    pub open spec fn wire_body(&self) -> Seq<char> {
        wire_json(
            self.http_method@,
            self.request_url@,
            self.request_headers@,
            self.request_body@,
            self.role@,
        )
    }

    /// Writes the envelope as the body of the login request.
    pub fn to_json(&self) -> (body: String)
        ensures
            body@ == self.wire_body(),
    {
        let mut body = String::from_str("{\"iam_http_request_method\":");
        body.append(json_quote(self.http_method.as_str()).as_str());
        body.append(",\"iam_request_url\":");
        body.append(json_quote(self.request_url.as_str()).as_str());
        body.append(",\"iam_request_headers\":");
        body.append(json_quote(self.request_headers.as_str()).as_str());
        body.append(",\"iam_request_body\":");
        body.append(json_quote(self.request_body.as_str()).as_str());
        body.append(",\"role\":");
        body.append(json_quote(self.role.as_str()).as_str());
        body.append("}");
        body
    }

    /// Decodes what the envelope carries, as Vault does on receipt.
    ///
    /// Whatever bytes the three parts were encoded from are what comes back,
    /// exactly. An envelope with a part that is not the encoding of anything
    /// does not open.
    pub fn open(&self) -> (opened: Option<OpenedEnvelope>)
        ensures
            opened matches Some(parts) ==> {
                &&& base64_standard(parts.url@) == self.request_url@
                &&& base64_standard(parts.headers@) == self.request_headers@
                &&& base64_standard(parts.body@) == self.request_body@
            },
            forall|url: Seq<u8>, headers: Seq<u8>, body: Seq<u8>|
                #![trigger base64_standard(url), base64_standard(headers), base64_standard(body)]
                {
                    &&& base64_standard(url) == self.request_url@
                    &&& base64_standard(headers) == self.request_headers@
                    &&& base64_standard(body) == self.request_body@
                } ==> opened is Some && opened->0.url@ == url && opened->0.headers@ == headers
                    && opened->0.body@ == body,
    {
        let url = base64_decode(self.request_url.as_str());
        let headers = base64_decode(self.request_headers.as_str());
        let body = base64_decode(self.request_body.as_str());
        match (url, headers, body) {
            (Some(url), Some(headers), Some(body)) => Some(OpenedEnvelope { url, headers, body }),
            _ => None,
        }
    }
}

/// Seals the parts of the signed request into an envelope: URL, header JSON
/// and body are base64-encoded each on its own, in the standard alphabet with
/// padding; `role` and `server_id` are passed through as they are.
pub fn encode_payload(
    url: &str,
    body: &[u8],
    headers_json: &str,
    role: &str,
    server_id: &Option<String>,
) -> (envelope: AuthEnvelope)
    ensures
        envelope.seals(url@, body@, headers_json@, role@, server_id.deep_view()),
{
    AuthEnvelope {
        http_method: String::from_str("POST"),
        request_url: base64_encode(url.as_bytes()),
        request_headers: base64_encode(headers_json.as_bytes()),
        request_body: base64_encode(body),
        role: String::from_str(role),
        server_id: server_id.clone(),
    }
}

/// Seals a request together with the headers the signer added to it. The
/// headers are gathered by name, the signer's first, and written as JSON; the
/// URL and the body are those of `request`, byte for byte as they were signed.
pub fn assemble_payload(
    role: &str,
    iam_server_id: &Option<String>,
    request: &CanonicalRequest,
    signed: &Vec<(String, String)>,
) -> (envelope: AuthEnvelope)
    ensures
        envelope.seals(
            request.url@,
            request.body@,
            headers_json(merged(signed.deep_view() + request.header_pairs())),
            role@,
            iam_server_id.deep_view(),
        ),
{
    let headers = merge_headers(signed, &request.headers);
    let json = headers.to_json();
    encode_payload(
        request.url.as_str(),
        request.body.as_slice(),
        json.as_str(),
        role,
        iam_server_id,
    )
}

/// What signing the identity check tagged `server_id` with `credentials` at
/// `seconds` after the epoch yields: the headers to add, or `None` where the
/// signer refuses.
pub open spec fn identity_signature(
    server_id: Option<Seq<char>>,
    credentials: &Credentials,
    seconds: u64,
) -> Option<HeaderPairs> {
    sigv4_headers(
        identity_check_method(),
        identity_check_url(),
        identity_check_headers(server_id),
        identity_check_body(),
        credentials.access_key_id@,
        credentials.secret_access_key@,
        credentials.session_token.deep_view(),
        signing_region(),
        signing_service(),
        seconds,
    )
}

/// Builds the login payload for `role`: the identity check, tagged with
/// `iam_server_id` if given, signed with `credentials` as of `now` and sealed.
///
/// The headers sealed are the request's together with the signer's: the date,
/// the authorization and, for temporary credentials, the session token.
///
/// Fails with a credentials error, and only then, where the credentials have
/// expired at `now` or the signer refuses to sign with what it was given.
pub fn new_iam_payload(
    role: &str,
    iam_server_id: &Option<String>,
    credentials: &Credentials,
    now: Timestamp,
) -> (payload: Result<AuthEnvelope, Error>)
    ensures
        payload is Ok <==> !credentials.expired_at(now.seconds()) && identity_signature(
            iam_server_id.deep_view(),
            credentials,
            now.seconds(),
        ) is Some,
        payload matches Ok(envelope) ==> envelope.seals(
            identity_check_url(),
            identity_check_body(),
            headers_json(
                merged(
                    identity_signature(iam_server_id.deep_view(), credentials, now.seconds())->0
                        + identity_check_headers(iam_server_id.deep_view()),
                ),
            ),
            role@,
            iam_server_id.deep_view(),
        ),
        payload is Ok ==> carries_signature(
            identity_signature(iam_server_id.deep_view(), credentials, now.seconds())->0,
            credentials.session_token.deep_view(),
        ),
        payload matches Err(error) ==> error is CredentialsError,
{
    if credentials.is_expired(now) {
        return Err(Error::CredentialsError(credentials_not_loaded("the credentials have expired")));
    }
    let request = canonical_request(iam_server_id);
    match sign_request(&request, credentials, now) {
        Some(signed) => Ok(assemble_payload(role, iam_server_id, &request, &signed)),
        None => Err(
            Error::CredentialsError(
                credentials_not_loaded("the identity check could not be signed"),
            ),
        ),
    }
}

/// A server tag is signed and replayed: the identity check carries it under
/// its header name, and so does the gathered header set, whatever the signer
/// added.
pub proof fn lemma_server_tag_is_carried(added: HeaderPairs, tag: Seq<char>)
    ensures
        identity_check_headers(Some(tag)).contains((server_id_header(), tag)),
        lists(merged(added + identity_check_headers(Some(tag))), server_id_header(), tag),
{
    let request = identity_check_headers(Some(tag));
    let all = added + request;
    let at = added.len() as int + 3;
    lemma_merged_lists_every_pair(all, at);
}

} // verus!
