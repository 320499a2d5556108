//! The request that is signed: a fixed `sts:GetCallerIdentity` call.
//!
//! Nothing in it depends on the caller but the optional server tag, which is
//! added as one more header so that the signature covers it.

use crate::text::decimal;
use vstd::prelude::*;
use vstd::string::{StrSliceExecFns, StringExecFns};
use vstd::utf8::{encode_utf8, is_ascii_chars, is_ascii_chars_encode_utf8};

verus! {

/// A header list as plain text: names and values in the order they were given.
pub type HeaderPairs = Seq<(Seq<char>, Seq<char>)>;

/// The method of the identity check.
pub open spec fn identity_check_method() -> Seq<char> {
    "POST"@
}

/// The endpoint the identity check is addressed to.
pub open spec fn identity_check_url() -> Seq<char> {
    "https://sts.amazonaws.com/"@
}

/// The form body of the identity check.
pub open spec fn identity_check_body() -> Seq<u8> {
    encode_utf8("Action=GetCallerIdentity&Version=2011-06-15"@)
}

/// The name of the header that carries the server tag.
pub open spec fn server_id_header() -> Seq<char> {
    "X-Vault-AWS-IAM-Server-ID"@
}

/// The headers the identity check is sent with when no server tag is given.
pub open spec fn base_headers() -> HeaderPairs {
    seq![
        ("Content-Type"@, "application/x-www-form-urlencoded; charset=utf-8"@),
        ("Host"@, "sts.amazonaws.com"@),
        ("Content-Length"@, "43"@),
    ]
}

/// The headers of the identity check: the fixed three, then the server tag if
/// there is one.
pub open spec fn identity_check_headers(server_id: Option<Seq<char>>) -> HeaderPairs {
    match server_id {
        Some(tag) => base_headers().push((server_id_header(), tag)),
        None => base_headers(),
    }
}

/// A request in the form the signer takes it.
#[derive(Debug)]
pub struct CanonicalRequest {
    pub method: String,
    pub url: String,
    pub headers: Vec<(String, String)>,
    pub body: Vec<u8>,
}

impl CanonicalRequest {
    /// The headers as plain text.
    pub open spec fn header_pairs(&self) -> HeaderPairs {
        self.headers.deep_view()
    }

    /// Whether this is the identity check carrying exactly the tag `server_id`.
    pub open spec fn is_identity_check(&self, server_id: Option<Seq<char>>) -> bool {
        &&& self.method@ == identity_check_method()
        &&& self.url@ == identity_check_url()
        &&& self.body@ == identity_check_body()
        &&& self.header_pairs() == identity_check_headers(server_id)
    }

    /// Whether this is the identity check, with or without a server tag.
    pub open spec fn wf(&self) -> bool {
        self.is_identity_check(None) || exists|tag: Seq<char>|
            self.is_identity_check(Some(tag))
    }
}

/// Builds the identity check, tagged with `iam_server_id` if one is given.
pub fn canonical_request(iam_server_id: &Option<String>) -> (request: CanonicalRequest)
    ensures
        request.is_identity_check(iam_server_id.deep_view()),
        request.wf(),
{
    let mut headers: Vec<(String, String)> = Vec::new();
    headers.push(
        (
            String::from_str("Content-Type"),
            String::from_str("application/x-www-form-urlencoded; charset=utf-8"),
        ),
    );
    headers.push((String::from_str("Host"), String::from_str("sts.amazonaws.com")));
    headers.push((String::from_str("Content-Length"), String::from_str("43")));
    match iam_server_id {
        Some(tag) => {
            headers.push((String::from_str("X-Vault-AWS-IAM-Server-ID"), tag.clone()));
        },
        None => {},
    }
    let request = CanonicalRequest {
        method: String::from_str("POST"),
        url: String::from_str("https://sts.amazonaws.com/"),
        headers,
        body: "Action=GetCallerIdentity&Version=2011-06-15".as_bytes_vec(),
    };
    assert(request.header_pairs() =~= identity_check_headers(iam_server_id.deep_view()));
    request
}

/// The `Content-Length` the identity check announces is the length of its body.
pub proof fn lemma_content_length_is_body_length()
    ensures
        base_headers()[2].0 == "Content-Length"@,
        base_headers()[2].1 == decimal(identity_check_body().len()),
{
    let body = "Action=GetCallerIdentity&Version=2011-06-15"@;
    reveal_strlit("Action=GetCallerIdentity&Version=2011-06-15");
    reveal_strlit("43");
    is_ascii_chars_encode_utf8(body);
    assert(decimal(43) =~= seq!['4', '3']) by {
        reveal_with_fuel(decimal, 3);
    }
}

} // verus!
