//! The login request: where it goes and what it carries.

use crate::error::InvalidParameters;
use crate::payload::AuthEnvelope;
use crate::request::HeaderPairs;
use crate::text::{decimal, decimal_string};
use vstd::prelude::*;
use vstd::string::{StrSliceExecFns, StringExecFns};
use vstd::utf8::encode_utf8;

verus! {

/// Where Vault listens: the parts of its base URL that a login reads.
#[derive(Debug)]
pub struct VaultAddress {
    pub scheme: String,
    pub host: String,
    pub port: Option<u16>,
    /// The path the address ends in, as given: empty, `/`, or the path Vault
    /// is served under, such as `/vault`.
    pub path: String,
}

/// What the caller asks for: which Vault, which mount of the AWS auth method,
/// which role, and optionally the server tag to sign.
#[derive(Debug)]
pub struct Parameters {
    /// Optionally defined Vault IAM Server ID value to be attached
    /// as a header to the authentication request
    pub iam_server_id: Option<String>,
    /// The mount path of the AWS authentication engine in Vault
    pub mount_path: String,
    /// The role in Vault to authenticate as under the AWS engine
    pub role: String,
    /// The Vault server address and port to send the request to
    pub vault_address: VaultAddress,
}

/// The port a connection goes to where the address names none.
pub const DEFAULT_PORT: u16 = 80;

impl VaultAddress {
    /// Whether the address is absolute: it names a scheme and a host, and its
    /// path, if it has one, starts at the root.
    pub open spec fn wf(&self) -> bool {
        &&& self.scheme@.len() > 0
        &&& self.host@.len() > 0
        &&& self.path@.len() > 0 ==> self.path@[0] == '/'
    }

    /// Checks that the address is absolute.
    pub fn is_absolute(&self) -> (absolute: bool)
        ensures
            absolute == self.wf(),
    {
        if self.scheme.as_str().is_empty() || self.host.as_str().is_empty() {
            false
        } else if self.path.as_str().is_empty() {
            true
        } else {
            self.path.as_str().get_char(0) == '/'
        }
    }

    /// The path every endpoint of this Vault starts with: the address's path
    /// without the slash it may end in.
    pub open spec fn base_path(&self) -> Seq<char> {
        if self.path@.len() > 0 && self.path@.last() == '/' {
            self.path@.drop_last()
        } else {
            self.path@
        }
    }

    /// Scheme and authority as they stand at the start of a URL.
    pub open spec fn origin(&self) -> Seq<char> {
        self.scheme@ + "://"@ + self.host@ + match self.port {
            Some(port) => ":"@ + decimal(port as nat),
            None => Seq::empty(),
        }
    }

    /// Host and port to open the connection to, the port defaulting to 80.
    pub open spec fn socket_address(&self) -> Seq<char> {
        self.host@ + ":"@ + decimal(
            match self.port {
                Some(port) => port as nat,
                None => DEFAULT_PORT as nat,
            },
        )
    }
}

impl Parameters {
    /// What is wrong with the parameters, if anything: an empty role first,
    /// then an address that is not absolute.
    pub open spec fn fault(&self) -> Option<InvalidParameters> {
        if self.role@.len() == 0 {
            Some(InvalidParameters::EmptyRole)
        } else if !self.vault_address.wf() {
            Some(InvalidParameters::AddressNotAbsolute)
        } else {
            None
        }
    }

    /// Whether the parameters can be acted on: the role is not empty and the
    /// address is absolute.
    pub open spec fn wf(&self) -> bool {
        self.role@.len() > 0 && self.vault_address.wf()
    }

    /// Finds what is wrong with the parameters, if anything.
    pub fn check(&self) -> (fault: Option<InvalidParameters>)
        ensures
            fault == self.fault(),
            fault is None <==> self.wf(),
    {
        if self.role.as_str().is_empty() {
            Some(InvalidParameters::EmptyRole)
        } else if !self.vault_address.is_absolute() {
            Some(InvalidParameters::AddressNotAbsolute)
        } else {
            None
        }
    }

    /// Checks that the role is not empty and the address is absolute.
    pub fn is_valid(&self) -> (valid: bool)
        ensures
            valid == self.wf(),
    {
        self.check().is_none()
    }

    /// The URL of the login endpoint: the whole address, base path included,
    /// then `/v1/auth/{mount path}/login`.
    pub open spec fn login_url(&self) -> Seq<char> {
        self.vault_address.origin() + self.vault_address.base_path() + "/v1/auth/"@
            + self.mount_path@ + "/login"@
    }
}

/// The headers a login is posted with: the host, JSON both ways, and the
/// length of the body in bytes.
pub open spec fn login_headers(host: Seq<char>, body: Seq<char>) -> HeaderPairs {
    seq![
        ("Host"@, host),
        ("Accept"@, "application/json"@),
        ("Content-Type"@, "application/json"@),
        ("Content-Length"@, decimal(encode_utf8(body).len())),
    ]
}

/// One HTTP request, ready to be sent, and the socket address to send it to.
#[derive(Debug)]
pub struct LoginRequest {
    pub address: String,
    pub method: String,
    pub url: String,
    pub headers: Vec<(String, String)>,
    pub body: String,
}

impl LoginRequest {
    /// Whether this is the login that `params` ask for, carrying `body`.
    pub open spec fn is_login(&self, params: &Parameters, body: Seq<char>) -> bool {
        &&& self.address@ == params.vault_address.socket_address()
        &&& self.method@ == "POST"@
        &&& self.url@ == params.login_url()
        &&& self.headers.deep_view() == login_headers(params.vault_address.host@, body)
        &&& self.body@ == body
    }
}

/// Builds the login request that posts `envelope` to the Vault that `params`
/// name.
pub fn login_request(params: &Parameters, envelope: &AuthEnvelope) -> (request: LoginRequest)
    ensures
        request.is_login(params, envelope.wire_body()),
{
    let address = &params.vault_address;
    let body = envelope.to_json();
    let content_length = decimal_string(body.as_str().as_bytes().len());

    let mut url = address.scheme.clone();
    url.append("://");
    url.append(address.host.as_str());
    let mut socket = address.host.clone();
    socket.append(":");
    match address.port {
        Some(port) => {
            let number = decimal_string(port as usize);
            url.append(":");
            url.append(number.as_str());
            socket.append(number.as_str());
        },
        None => {
            socket.append(decimal_string(DEFAULT_PORT as usize).as_str());
        },
    }
    let path = address.path.as_str();
    let length = path.unicode_len();
    if length > 0 && path.get_char(length - 1) == '/' {
        url.append(path.substring_char(0, length - 1));
    } else {
        url.append(path);
    }
    url.append("/v1/auth/");
    url.append(params.mount_path.as_str());
    url.append("/login");

    let mut headers: Vec<(String, String)> = Vec::new();
    headers.push((String::from_str("Host"), address.host.clone()));
    headers.push((String::from_str("Accept"), String::from_str("application/json")));
    headers.push((String::from_str("Content-Type"), String::from_str("application/json")));
    headers.push((String::from_str("Content-Length"), content_length));

    let request = LoginRequest {
        address: socket,
        method: String::from_str("POST"),
        url,
        headers,
        body,
    };
    assert(request.url@ =~= params.login_url());
    assert(request.headers.deep_view() =~= login_headers(
        params.vault_address.host@,
        envelope.wire_body(),
    ));
    request
}

} // verus!
