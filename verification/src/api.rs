//! The records Vault answers a login with.

use std::collections::HashMap;
use vstd::prelude::*;

verus! {

/// The envelope Vault wraps every answer in.
#[derive(Debug)]
pub struct TokenResponse<T> {
    pub data: Option<T>,
    pub auth: Option<AuthInfo>,
    pub lease_id: String,
    pub lease_duration: u32,
    pub renewable: bool,
    pub request_id: String,
    pub warnings: Option<Vec<String>>,
    pub wrap_info: Option<WrapInfo>,
}

/// The token issued by a successful login, with what Vault says about it.
#[derive(Debug)]
pub struct AuthInfo {
    pub client_token: String,
    pub accessor: String,
    pub policies: Vec<String>,
    pub token_policies: Vec<String>,
    pub metadata: Option<HashMap<String, String>>,
    pub lease_duration: u64,
    pub renewable: bool,
    pub entity_id: String,
    pub token_type: String,
    pub orphan: bool,
}

/// Where a response-wrapped answer can be picked up.
#[derive(Debug)]
pub struct WrapInfo {
    pub token: String,
    pub accessor: String,
    pub ttl: u64,
    pub creation_time: String,
    pub creation_path: String,
}

impl AuthInfo {
    /// Whether the record carries a token at all.
    pub open spec fn has_token(&self) -> bool {
        self.client_token@.len() > 0
    }
}

} // verus!
