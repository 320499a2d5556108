//! The credentials a request is signed with, and the moment it is signed at.

use vstd::prelude::*;

verus! {

/// The last second the signature's timestamp can express:
/// 9999-12-31T23:59:59Z.
pub const MAX_SIGNING_SECONDS: u64 = 253_402_300_799;

/// A moment in time, in whole seconds since 1970-01-01T00:00:00Z, that a
/// signature can be dated with.
#[derive(Debug, Clone, Copy)]
pub struct Timestamp {
    seconds: u64,
}

impl Timestamp {
    #[verifier::type_invariant]
    spec fn in_range(self) -> bool {
        self.seconds <= MAX_SIGNING_SECONDS
    }

    /// The seconds since the epoch that this moment stands for.
    pub closed spec fn seconds(self) -> u64 {
        self.seconds
    }

    /// The moment `seconds` after the epoch, if a signature can be dated with it.
    pub fn from_unix_seconds(seconds: u64) -> (moment: Option<Timestamp>)
        ensures
            moment is Some <==> seconds <= MAX_SIGNING_SECONDS,
            moment is Some ==> moment->0.seconds() == seconds,
    {
        if seconds <= MAX_SIGNING_SECONDS {
            Some(Timestamp { seconds })
        } else {
            None
        }
    }

    /// The seconds since the epoch.
    pub fn unix_seconds(&self) -> (seconds: u64)
        ensures
            seconds == self.seconds(),
            seconds <= MAX_SIGNING_SECONDS,
    {
        proof {
            use_type_invariant(self);
        }
        self.seconds
    }
}

/// What the credential chain resolved: a key pair, and for temporary
/// credentials a session token and the second they expire at.
#[derive(Debug)]
pub struct Credentials {
    pub access_key_id: String,
    pub secret_access_key: String,
    pub session_token: Option<String>,
    pub expiration: Option<u64>,
}

impl Credentials {
    /// Whether the credentials have run out at `seconds` after the epoch. Those
    /// without an expiration never do.
    pub open spec fn expired_at(&self, seconds: u64) -> bool {
        self.expiration matches Some(end) && end <= seconds
    }

    /// Whether the credentials have run out at `now`.
    pub fn is_expired(&self, now: Timestamp) -> (expired: bool)
        ensures
            expired == self.expired_at(now.seconds()),
    {
        match self.expiration {
            Some(end) => end <= now.unix_seconds(),
            None => false,
        }
    }
}

} // verus!
