//! The token record and the rule for "still usable".

use vstd::prelude::*;

verus! {

/// Validity window granted to a credential at creation: 24 hours, in
/// milliseconds. The client applies this window locally regardless of any
/// expiry hint the backend may supply.
pub const VALIDITY_WINDOW_MS: i64 = 86_400_000;

/// The persisted token record. Created on successful login, replaced as a
/// whole, destroyed on logout or on expiry detection. `expires_at` is a Unix
/// timestamp in milliseconds.
#[derive(Debug, PartialEq, Eq)]
pub struct Credential {
    pub access_token: String,
    pub refresh_token: String,
    pub expires_at: i64,
}

impl Clone for Credential {
    fn clone(&self) -> (r: Self)
        ensures
            r == *self,
    {
        Credential {
            access_token: self.access_token.clone(),
            refresh_token: self.refresh_token.clone(),
            expires_at: self.expires_at,
        }
    }
}

impl Credential {
    /// A credential is usable exactly when its expiry lies strictly in the
    /// future.
    pub open spec fn spec_usable_at(&self, now: i64) -> bool {
        self.expires_at > now
    }

    /// Executable form of the expiry rule.
    pub fn usable_at(&self, now: i64) -> (r: bool)
        ensures
            r == self.spec_usable_at(now),
    {
        self.expires_at > now
    }
}

/// The expiry stamped on a credential issued at `now`: exactly `now` plus the
/// 24-hour window, saturating at the top of the timestamp range.
pub open spec fn spec_expiry_from(now: i64) -> i64 {
    if now + VALIDITY_WINDOW_MS <= i64::MAX {
        (now + VALIDITY_WINDOW_MS) as i64
    } else {
        i64::MAX
    }
}

/// Computes the local expiry for a credential issued at `now`.
pub fn expiry_from(now: i64) -> (r: i64)
    ensures
        r == spec_expiry_from(now),
        now + VALIDITY_WINDOW_MS <= i64::MAX ==> r == now + VALIDITY_WINDOW_MS,
{
    if now <= i64::MAX - VALIDITY_WINDOW_MS {
        now + VALIDITY_WINDOW_MS
    } else {
        i64::MAX
    }
}

} // verus!
