//! Structured cookie records carried over the bridge.
//!
//! A cookie travels as a plain record of its attributes.  (An earlier wire
//! encoding carried cookies as raw header strings; the record form replaces
//! it, and the two are not mixed on one channel.)

use vstd::prelude::*;

verus! {

/// Same-site policy of a cookie.
#[derive(Clone, Copy, Debug, PartialEq, Eq, Structural)]
pub enum SameSitePolicy {
    Strict,
    Lax,
    /// An explicit cross-site policy ("SameSite=None").
    Unrestricted,
    /// No same-site attribute at all.
    Unset,
}

/// Code for [`SameSitePolicy::Unrestricted`] on the host cookie-store boundary.
pub const SAMESITE_CODE_NONE: u32 = 0;

/// Code for [`SameSitePolicy::Lax`] on the host cookie-store boundary.
pub const SAMESITE_CODE_LAX: u32 = 1;

/// Code for [`SameSitePolicy::Strict`] on the host cookie-store boundary.
pub const SAMESITE_CODE_STRICT: u32 = 2;

/// Code for [`SameSitePolicy::Unset`] on the host cookie-store boundary.
pub const SAMESITE_CODE_UNSET: u32 = 3;

/// One cookie, immutable once constructed.
///
/// `expiry_ms` is the absolute expiry time in epoch milliseconds, or `None`
/// for a session cookie; whether a record is a session cookie is determined
/// by `expiry_ms` alone.
#[derive(Clone, Debug, PartialEq)]
pub struct CookieRecord {
    pub name: String,
    pub value: String,
    pub domain: String,
    pub path: String,
    pub same_site: SameSitePolicy,
    pub secure: bool,
    pub http_only: bool,
    pub expiry_ms: Option<i64>,
}

impl CookieRecord {
    /// Whether this record describes a session cookie (no stored expiry).
    pub fn is_session(&self) -> (r: bool)
        ensures
            r == (self.expiry_ms is None),
    {
        self.expiry_ms.is_none()
    }

    /// The expiry in epoch milliseconds as handed to the host cookie store:
    /// the stored value, or `0` for a session cookie.
    pub fn host_expiry_ms(&self) -> (r: i64)
        ensures
            r == (match self.expiry_ms {
                Option::Some(ms) => ms,
                Option::None => 0i64,
            }),
    {
        match &self.expiry_ms {
            Option::Some(ms) => *ms,
            Option::None => 0i64,
        }
    }

    /// The same-site code as handed to the host cookie store.  A record with
    /// no same-site attribute is handed over as cross-site, which is what the
    /// store assumes for an absent attribute.
    pub fn host_same_site_code(&self) -> (r: u32)
        ensures
            r == spec_same_site_code(self.same_site),
    {
        match self.same_site {
            SameSitePolicy::Strict => SAMESITE_CODE_STRICT,
            SameSitePolicy::Lax => SAMESITE_CODE_LAX,
            SameSitePolicy::Unrestricted => SAMESITE_CODE_NONE,
            SameSitePolicy::Unset => SAMESITE_CODE_NONE,
        }
    }

    /// Builds a record from the plain attribute values read off a host cookie
    /// object.  `same_site_code` is decoded with [`same_site_from_code`]; an
    /// unknown code is treated as an absent attribute.  `expiry_ms` must
    /// already be `None` exactly for session cookies.
    pub fn from_host_fields(
        name: String,
        value: String,
        domain: String,
        path: String,
        same_site_code: u32,
        secure: bool,
        http_only: bool,
        expiry_ms: Option<i64>,
    ) -> (r: CookieRecord)
        ensures
            r.name == name,
            r.value == value,
            r.domain == domain,
            r.path == path,
            r.same_site == spec_same_site_from_code(same_site_code),
            r.secure == secure,
            r.http_only == http_only,
            r.expiry_ms == expiry_ms,
    {
        CookieRecord {
            name,
            value,
            domain,
            path,
            same_site: same_site_from_code(same_site_code),
            secure,
            http_only,
            expiry_ms,
        }
    }
}

/// The same-site code for each policy, as [`CookieRecord::host_same_site_code`]
/// computes it.
pub open spec fn spec_same_site_code(p: SameSitePolicy) -> u32 {
    match p {
        SameSitePolicy::Strict => SAMESITE_CODE_STRICT,
        SameSitePolicy::Lax => SAMESITE_CODE_LAX,
        SameSitePolicy::Unrestricted => SAMESITE_CODE_NONE,
        SameSitePolicy::Unset => SAMESITE_CODE_NONE,
    }
}

/// The policy denoted by a host same-site code; unknown codes mean the
/// attribute was absent.
pub open spec fn spec_same_site_from_code(code: u32) -> SameSitePolicy {
    if code == SAMESITE_CODE_STRICT {
        SameSitePolicy::Strict
    } else if code == SAMESITE_CODE_LAX {
        SameSitePolicy::Lax
    } else if code == SAMESITE_CODE_NONE {
        SameSitePolicy::Unrestricted
    } else {
        SameSitePolicy::Unset
    }
}

/// Decodes a host same-site code.
pub fn same_site_from_code(code: u32) -> (r: SameSitePolicy)
    ensures
        r == spec_same_site_from_code(code),
{
    if code == SAMESITE_CODE_STRICT {
        SameSitePolicy::Strict
    } else if code == SAMESITE_CODE_LAX {
        SameSitePolicy::Lax
    } else if code == SAMESITE_CODE_NONE {
        SameSitePolicy::Unrestricted
    } else {
        SameSitePolicy::Unset
    }
}

} // verus!
