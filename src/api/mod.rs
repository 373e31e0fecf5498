//! Protocol versions and the per-version endpoint clients.
use vstd::prelude::*;

use crate::text::str_eq;

pub mod v3;
pub mod v4;

verus! {

/// Version information reported by a server and this library.
#[derive(Debug, Clone)]
pub struct VersionInfo {
    /// API version (v3 or v4)
    pub api_version: String,
    /// Library version
    pub library_version: String,
    /// Server version (if available)
    pub server_version: String,
}

/// Supported protocol version.
#[derive(Debug, Clone, Copy, PartialEq, Eq, Structural)]
pub enum ApiVersion {
    V3,
    V4,
}

/// What `str::to_lowercase` returns for a string.
pub uninterp spec fn lower_of(s: Seq<char>) -> Seq<char>;

/// Relies on `str::to_lowercase`: its result depends on the characters alone.
#[verifier::external_body]
fn lowercase(s: &str) -> (r: String)
    ensures
        r@ == lower_of(s@),
{
    s.to_lowercase()
}

/// The short name of a version.
pub open spec fn version_name(v: ApiVersion) -> Seq<char> {
    match v {
        ApiVersion::V3 => seq!['v', '3'],
        ApiVersion::V4 => seq!['v', '4'],
    }
}

/// The version that a lower-case name denotes: `v3` or `3`, `v4` or `4`.
pub open spec fn version_of_lower(s: Seq<char>) -> Option<ApiVersion> {
    if s == seq!['v', '3'] || s == seq!['3'] {
        Some(ApiVersion::V3)
    } else if s == seq!['v', '4'] || s == seq!['4'] {
        Some(ApiVersion::V4)
    } else {
        None
    }
}

impl ApiVersion {
    /// The short name of the version: `v3` or `v4`.
    pub fn as_str(&self) -> (r: &'static str)
        ensures
            r@ == version_name(*self),
    {
        proof {
            reveal_strlit("v3");
            reveal_strlit("v4");
        }
        assert("v3"@ =~= seq!['v', '3']);
        assert("v4"@ =~= seq!['v', '4']);
        match self {
            ApiVersion::V3 => "v3",
            ApiVersion::V4 => "v4",
        }
    }

    /// The version named by an already lower-cased string.
    pub fn from_lowercase(s: &str) -> (r: Option<ApiVersion>)
        ensures
            r == version_of_lower(s@),
    {
        proof {
            reveal_strlit("v3");
            reveal_strlit("3");
            reveal_strlit("v4");
            reveal_strlit("4");
        }
        assert("v3"@ =~= seq!['v', '3']);
        assert("3"@ =~= seq!['3']);
        assert("v4"@ =~= seq!['v', '4']);
        assert("4"@ =~= seq!['4']);
        if str_eq(s, "v3") || str_eq(s, "3") {
            Some(ApiVersion::V3)
        } else if str_eq(s, "v4") || str_eq(s, "4") {
            Some(ApiVersion::V4)
        } else {
            None
        }
    }

    /// The version named by `s`, ignoring case.
    pub fn from_str_inner(s: &str) -> (r: Option<ApiVersion>)
        ensures
            r == version_of_lower(lower_of(s@)),
    {
        let lower = lowercase(s);
        Self::from_lowercase(lower.as_str())
    }
}

impl std::str::FromStr for ApiVersion {
    type Err = String;

    fn from_str(s: &str) -> Result<ApiVersion, String> {
        match ApiVersion::from_str_inner(s) {
            Some(v) => Ok(v),
            None => {
                let mut msg = <String as StringExecFns>::from_str("Invalid API version: ");
                msg.append(s);
                Err(msg)
            },
        }
    }
}

} // verus!
