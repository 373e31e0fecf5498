//! The unified client and the detection of the server's protocol version.
//!
//! Detection is a single pass: ping the current protocol first and take it if
//! it answers; otherwise ping the legacy protocol; if neither answers, give
//! up. The pings themselves are made by the caller, which feeds each outcome
//! to `on_ping` and performs the action it returns.
use vstd::prelude::*;

use crate::api::v3::ApiV3Client;
use crate::api::v4::ApiV4Client;
use crate::api::ApiVersion;
use crate::cloudreve_api::path::{trim_all_trailing_slashes, trim_trailing_slashes};
use crate::error::Error;

verus! {

/// Where detection stands.
#[derive(Debug, Clone, Copy, PartialEq, Eq, Structural)]
pub enum ProbeState {
    Unprobed,
    ProbingV4,
    ProbingV3,
    V4Active,
    V3Active,
    Unavailable,
}

/// What the caller does next.
#[derive(Debug, Clone, Copy, PartialEq, Eq, Structural)]
pub enum ProbeAction {
    /// Ping the current protocol's liveness endpoint.
    PingV4,
    /// Ping the legacy protocol's liveness endpoint.
    PingV3,
    /// Use this version; detection is over.
    Connect(ApiVersion),
    /// Neither endpoint answered; detection is over.
    GiveUp,
}

/// The first step: an explicit version is taken as it is, otherwise the
/// current protocol is pinged first.
pub open spec fn probe_start(explicit: Option<ApiVersion>) -> (ProbeState, ProbeAction) {
    match explicit {
        Some(ApiVersion::V4) => (ProbeState::V4Active, ProbeAction::Connect(ApiVersion::V4)),
        Some(ApiVersion::V3) => (ProbeState::V3Active, ProbeAction::Connect(ApiVersion::V3)),
        None => (ProbeState::ProbingV4, ProbeAction::PingV4),
    }
}

/// The step after a ping in state `s` answered (`ok`) or failed.
pub open spec fn probe_step(s: ProbeState, ok: bool) -> (ProbeState, ProbeAction) {
    match s {
        ProbeState::ProbingV4 => if ok {
            (ProbeState::V4Active, ProbeAction::Connect(ApiVersion::V4))
        } else {
            (ProbeState::ProbingV3, ProbeAction::PingV3)
        },
        _ => if ok {
            (ProbeState::V3Active, ProbeAction::Connect(ApiVersion::V3))
        } else {
            (ProbeState::Unavailable, ProbeAction::GiveUp)
        },
    }
}

/// The state in which detection ends when the current protocol's ping
/// answers or not (`v4_ok`) and the legacy one's would (`v3_ok`).
pub open spec fn detection_outcome(v4_ok: bool, v3_ok: bool) -> ProbeState {
    let s1 = probe_start(None).0;
    let (s2, a2) = probe_step(s1, v4_ok);
    if a2 == ProbeAction::PingV3 {
        probe_step(s2, v3_ok).0
    } else {
        s2
    }
}

/// Starts detection.
pub fn start_probe(explicit: Option<ApiVersion>) -> (r: (ProbeState, ProbeAction))
    ensures
        r == probe_start(explicit),
{
    match explicit {
        Some(ApiVersion::V4) => (ProbeState::V4Active, ProbeAction::Connect(ApiVersion::V4)),
        Some(ApiVersion::V3) => (ProbeState::V3Active, ProbeAction::Connect(ApiVersion::V3)),
        None => (ProbeState::ProbingV4, ProbeAction::PingV4),
    }
}

/// Advances detection by the outcome of the ping that `state` asked for.
pub fn on_ping(state: ProbeState, ok: bool) -> (r: (ProbeState, ProbeAction))
    requires
        state == ProbeState::ProbingV4 || state == ProbeState::ProbingV3,
    ensures
        r == probe_step(state, ok),
{
    match state {
        ProbeState::ProbingV4 => if ok {
            (ProbeState::V4Active, ProbeAction::Connect(ApiVersion::V4))
        } else {
            (ProbeState::ProbingV3, ProbeAction::PingV3)
        },
        _ => if ok {
            (ProbeState::V3Active, ProbeAction::Connect(ApiVersion::V3))
        } else {
            (ProbeState::Unavailable, ProbeAction::GiveUp)
        },
    }
}

/// When the current protocol answers, detection selects it, whatever the
/// legacy protocol would have answered; the legacy protocol is selected
/// only when the current one fails and it answers.
pub proof fn lemma_current_protocol_preferred(v3_ok: bool)
    ensures
        detection_outcome(true, v3_ok) == ProbeState::V4Active,
        detection_outcome(false, v3_ok) == (if v3_ok {
            ProbeState::V3Active
        } else {
            ProbeState::Unavailable
        }),
{
}

/// A client bound to exactly one protocol version.
#[derive(Debug, Clone)]
pub enum UnifiedClient {
    V3(ApiV3Client),
    V4(ApiV4Client),
}

/// The version a client speaks.
pub open spec fn version_of(c: UnifiedClient) -> ApiVersion {
    match c {
        UnifiedClient::V3(_) => ApiVersion::V3,
        UnifiedClient::V4(_) => ApiVersion::V4,
    }
}

/// The base URL a client talks to.
pub open spec fn base_url_of(c: UnifiedClient) -> Seq<char> {
    match c {
        UnifiedClient::V3(v) => v.base_url@,
        UnifiedClient::V4(v) => v.base_url@,
    }
}

/// The client holds no credential yet.
pub open spec fn has_no_credential(c: UnifiedClient) -> bool {
    match c {
        UnifiedClient::V3(v) => v.session_cookie is None,
        UnifiedClient::V4(v) => v.token is None,
    }
}

/// The message of a detection in which neither endpoint responded.
pub const DETECTION_FAILED: &'static str =
    "Could not detect API version. Neither V3 nor V4 endpoints responded.";

impl UnifiedClient {
    /// A client for `version` at `base_url` without its trailing `/`,
    /// without probing and without a credential.
    pub fn with_version(base_url: &str, version: ApiVersion) -> (r: UnifiedClient)
        ensures
            version_of(r) == version,
            base_url_of(r) == trim_all_trailing_slashes(base_url@),
            has_no_credential(r),
    {
        let base = trim_trailing_slashes(base_url);
        match version {
            ApiVersion::V3 => UnifiedClient::V3(ApiV3Client::new(base)),
            ApiVersion::V4 => UnifiedClient::V4(ApiV4Client::new(base)),
        }
    }

    /// The client that a finished detection selected, or the error that
    /// neither endpoint responded.
    pub fn from_probe(base_url: &str, state: ProbeState) -> (r: Result<UnifiedClient, Error>)
        requires
            state == ProbeState::V4Active || state == ProbeState::V3Active || state
                == ProbeState::Unavailable,
        ensures
            state == ProbeState::V4Active ==> (r matches Ok(c) && version_of(c) == ApiVersion::V4),
            state == ProbeState::V3Active ==> (r matches Ok(c) && version_of(c) == ApiVersion::V3),
            r matches Ok(c) ==> base_url_of(c) == trim_all_trailing_slashes(base_url@)
                && has_no_credential(c),
            state == ProbeState::Unavailable ==> (r matches Err(Error::InvalidResponse(m)) && m@
                == DETECTION_FAILED@),
    {
        match state {
            ProbeState::V4Active => Ok(UnifiedClient::with_version(base_url, ApiVersion::V4)),
            ProbeState::V3Active => Ok(UnifiedClient::with_version(base_url, ApiVersion::V3)),
            _ => Err(Error::InvalidResponse(String::from_str(DETECTION_FAILED))),
        }
    }

    /// The version this client speaks.
    pub fn api_version(&self) -> (r: ApiVersion)
        ensures
            r == version_of(*self),
    {
        match self {
            UnifiedClient::V3(_) => ApiVersion::V3,
            UnifiedClient::V4(_) => ApiVersion::V4,
        }
    }

    /// The base URL this client talks to.
    pub fn base_url(&self) -> (r: &str)
        ensures
            r@ == base_url_of(*self),
    {
        match self {
            UnifiedClient::V3(c) => c.base_url.as_str(),
            UnifiedClient::V4(c) => c.base_url.as_str(),
        }
    }

    /// Whether this client speaks the legacy protocol.
    pub fn is_v3(&self) -> (r: bool)
        ensures
            r == (version_of(*self) == ApiVersion::V3),
    {
        match self {
            UnifiedClient::V3(_) => true,
            UnifiedClient::V4(_) => false,
        }
    }

    /// Whether this client speaks the current protocol.
    pub fn is_v4(&self) -> (r: bool)
        ensures
            r == (version_of(*self) == ApiVersion::V4),
    {
        match self {
            UnifiedClient::V3(_) => false,
            UnifiedClient::V4(_) => true,
        }
    }

    /// The legacy client, if that is the one in use.
    pub fn as_v3(&self) -> (r: Option<&ApiV3Client>)
        ensures
            match *self {
                UnifiedClient::V3(c) => r == Some(&c),
                UnifiedClient::V4(_) => r is None,
            },
    {
        match self {
            UnifiedClient::V3(c) => Some(c),
            UnifiedClient::V4(_) => None,
        }
    }

    /// The current-protocol client, if that is the one in use.
    pub fn as_v4(&self) -> (r: Option<&ApiV4Client>)
        ensures
            match *self {
                UnifiedClient::V4(c) => r == Some(&c),
                UnifiedClient::V3(_) => r is None,
            },
    {
        match self {
            UnifiedClient::V4(c) => Some(c),
            UnifiedClient::V3(_) => None,
        }
    }
}

} // verus!
