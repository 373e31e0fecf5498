//! The version-agnostic facade.
//!
//! `CloudreveAPI` holds exactly one live endpoint client, chosen at
//! construction, and every operation dispatches on it once. The requests
//! themselves are sent by the transport around the library; the decisions
//! between them (how a path is addressed, which primitive carries out a
//! move or a copy, how pages are followed, how a batch is reported) are
//! made by the functions of the submodules.
use vstd::prelude::*;

use crate::api::ApiVersion;
use crate::client::{base_url_of, has_no_credential, version_of, ProbeState, UnifiedClient, DETECTION_FAILED};
use crate::cloudreve_api::path::{trim_all_trailing_slashes, trim_trailing_slashes};
use crate::error::Error;

pub mod account;
pub mod auth;
pub mod batch;
pub mod file;
pub mod pagination;
pub mod path;
pub mod plan;
pub mod resolve;
pub mod transfer;

pub use account::{DavAccount, DavListResponse, ShareItem, ShareUpdateProps, StorageQuota, UserInfo};
pub use auth::{LoginResponse, TokenInfo, V3LoginResponse, V4LoginResponse};
pub use batch::{DeleteResult, DeleteTarget};
pub use file::{FileInfo, FileItem, FileList, FileListAll};

verus! {

/// The unified client: one endpoint client for the version the server
/// speaks, and the server's base URL without trailing `/`.
pub struct CloudreveAPI {
    inner: UnifiedClient,
    base_url: String,
}

impl CloudreveAPI {
    /// The endpoint client in use.
    pub closed spec fn spec_inner(&self) -> UnifiedClient {
        self.inner
    }

    /// The base URL.
    pub closed spec fn spec_base_url(&self) -> Seq<char> {
        self.base_url@
    }

    /// A client for `version` at `base_url`, without probing.
    pub fn with_version(base_url: &str, version: ApiVersion) -> (r: Result<CloudreveAPI, Error>)
        ensures
            r matches Ok(api) && version_of(api.spec_inner()) == version && api.spec_base_url()
                == trim_all_trailing_slashes(base_url@) && base_url_of(api.spec_inner())
                == trim_all_trailing_slashes(base_url@) && has_no_credential(api.spec_inner()),
    {
        let base = trim_trailing_slashes(base_url);
        let inner = UnifiedClient::with_version(base_url, version);
        Ok(CloudreveAPI { inner, base_url: String::from_str(base) })
    }

    /// The client that a finished version detection selected at `base_url`,
    /// or the error that neither endpoint responded.
    pub fn from_probe(base_url: &str, state: ProbeState) -> (r: Result<CloudreveAPI, Error>)
        requires
            state == ProbeState::V4Active || state == ProbeState::V3Active || state
                == ProbeState::Unavailable,
        ensures
            state == ProbeState::V4Active ==> (r matches Ok(api) && version_of(api.spec_inner())
                == ApiVersion::V4),
            state == ProbeState::V3Active ==> (r matches Ok(api) && version_of(api.spec_inner())
                == ApiVersion::V3),
            state == ProbeState::Unavailable ==> (r matches Err(Error::InvalidResponse(m)) && m@
                == DETECTION_FAILED@),
            r matches Ok(api) ==> api.spec_base_url() == trim_all_trailing_slashes(base_url@)
                && base_url_of(api.spec_inner()) == trim_all_trailing_slashes(base_url@)
                && has_no_credential(api.spec_inner()),
    {
        let base = trim_trailing_slashes(base_url);
        match UnifiedClient::from_probe(base_url, state) {
            Ok(inner) => Ok(CloudreveAPI { inner, base_url: String::from_str(base) }),
            Err(e) => Err(e),
        }
    }

    /// The protocol version in use.
    pub fn api_version(&self) -> (r: ApiVersion)
        ensures
            r == version_of(self.spec_inner()),
    {
        self.inner.api_version()
    }

    /// The base URL.
    pub fn base_url(&self) -> (r: &str)
        ensures
            r@ == self.spec_base_url(),
    {
        self.base_url.as_str()
    }

    /// The endpoint client in use.
    pub fn inner(&self) -> (r: &UnifiedClient)
        ensures
            *r == self.spec_inner(),
    {
        &self.inner
    }

    /// The credential to keep for a later session: the session cookie under
    /// the legacy protocol, the access token under the current one; an
    /// error when there is none yet.
    pub fn get_token(&self) -> (r: Result<crate::cloudreve_api::auth::TokenInfo, Error>)
        ensures
            match self.spec_inner() {
                UnifiedClient::V3(c) => match c.session_cookie {
                    Some(s) => r matches Ok(crate::cloudreve_api::auth::TokenInfo::V3Session(t)) && t@ == s@,
                    None => r matches Err(Error::InvalidResponse(_)),
                },
                UnifiedClient::V4(c) => match c.token {
                    Some(s) => r matches Ok(crate::cloudreve_api::auth::TokenInfo::V4Jwt(t)) && t@ == s@,
                    None => r matches Err(Error::InvalidResponse(_)),
                },
            },
    {
        match &self.inner {
            UnifiedClient::V3(c) => match &c.session_cookie {
                Some(s) => Ok(crate::cloudreve_api::auth::TokenInfo::V3Session(s.clone())),
                None => Err(Error::InvalidResponse(String::from_str("No session cookie available"))),
            },
            UnifiedClient::V4(c) => match &c.token {
                Some(s) => Ok(crate::cloudreve_api::auth::TokenInfo::V4Jwt(s.clone())),
                None => Err(Error::InvalidResponse(String::from_str("No JWT token available"))),
            },
        }
    }

    /// Restores a credential kept from an earlier session: the session
    /// cookie under the legacy protocol, the access token under the current.
    pub fn set_token(&mut self, token: &str) -> (r: Result<(), Error>)
        ensures
            r is Ok,
            final(self).spec_base_url() == old(self).spec_base_url(),
            version_of(final(self).spec_inner()) == version_of(old(self).spec_inner()),
            base_url_of(final(self).spec_inner()) == base_url_of(old(self).spec_inner()),
            match final(self).spec_inner() {
                UnifiedClient::V3(c) => c.session_cookie is Some && c.session_cookie->Some_0@ == token@,
                UnifiedClient::V4(c) => c.token is Some && c.token->Some_0@ == token@,
            },
    {
        match &mut self.inner {
            UnifiedClient::V3(c) => c.set_session_cookie(String::from_str(token)),
            UnifiedClient::V4(c) => c.set_token(String::from_str(token)),
        }
        Ok(())
    }

    /// The session cookie, under the legacy protocol only.
    pub fn get_session_cookie(&self) -> (r: Option<String>)
        ensures
            match self.spec_inner() {
                UnifiedClient::V3(c) => match c.session_cookie {
                    Some(s) => r is Some && r->Some_0@ == s@,
                    None => r is None,
                },
                UnifiedClient::V4(_) => r is None,
            },
    {
        match &self.inner {
            UnifiedClient::V3(c) => match &c.session_cookie {
                Some(s) => Some(s.clone()),
                None => None,
            },
            UnifiedClient::V4(_) => None,
        }
    }

    /// Fails with `UnsupportedFeature` naming `operation` when the current
    /// protocol is in use; succeeds under the legacy one.
    pub fn require_legacy_protocol(&self, operation: &str) -> (r: Result<(), Error>)
        ensures
            r is Ok <==> version_of(self.spec_inner()) == ApiVersion::V3,
            r matches Err(e) ==> e is UnsupportedFeature,
    {
        match &self.inner {
            UnifiedClient::V4(_) => Err(
                Error::UnsupportedFeature(String::from_str(operation), String::from_str("v4")),
            ),
            UnifiedClient::V3(_) => Ok(()),
        }
    }

    /// The endpoint client in use, to change it in place.
    pub fn inner_mut(&mut self) -> (r: &mut UnifiedClient)
        ensures
            *r == old(self).spec_inner(),
    {
        &mut self.inner
    }

    /// Fails with `UnsupportedFeature` naming `operation` when the legacy
    /// protocol is in use; succeeds under the current one.
    pub fn require_current_protocol(&self, operation: &str) -> (r: Result<(), Error>)
        ensures
            r is Ok <==> version_of(self.spec_inner()) == ApiVersion::V4,
            r matches Err(e) ==> e is UnsupportedFeature,
    {
        match &self.inner {
            UnifiedClient::V3(_) => Err(
                Error::UnsupportedFeature(String::from_str(operation), String::from_str("v3")),
            ),
            UnifiedClient::V4(_) => Ok(()),
        }
    }
}

} // verus!
