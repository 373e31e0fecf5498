//! Login results and credentials, whichever protocol produced them.
use vstd::prelude::*;

use crate::api::v3::models as v3_models;
use crate::api::v4::models as v4_models;

verus! {

/// The legacy protocol's login result.
#[derive(Debug, Clone)]
pub struct V3LoginResponse {
    pub user: v3_models::User,
}

/// The current protocol's login result.
#[derive(Debug, Clone)]
pub struct V4LoginResponse {
    pub user: v4_models::User,
    pub token: v4_models::Token,
}

/// A login result.
#[derive(Debug, Clone)]
pub enum LoginResponse {
    V3(V3LoginResponse),
    V4(V4LoginResponse),
}

impl LoginResponse {
    /// The user's nickname.
    pub fn nickname(&self) -> (r: String)
        ensures
            r@ == match self {
                LoginResponse::V3(l) => l.user.nickname@,
                LoginResponse::V4(l) => l.user.nickname@,
            },
    {
        match self {
            LoginResponse::V3(l) => l.user.nickname.clone(),
            LoginResponse::V4(l) => l.user.nickname.clone(),
        }
    }

    /// The user's e-mail address; the legacy protocol's user name is one.
    pub fn email(&self) -> (r: String)
        ensures
            r@ == match self {
                LoginResponse::V3(l) => l.user.user_name@,
                LoginResponse::V4(l) => l.user.email@,
            },
    {
        match self {
            LoginResponse::V3(l) => l.user.user_name.clone(),
            LoginResponse::V4(l) => l.user.email.clone(),
        }
    }

    /// The user's id.
    pub fn user_id(&self) -> (r: &str)
        ensures
            r@ == match self {
                LoginResponse::V3(l) => l.user.id@,
                LoginResponse::V4(l) => l.user.id@,
            },
    {
        match self {
            LoginResponse::V3(l) => l.user.id.as_str(),
            LoginResponse::V4(l) => l.user.id.as_str(),
        }
    }
}

/// A credential to keep between sessions: a legacy session cookie or a
/// current-protocol access token.
#[derive(Debug, Clone)]
pub enum TokenInfo {
    V3Session(String),
    V4Jwt(String),
}

/// The raw credential text.
pub open spec fn token_text(t: TokenInfo) -> Seq<char> {
    match t {
        TokenInfo::V3Session(s) => s@,
        TokenInfo::V4Jwt(s) => s@,
    }
}

impl TokenInfo {
    /// The raw credential text.
    pub fn as_str(&self) -> (r: &str)
        ensures
            r@ == token_text(*self),
    {
        match self {
            TokenInfo::V3Session(s) => s.as_str(),
            TokenInfo::V4Jwt(s) => s.as_str(),
        }
    }

    /// A credential of the legacy kind when `is_v3`, else of the current kind.
    pub fn from_string(token: String, is_v3: bool) -> (r: TokenInfo)
        ensures
            is_v3 ==> r == TokenInfo::V3Session(token),
            !is_v3 ==> r == TokenInfo::V4Jwt(token),
    {
        if is_v3 {
            TokenInfo::V3Session(token)
        } else {
            TokenInfo::V4Jwt(token)
        }
    }

    /// Whether this is a legacy session cookie.
    pub fn is_v3(&self) -> (r: bool)
        ensures
            r == (*self is V3Session),
    {
        match self {
            TokenInfo::V3Session(_) => true,
            TokenInfo::V4Jwt(_) => false,
        }
    }

    /// Whether this is a current-protocol access token.
    pub fn is_v4(&self) -> (r: bool)
        ensures
            r == (*self is V4Jwt),
    {
        match self {
            TokenInfo::V3Session(_) => false,
            TokenInfo::V4Jwt(_) => true,
        }
    }
}

} // verus!
