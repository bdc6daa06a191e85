//! Value objects of the REST backend's authentication and room endpoints.
//! Serializing them to and from the wire belongs to the application shell.

use vstd::prelude::*;

verus! {

/// Request to change the caller's own room info.
#[derive(Clone, Debug)]
pub struct MyRoomInfoReq {
    /// Room identifier.
    pub id: String,
    /// The caller's nickname in the room.
    pub my_name: String,
    /// The caller's remark for the room.
    pub remark: String,
}

/// Login request.
#[derive(Clone, Debug)]
pub struct LoginReq {
    /// OAuth grant type.
    pub grant_type: String,
    /// Operating-system family of the caller.
    pub system_type: String,
    /// Device family of the caller.
    pub device_type: String,
    /// Client identifier.
    pub client_id: String,
    /// Account name.
    pub account: String,
    /// Account password.
    pub password: String,
    /// Whether this is an automatic login.
    pub is_auto_login: bool,
    /// Whether to sync data asynchronously after login.
    pub async_data: bool,
    /// User id, passed on automatic login.
    pub uid: Option<String>,
}

/// Login response.
#[derive(Clone, Debug)]
pub struct LoginResp {
    /// Access token.
    pub token: String,
    /// Client identifier the backend assigned.
    pub client: String,
    /// Refresh token.
    pub refresh_token: String,
    /// User id.
    pub uid: String,
    /// When the access token expires.
    pub expire: String,
}

/// Token refresh request.
#[derive(Clone, Debug)]
pub struct RefreshTokenReq {
    /// The refresh token.
    pub refresh_token: String,
}

/// Token refresh response.
#[derive(Clone, Debug)]
pub struct RefreshTokenResp {
    /// New access token.
    pub token: String,
    /// New refresh token.
    pub refresh_token: String,
    /// When the new access token expires.
    pub expire: String,
    /// User id.
    pub uid: String,
}

} // verus!
