//! Application-level timeout budget, in milliseconds. The async helpers that
//! apply these to futures belong to the application shell.

use vstd::prelude::*;

verus! {

/// The application's timeout values, in milliseconds.
pub struct TimeoutConfig;

impl TimeoutConfig {
    /// Database connection timeout.
    pub const DATABASE_CONNECT_TIMEOUT: u64 = 30000;

    /// Database operation timeout.
    pub const DATABASE_OPERATION_TIMEOUT: u64 = 120000;

    /// HTTP request timeout.
    pub const HTTP_REQUEST_TIMEOUT: u64 = 60000;

    /// HTTP connection timeout.
    pub const HTTP_CONNECT_TIMEOUT: u64 = 10000;

    /// Directory scan timeout.
    pub const DIRECTORY_SCAN_TIMEOUT: u64 = 300000;

    /// Application initialization timeout.
    pub const APP_INIT_TIMEOUT: u64 = 60000;

    /// Lock acquisition timeout.
    pub const LOCK_ACQUIRE_TIMEOUT: u64 = 100;

    /// Token refresh timeout.
    pub const TOKEN_REFRESH_TIMEOUT: u64 = 30000;
}

} // verus!
