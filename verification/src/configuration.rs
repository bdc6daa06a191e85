//! Application settings as the configuration files provide them: backend
//! endpoints (among them the WebSocket URL the connection manager dials),
//! the local database file, and optional third-party service credentials.
//! Loading them from disk and from the environment is the application
//! shell's work; the shapes live here.

use vstd::prelude::*;

verus! {

/// The application's settings.
#[derive(Clone, Debug)]
pub struct Settings {
    /// Local database settings.
    pub database: DatabaseSettings,
    /// Backend service endpoints.
    pub backend: BackendSettings,
    /// Youdao service credentials, when configured.
    pub youdao: Option<Youdao>,
    /// Tencent service credentials, when configured.
    pub tencent: Option<Tencent>,
    /// Object-storage settings, when configured.
    pub minio: Option<MinioSettings>,
    /// ICE server for call signaling, when configured.
    pub ice_server: Option<IceServer>,
}

/// Local database settings.
#[derive(Clone, Debug)]
pub struct DatabaseSettings {
    /// Path of the SQLite file.
    pub sqlite_file: String,
}

/// Backend service endpoints.
#[derive(Clone, Debug)]
pub struct BackendSettings {
    /// Base URL of the REST backend.
    pub base_url: String,
    /// URL of the WebSocket endpoint.
    pub ws_url: String,
}

/// Youdao service credentials.
#[derive(Clone, Debug)]
pub struct Youdao {
    /// Application key.
    pub app_key: String,
    /// Application secret.
    pub app_secret: String,
}

/// ICE server used for call signaling.
#[derive(Clone, Debug)]
pub struct IceServer {
    /// Server URLs.
    pub urls: Vec<String>,
    /// Account name.
    pub username: String,
    /// Account credential.
    pub credential: String,
}

/// Tencent service credentials.
#[derive(Clone, Debug)]
pub struct Tencent {
    /// API key.
    pub api_key: String,
    /// Secret id.
    pub secret_id: String,
    /// Map service key.
    pub map_key: String,
}

/// Object-storage settings.
#[derive(Clone, Debug)]
pub struct MinioSettings {
    /// Service endpoint.
    pub endpoint: String,
    /// Bucket name.
    pub bucket: String,
    /// Access key.
    pub access_key: String,
    /// Secret key.
    pub secret_key: String,
    /// Region name.
    pub region: String,
    /// Domain downloads are served from.
    pub download_domain: String,
}

/// The environment the application runs in; picks which configuration file
/// is loaded.
#[derive(Debug)]
pub enum Environment {
    /// Local development.
    Local,
    /// Production.
    Production,
}

impl Environment {
    /// The environment's name, as file names and paths use it.
    pub fn as_str(&self) -> (r: &'static str)
        ensures
            r@ == (match *self {
                Environment::Local => "local"@,
                Environment::Production => "production"@,
            }),
    {
        match self {
            Environment::Local => "local",
            Environment::Production => "production",
        }
    }

    /// Parses an environment name, case-insensitively: exactly the names
    /// `local` and `production` (in any case) are accepted. A rejected name
    /// comes back folded to lower case, for the caller's error message.
    pub fn try_from(value: String) -> (r: Result<Environment, String>)
        ensures
            r is Ok <==> (crate::ext::lower_of(value@) == "local"@ || crate::ext::lower_of(value@)
                == "production"@),
            r matches Ok(e) ==> (e is Local <==> crate::ext::lower_of(value@) == "local"@),
            r matches Ok(e) ==> (e is Production <==> crate::ext::lower_of(value@)
                == "production"@),
            r matches Err(m) ==> m@ == crate::ext::lower_of(value@),
    {
        proof {
            reveal_strlit("local");
            reveal_strlit("production");
            assert("local"@.len() == 5);
            assert("production"@.len() == 10);
            assert("local"@ != "production"@);
        }
        let lowered = crate::ext::lowercase(value.as_str());
        if crate::message::str_eq(lowered.as_str(), "local") {
            Ok(Environment::Local)
        } else if crate::message::str_eq(lowered.as_str(), "production") {
            Ok(Environment::Production)
        } else {
            Err(lowered)
        }
    }
}

} // verus!
