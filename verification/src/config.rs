use vstd::prelude::*;

verus! {

/// Application configuration: the shared bearer secret and the storage root.
/// The values are read from the process environment by the surrounding
/// program and handed in here once, at startup.
pub struct AppConfig {
    pub auth_token: String,
    pub upload_dir: String,
}

impl AppConfig {
    /// Builds the configuration from explicit values.
    pub fn new(auth_token: String, upload_dir: String) -> (c: Self)
        ensures
            c.auth_token@ == auth_token@,
            c.upload_dir@ == upload_dir@,
    {
        AppConfig { auth_token, upload_dir }
    }
}

/// The storage root used when none is configured.
pub fn default_upload_dir() -> (d: String)
    ensures
        d@ == "uploads"@,
{
    let d = String::from_str("uploads");
    d
}

} // verus!
