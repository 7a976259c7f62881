//! The settings a storage client is built from.

use crate::models::s3::S3Config;
use vstd::prelude::*;

verus! {

/// The region a client falls back to when none is configured.
pub open spec fn fallback_region() -> Seq<char> {
    "us-east-1"@
}

/// The region a client is built with: the fallback for an empty region or
/// the placeholder `auto`, the configured region otherwise.
pub open spec fn effective_region_spec(region: Seq<char>) -> Seq<char> {
    if region.len() == 0 || region == "auto"@ {
        fallback_region()
    } else {
        region
    }
}

/// The label under which the configured key pair is handed to a client.
pub open spec fn credentials_provider_name() -> Seq<char> {
    "custom"@
}

/// Everything a storage client is built from. A client is built anew for
/// every operation and never kept.
#[derive(Debug)]
pub struct ClientSettings {
    pub endpoint: String,
    pub region: String,
    pub access_key_id: String,
    pub secret_access_key: String,
    /// The key pair is static: it has no session token.
    pub session_token: Option<String>,
    /// When the key pair expires, in seconds since the Unix epoch. A
    /// static pair never does.
    pub expires_after: Option<u64>,
    pub provider_name: &'static str,
    /// Buckets are addressed in the path, not in the host name.
    pub force_path_style: bool,
}

/// The settings that `config` asks for.
pub open spec fn settings_match(settings: ClientSettings, config: S3Config) -> bool {
    &&& settings.endpoint@ == config.endpoint@
    &&& settings.region@ == effective_region_spec(config.region@)
    &&& settings.access_key_id@ == config.access_key_id@
    &&& settings.secret_access_key@ == config.secret_access_key@
    &&& settings.session_token is None
    &&& settings.expires_after is None
    &&& settings.provider_name@ == credentials_provider_name()
    &&& settings.force_path_style
}

/// Normalizes a configured region name.
pub fn effective_region(region: &str) -> (res: String)
    ensures
        res@ == effective_region_spec(region@),
{
    let given = region.to_string();
    let auto = "auto".to_string();
    if region.unicode_len() == 0 || given == auto {
        "us-east-1".to_string()
    } else {
        given
    }
}

/// Derives the client settings from a connection configuration: the
/// endpoint and the key pair as configured, the region normalized, and
/// path-style addressing switched on, as services other than AWS need it.
pub fn client_settings(config: &S3Config) -> (res: ClientSettings)
    ensures
        settings_match(res, *config),
{
    ClientSettings {
        endpoint: config.endpoint.clone(),
        region: effective_region(config.region.as_str()),
        access_key_id: config.access_key_id.clone(),
        secret_access_key: config.secret_access_key.clone(),
        session_token: None,
        expires_after: None,
        provider_name: "custom",
        force_path_style: true,
    }
}

} // verus!
