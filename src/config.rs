use vstd::prelude::*;

verus! {

pub const DEFAULT_LISTEN_ADDR: &'static str = "[::1]:50051";

pub const DEFAULT_REDIS_URL: &'static str = "redis://localhost:6379";

pub const DEFAULT_POSTGRES_URL: &'static str = "postgresql://localhost:5432/agp";

pub const DEFAULT_TLS_CERT_PATH: &'static str = "./configs/tls/server.crt";

pub const DEFAULT_TLS_KEY_PATH: &'static str = "./configs/tls/server.key";

pub const DEFAULT_OAUTH2_ENDPOINT: &'static str = "http://localhost:8080/auth";

/// The text of `setting`, or `default` when the setting is absent.
pub open spec fn setting_or(setting: Option<String>, default: Seq<char>) -> Seq<char> {
    match setting {
        Some(s) => s@,
        None => default,
    }
}

/// Relies on `<bool as FromStr>::from_str`: exactly `"true"` and `"false"` parse,
/// every other text is an error.
#[verifier::external_body]
fn parse_bool(s: &str) -> (r: Option<bool>)
    ensures
        r == (if s@ == "true"@ {
            Some(true)
        } else if s@ == "false"@ {
            Some(false)
        } else {
            None
        }),
{
    <bool as std::str::FromStr>::from_str(s).ok()
}

/// Startup configuration of the gateway.
#[derive(Clone)]
pub struct GatewayConfig {
    pub listen_addr: String,
    pub redis_url: String,
    pub postgres_url: String,
    pub tls_cert_path: String,
    pub tls_key_path: String,
    pub enable_mtls: bool,
    pub oauth2_endpoint: String,
}

/// The setting's text, or `default` when it is absent.
fn or_default(setting: Option<String>, default: &str) -> (r: String)
    ensures
        r@ == setting_or(setting, default@),
{
    match setting {
        Some(s) => s,
        None => String::from_str(default),
    }
}

impl GatewayConfig {
    /// Builds the configuration from the settings that were found, each `None` where
    /// the setting is absent. An absent setting takes its default; mutual TLS is on
    /// only when its setting is exactly `"true"`, and an unreadable value counts as off.
    pub fn from_settings(
        listen_addr: Option<String>,
        redis_url: Option<String>,
        postgres_url: Option<String>,
        tls_cert_path: Option<String>,
        tls_key_path: Option<String>,
        enable_mtls: Option<String>,
        oauth2_endpoint: Option<String>,
    ) -> (r: GatewayConfig)
        ensures
            r.listen_addr@ == setting_or(listen_addr, DEFAULT_LISTEN_ADDR@),
            r.redis_url@ == setting_or(redis_url, DEFAULT_REDIS_URL@),
            r.postgres_url@ == setting_or(postgres_url, DEFAULT_POSTGRES_URL@),
            r.tls_cert_path@ == setting_or(tls_cert_path, DEFAULT_TLS_CERT_PATH@),
            r.tls_key_path@ == setting_or(tls_key_path, DEFAULT_TLS_KEY_PATH@),
            r.enable_mtls == (enable_mtls matches Some(s) && s@ == "true"@),
            r.oauth2_endpoint@ == setting_or(oauth2_endpoint, DEFAULT_OAUTH2_ENDPOINT@),
    {
        let mtls = match enable_mtls {
            Some(s) => match parse_bool(s.as_str()) {
                Some(b) => b,
                None => false,
            },
            None => false,
        };
        GatewayConfig {
            listen_addr: or_default(listen_addr, DEFAULT_LISTEN_ADDR),
            redis_url: or_default(redis_url, DEFAULT_REDIS_URL),
            postgres_url: or_default(postgres_url, DEFAULT_POSTGRES_URL),
            tls_cert_path: or_default(tls_cert_path, DEFAULT_TLS_CERT_PATH),
            tls_key_path: or_default(tls_key_path, DEFAULT_TLS_KEY_PATH),
            enable_mtls: mtls,
            oauth2_endpoint: or_default(oauth2_endpoint, DEFAULT_OAUTH2_ENDPOINT),
        }
    }
}

} // verus!
