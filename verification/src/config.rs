//! The settings of the service and their defaults.
//!
//! Every setting comes from the environment where the environment holds it,
//! and has a default where it does not. Reading the environment is the
//! caller's part; what is read is handed in as optional values.

use vstd::prelude::*;

verus! {

/// The variable that holds the address of the index.
pub const MEILI_URL_VARIABLE: &'static str = "MEILI_URL";

/// The variable that holds the key of the index.
pub const MEILI_KEY_VARIABLE: &'static str = "MEILI_MASTER_KEY";

/// The variable that holds the base directory of the store.
pub const IMAGES_DIR_VARIABLE: &'static str = "IMAGES_DIR";

/// The variable that holds the administrator's secret.
pub const ADMIN_TOKEN_VARIABLE: &'static str = "ADMIN_TOKEN";

/// The variable that holds the cookie-secure flag.
pub const COOKIE_SECURE_VARIABLE: &'static str = "COOKIE_SECURE";

/// The variable that holds the origin that may call across sites.
pub const CORS_ORIGIN_VARIABLE: &'static str = "CORS_ORIGIN";

/// The address of the index where none is configured.
pub const DEFAULT_MEILI_URL: &'static str = "http://localhost:7700";

/// The key of the index where none is configured.
pub const DEFAULT_MEILI_KEY: &'static str = "key";

/// The base directory of the store where none is configured.
pub const DEFAULT_IMAGES_DIR: &'static str = "./storage/images";

/// The administrator's secret where none is configured.
pub const DEFAULT_ADMIN_TOKEN: &'static str = "token";

/// The cookie-secure flag where none is configured.
pub const DEFAULT_COOKIE_SECURE: &'static str = "false";

/// The origin that may call across sites where none is configured.
pub const DEFAULT_CORS_ORIGIN: &'static str = "https://memefinder.ru";

/// How to reach the index.
#[derive(Clone, Debug)]
pub struct Config {
    pub meili_url: String,
    pub meili_key: String,
}

/// The value of a setting: the configured one, or the default.
pub open spec fn setting(configured: Option<String>, default: &str) -> Seq<char> {
    match configured {
        Some(value) => value@,
        None => default@,
    }
}

/// Picks the configured value of a setting, or its default.
pub fn setting_or(configured: Option<String>, default: &str) -> (value: String)
    ensures
        value@ == setting(configured, default),
{
    match configured {
        Some(value) => value,
        None => default.to_owned(),
    }
}

/// Builds the configuration of the index from what the environment holds
/// under `MEILI_URL_VARIABLE` and `MEILI_KEY_VARIABLE`.
pub fn get_config(meili_url: Option<String>, meili_key: Option<String>) -> (config: Config)
    ensures
        config.meili_url@ == setting(meili_url, DEFAULT_MEILI_URL),
        config.meili_key@ == setting(meili_key, DEFAULT_MEILI_KEY),
{
    Config {
        meili_url: setting_or(meili_url, DEFAULT_MEILI_URL),
        meili_key: setting_or(meili_key, DEFAULT_MEILI_KEY),
    }
}

/// The base directory of the store, from what the environment holds under
/// `IMAGES_DIR_VARIABLE`.
pub fn images_dir(configured: Option<String>) -> (dir: String)
    ensures
        dir@ == setting(configured, DEFAULT_IMAGES_DIR),
{
    setting_or(configured, DEFAULT_IMAGES_DIR)
}

/// The administrator's secret, from what the environment holds under
/// `ADMIN_TOKEN_VARIABLE`.
pub fn admin_token(configured: Option<String>) -> (token: String)
    ensures
        token@ == setting(configured, DEFAULT_ADMIN_TOKEN),
{
    setting_or(configured, DEFAULT_ADMIN_TOKEN)
}

/// The cookie-secure flag as text, from what the environment holds under
/// `COOKIE_SECURE_VARIABLE`.
pub fn cookie_secure(configured: Option<String>) -> (flag: String)
    ensures
        flag@ == setting(configured, DEFAULT_COOKIE_SECURE),
{
    setting_or(configured, DEFAULT_COOKIE_SECURE)
}

/// The origin that may call across sites, from what the environment holds
/// under `CORS_ORIGIN_VARIABLE`.
pub fn cors_origin(configured: Option<String>) -> (origin: String)
    ensures
        origin@ == setting(configured, DEFAULT_CORS_ORIGIN),
{
    setting_or(configured, DEFAULT_CORS_ORIGIN)
}

} // verus!
