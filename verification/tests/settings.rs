use memefinder::auth::check_secret;
use memefinder::auth::login;
use memefinder::auth::parse_flag;
use memefinder::auth::AuthData;
use memefinder::auth::LoginError;
use memefinder::auth::LoginRequest;
use memefinder::auth::NeedAuth;
use memefinder::config::admin_token;
use memefinder::config::cookie_secure;
use memefinder::config::cors_origin;
use memefinder::config::get_config;
use memefinder::config::images_dir;
use memefinder::error::ServiceError;
use memefinder::identity::Identity;
use memefinder::models::ImageInfo;
use memefinder::models::ImagePatch;
use memefinder::models::Status;

#[test]
fn config_takes_defaults_where_nothing_is_configured() {
    let config = get_config(None, None);
    assert_eq!(config.meili_url, "http://localhost:7700");
    assert_eq!(config.meili_key, "key");
    let config = get_config(Some("http://index:1".to_string()), Some(String::new()));
    assert_eq!(config.meili_url, "http://index:1");
    assert_eq!(config.meili_key, "");
    assert_eq!(images_dir(None), "./storage/images");
    assert_eq!(images_dir(Some("/data".to_string())), "/data");
    assert_eq!(admin_token(None), "token");
    assert_eq!(cookie_secure(None), "false");
    assert_eq!(cors_origin(None), "https://memefinder.ru");
    assert_eq!(cors_origin(Some("https://a.example".to_string())), "https://a.example");
}

#[test]
fn secret_check_is_equality() {
    assert!(check_secret("token", "token"));
    assert!(check_secret("", ""));
    assert!(!check_secret("token", "Token"));
    assert!(!check_secret("token", "token "));
    assert!(!check_secret("", "token"));
}

#[test]
fn cookie_decides_who_is_administrator() {
    assert!(AuthData::from_cookie(Some("s3cret"), "s3cret").admin);
    assert!(!AuthData::from_cookie(Some("guess"), "s3cret").admin);
    assert!(!AuthData::from_cookie(None, "s3cret").admin);
    assert!(!AuthData::from_cookie(None, "no").admin);
    assert!(!AuthData::from_cookie(None, "").admin);
    assert!(AuthData::from_cookie(Some("no"), "no").admin);
    assert_eq!(NeedAuth::from_cookie(None, "no").unwrap_err(), ServiceError::Auth);
    assert!(NeedAuth::from_auth_data(&AuthData { admin: true }).is_ok());
    assert_eq!(NeedAuth::from_auth_data(&AuthData { admin: false }).unwrap_err(), ServiceError::Auth);
    assert!(NeedAuth::from_cookie(Some("s3cret"), "s3cret").is_ok());
    assert_eq!(NeedAuth::from_cookie(None, "s3cret").unwrap_err(), ServiceError::Auth);
}

#[test]
fn login_sets_the_cookie_for_the_right_token_only() {
    let cookie = login(LoginRequest { token: "s3cret".to_string() }, "s3cret", "true").unwrap();
    assert_eq!(cookie.name, "auth");
    assert_eq!(cookie.value, "s3cret");
    assert_eq!(cookie.path, "/");
    assert!(cookie.secure);
    assert!(cookie.http_only);
    let cookie = login(LoginRequest { token: "s3cret".to_string() }, "s3cret", "false").unwrap();
    assert!(!cookie.secure);
    let refused = login(LoginRequest { token: "guess".to_string() }, "s3cret", "false");
    assert_eq!(refused.unwrap_err(), LoginError::InvalidToken);
    let refused = login(LoginRequest { token: "guess".to_string() }, "s3cret", "yes");
    assert_eq!(refused.unwrap_err(), LoginError::InvalidToken);
    let refused = login(LoginRequest { token: "s3cret".to_string() }, "s3cret", "yes");
    assert_eq!(refused.unwrap_err(), LoginError::InvalidSecureFlag);
}

#[test]
fn flags_are_true_or_false_exactly() {
    assert_eq!(parse_flag("true"), Some(true));
    assert_eq!(parse_flag("false"), Some(false));
    assert_eq!(parse_flag("True"), None);
    assert_eq!(parse_flag(""), None);
    assert_eq!(parse_flag("1"), None);
}

#[test]
fn new_record_is_a_blank_draft() {
    let info = ImageInfo::new();
    assert_eq!(info.status, Status::Draft);
    assert!(info.name.is_none() && info.description.is_none());
    assert!(info.text.is_none() && info.tags.is_none());
    assert_ne!(info.id, ImageInfo::new().id);
    let blank = ImageInfo::blank(Identity::new(5));
    assert_eq!(blank.id, Identity::new(5));
    assert_eq!(blank.status, Status::Draft);
}

#[test]
fn patch_replaces_what_it_holds_and_keeps_the_rest() {
    let named = ImageInfo::named(Identity::new(9), "cat".to_string());
    assert_eq!(named.name.as_deref(), Some("cat"));
    assert!(named.description.is_none() && named.text.is_none() && named.tags.is_none());
    assert_eq!(named.status, Status::Draft);
    let record = ImageInfo {
        description: Some("a cat".to_string()),
        tags: Some(vec!["animal".to_string()]),
        ..named
    };
    let patch = ImagePatch {
        name: Some("dog".to_string()),
        description: None,
        text: Some("woof".to_string()),
        tags: None,
        status: Some(Status::Published),
    };
    let patched = record.apply(patch);
    assert_eq!(patched.id, Identity::new(9));
    assert_eq!(patched.name.as_deref(), Some("dog"));
    assert_eq!(patched.description.as_deref(), Some("a cat"));
    assert_eq!(patched.text.as_deref(), Some("woof"));
    assert_eq!(patched.tags, Some(vec!["animal".to_string()]));
    assert_eq!(patched.status, Status::Published);
}

#[test]
fn failures_describe_themselves() {
    assert_eq!(ServiceError::Decode.message(), "the image could not be decoded");
    assert_eq!(ServiceError::Encode.message(), "the image could not be encoded");
    assert_eq!(ServiceError::Store.message(), "the store failed");
    assert_eq!(ServiceError::Index.message(), "the index failed");
    assert_eq!(ServiceError::Auth.message(), "not authorized");
}
