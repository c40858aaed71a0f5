use hmac::Mac;
use spacebar_gateway::config::{
    ApiConfiguration, AuthRateLimit, AutoUpdate, CdnConfiguration, GeneralConfiguration, GifConfiguration,
    GlobalRateLimits, LimitsConfiguration, RabbitMQConfiguration, RateLimits, RegisterConfiguration,
    SecurityConfiguration, UserConfiguration,
};
use spacebar_gateway::models::LoginRequest;
use spacebar_gateway::number::parse_unsigned;
use spacebar_gateway::signature::has_valid_signature;
use spacebar_gateway::storage::LocalStorage;

fn login(password: &str) -> LoginRequest {
    LoginRequest {
        login: "user@example.com".to_string(),
        password: password.to_string(),
        undelete: None,
        captcha_key: None,
        login_source: None,
        gift_code_sku_id: None,
    }
}

#[test]
fn password_length_bounds() {
    let msg = Err("password length must be between 1 and 72 characters".to_string());
    assert_eq!(login("").validate(), msg);
    assert_eq!(login("a").validate(), Ok(()));
    assert_eq!(login(&"x".repeat(72)).validate(), Ok(()));
    assert_eq!(login(&"x".repeat(73)).validate(), msg);
    // 72 characters but 144 bytes: characters are what counts.
    assert_eq!(login(&"é".repeat(72)).validate(), Ok(()));
}

#[test]
fn configuration_defaults() {
    let cdn = CdnConfiguration::default();
    assert_eq!(cdn.resize_height_max, 1000);
    assert_eq!(cdn.proxy_cache_header_seconds, 86400);
    assert!(cdn.endpoint.endpoint_public.is_none());
    let api = ApiConfiguration::default();
    assert_eq!(api.default_version, "9");
    assert_eq!(api.active_versions, vec!["6", "7", "8", "9"]);
    let general = GeneralConfiguration::default();
    assert_eq!(general.instance_name, "Spacebar Instance");
    assert_eq!(general.instance_id, "0");
    assert_eq!(GifConfiguration::default().provider, "tenor");
    assert!(RabbitMQConfiguration::default().host.is_none());
    let users = UserConfiguration::default();
    assert_eq!(users.blocked_equals, vec!["everyone", "here"]);
    assert_eq!(RegisterConfiguration::default().default_rights, "875069521787904");
    assert_eq!(RegisterConfiguration::default().date_of_birth.minimum, 13);
    let security = SecurityConfiguration::default();
    assert_eq!(security.auto_update, AutoUpdate::Bool(true));
    assert_eq!(security.default_registration_token_expiration, 604_800_000);
    assert_eq!(security.cdn_signature_duration, "24h");
    assert_eq!(AutoUpdate::default(), AutoUpdate::Bool(true));
}

#[test]
fn rate_limit_defaults() {
    let rate = RateLimits::default();
    assert!(!rate.enabled);
    assert_eq!((rate.ip.count, rate.ip.window), (500, 5));
    assert_eq!((rate.global.count, rate.global.window), (250, 5));
    assert_eq!((rate.error.count, rate.error.window), (10, 5));
    assert_eq!((rate.routes.guild.count, rate.routes.webhook.count), (5, 10));
    let auth = AuthRateLimit::default();
    assert_eq!((auth.register.count, auth.register.window), (2, 43200));
    assert!(auth.login.bot.is_none());
    let global = GlobalRateLimits::default();
    assert_eq!(global.register.window, 3_600_000);
    assert_eq!(global.send_message.limit, 200);
    let limits = LimitsConfiguration::default();
    assert_eq!(limits.message.max_attachment_size, 1 << 30);
    assert_eq!(limits.guild.max_members, 25_000_000);
}

#[test]
fn radix_reading() {
    assert_eq!(parse_unsigned("ff", 16, u64::MAX), Some(255));
    assert_eq!(parse_unsigned("FF", 16, u64::MAX), Some(255));
    assert_eq!(parse_unsigned("+1a", 16, u64::MAX), Some(26));
    assert_eq!(parse_unsigned("ffffffffffffffff", 16, u64::MAX), Some(u64::MAX));
    assert_eq!(parse_unsigned("10000000000000000", 16, u64::MAX), None);
    assert_eq!(parse_unsigned("", 16, u64::MAX), None);
    assert_eq!(parse_unsigned("g", 16, u64::MAX), None);
    assert_eq!(parse_unsigned("0x10", 16, u64::MAX), None);
    for s in ["0", "abc", "DEAD", "+", "-1", "18446744073709551615"] {
        assert_eq!(parse_unsigned(s, 16, u64::MAX), u64::from_str_radix(s, 16).ok(), "{}", s);
        assert_eq!(parse_unsigned(s, 10, u64::MAX), u64::from_str_radix(s, 10).ok(), "{}", s);
    }
}

fn sign(key: &str, message: &str) -> String {
    let mut mac = hmac::Hmac::<sha2::Sha256>::new_from_slice(key.as_bytes()).unwrap();
    mac.update(message.as_bytes());
    hex::encode(mac.finalize().into_bytes())
}

fn security(key: &str, ip: bool, ua: bool) -> SecurityConfiguration {
    let mut s = SecurityConfiguration::default();
    s.cdn_signature_key = key.to_string();
    s.cdn_signature_include_ip = ip;
    s.cdn_signature_include_user_agent = ua;
    s
}

#[test]
fn signed_url_checks() {
    let now: u64 = 0x1900_0000_000;
    let is = format!("{:x}", now - 1000);
    let ex = format!("{:x}", now + 1000);
    let path = "/attachments/1/2/a.png";
    let sec = security("k3y", true, true);
    let tag = sign("k3y", &format!("{}{}{}{}{}", path, is, ex, "10.0.0.1", "agent"));
    assert!(has_valid_signature(path, &ex, &is, &tag, Some("10.0.0.1"), Some("agent"), &sec, now));
    assert!(has_valid_signature(path, &ex, &is, &tag.to_uppercase(), Some("10.0.0.1"), Some("agent"), &sec, now));
    assert!(!has_valid_signature(path, &ex, &is, &tag, Some("10.0.0.2"), Some("agent"), &sec, now));
    assert!(!has_valid_signature("/other", &ex, &is, &tag, Some("10.0.0.1"), Some("agent"), &sec, now));
    assert!(!has_valid_signature(path, &ex, &is, &tag, Some("10.0.0.1"), Some("agent"), &security("other", true, true), now));
    assert!(!has_valid_signature(path, &ex, &is, &tag, Some("10.0.0.1"), Some("agent"), &sec, now + 1001));
    assert!(!has_valid_signature(path, &ex, &is, &tag, Some("10.0.0.1"), Some("agent"), &sec, now - 1001));
    assert!(!has_valid_signature(path, "zz", &is, &tag, Some("10.0.0.1"), Some("agent"), &sec, now));
    assert!(!has_valid_signature(path, &ex, &is, "not hex", Some("10.0.0.1"), Some("agent"), &sec, now));
    assert!(!has_valid_signature(path, &ex, &is, "", Some("10.0.0.1"), Some("agent"), &sec, now));
    // Without the address and agent bound in, they are not part of the message.
    let loose = security("k3y", false, false);
    let tag = sign("k3y", &format!("{}{}{}", path, is, ex));
    assert!(has_valid_signature(path, &ex, &is, &tag, Some("10.0.0.9"), None, &loose, now));
    assert!(has_valid_signature(path, &ex, &is, &tag, None, None, &sec, now));
}

#[test]
fn local_storage_root() {
    let s = LocalStorage::new(std::path::PathBuf::from("files"));
    assert_eq!(s.root(), &std::path::PathBuf::from("files"));
}
