//! Instance configuration and the defaults that apply where a setting is absent.
use vstd::prelude::*;

verus! {

/// `o` holds a string equal to `s`.
pub open spec fn holds_str(o: Option<String>, s: Seq<char>) -> bool {
    match o {
        Some(v) => v@ == s,
        None => false,
    }
}

/// The texts of a list of strings.
pub open spec fn texts(v: Seq<String>) -> Seq<Seq<char>> {
    v.map_values(|x: String| x@)
}

/// Automatic updates: on or off, or a numeric setting.
#[derive(Debug, Clone, Copy, PartialEq, Eq, Structural)]
pub enum AutoUpdate {
    Bool(bool),
    Number(u64),
}

impl Default for AutoUpdate {
    fn default() -> (r: Self)
        ensures
            r == AutoUpdate::Bool(true),
    {
        AutoUpdate::Bool(true)
    }
}

/// Where an endpoint is reachable.
#[derive(Debug, Clone)]
pub struct EndpointConfiguration {
    pub endpoint_client: Option<String>,
    pub endpoint_private: Option<String>,
    pub endpoint_public: Option<String>,
}

impl EndpointConfiguration {
    /// Every setting holds its default.
    pub open spec fn is_default(&self) -> bool {
        &&& self.endpoint_client is None
        &&& self.endpoint_private is None
        &&& self.endpoint_public is None
    }
}

impl Default for EndpointConfiguration {
    fn default() -> (r: Self)
        ensures
            r.is_default(),
    {
        EndpointConfiguration {
            endpoint_client: None,
            endpoint_private: None,
            endpoint_public: None,
        }
    }
}

/// Content delivery settings.
#[derive(Debug, Clone)]
pub struct CdnConfiguration {
    pub endpoint: EndpointConfiguration,
    pub resize_height_max: u32,
    pub resize_width_max: u32,
    pub imagor_server_url: Option<String>,
    pub proxy_cache_header_seconds: u32,
}

impl CdnConfiguration {
    /// Every setting holds its default.
    pub open spec fn is_default(&self) -> bool {
        &&& self.endpoint.is_default()
        &&& self.resize_height_max == 1000
        &&& self.resize_width_max == 1000
        &&& self.imagor_server_url is None
        &&& self.proxy_cache_header_seconds == 60 * 60 * 24
    }
}

impl Default for CdnConfiguration {
    fn default() -> (r: Self)
        ensures
            r.is_default(),
    {
        CdnConfiguration {
            endpoint: EndpointConfiguration::default(),
            resize_height_max: 1000,
            resize_width_max: 1000,
            imagor_server_url: None,
            proxy_cache_header_seconds: 60 * 60 * 24,
        }
    }
}

/// HTTP API versions.
#[derive(Debug, Clone)]
pub struct ApiConfiguration {
    pub default_version: String,
    pub active_versions: Vec<String>,
    pub endpoint_public: Option<String>,
}

impl ApiConfiguration {
    /// Every setting holds its default.
    pub open spec fn is_default(&self) -> bool {
        &&& self.default_version@ == "9"@
        &&& texts(self.active_versions@) == seq!["6"@, "7"@, "8"@, "9"@]
        &&& self.endpoint_public is None
    }
}

impl Default for ApiConfiguration {
    fn default() -> (r: Self)
        ensures
            r.is_default(),
    {
        let r = ApiConfiguration {
            default_version: String::from_str("9"),
            active_versions: vec![String::from_str("6"), String::from_str("7"), String::from_str("8"), String::from_str("9")],
            endpoint_public: None,
        };
        assert(texts(r.active_versions@) =~= seq!["6"@, "7"@, "8"@, "9"@]);
        r
    }
}

/// How the instance presents itself.
#[derive(Debug, Clone)]
pub struct GeneralConfiguration {
    pub instance_name: String,
    pub instance_description: Option<String>,
    pub front_page: Option<String>,
    pub tos_page: Option<String>,
    pub correspondence_email: Option<String>,
    pub correspondence_user_id: Option<String>,
    pub image: Option<String>,
    pub instance_id: String,
    pub auto_create_bot_users: bool,
}

impl GeneralConfiguration {
    /// Every setting holds its default.
    pub open spec fn is_default(&self) -> bool {
        &&& self.instance_name@ == "Spacebar Instance"@
        &&& holds_str(self.instance_description, "This is a Spacebar instance made in the pre-release days"@)
        &&& self.front_page is None
        &&& self.tos_page is None
        &&& self.correspondence_email is None
        &&& self.correspondence_user_id is None
        &&& self.image is None
        &&& self.instance_id@ == "0"@
        &&& !self.auto_create_bot_users
    }
}

impl Default for GeneralConfiguration {
    fn default() -> (r: Self)
        ensures
            r.is_default(),
    {
        GeneralConfiguration {
            instance_name: String::from_str("Spacebar Instance"),
            instance_description: Some(String::from_str("This is a Spacebar instance made in the pre-release days")),
            front_page: None,
            tos_page: None,
            correspondence_email: None,
            correspondence_user_id: None,
            image: None,
            instance_id: String::from_str("0"),
            auto_create_bot_users: false,
        }
    }
}

/// GIF search provider.
#[derive(Debug, Clone)]
pub struct GifConfiguration {
    pub enabled: bool,
    pub provider: String,
    pub api_key: Option<String>,
}

impl GifConfiguration {
    /// Every setting holds its default.
    pub open spec fn is_default(&self) -> bool {
        &&& self.enabled
        &&& self.provider@ == "tenor"@
        &&& holds_str(self.api_key, "LIVDSRZULELA"@)
    }
}

impl Default for GifConfiguration {
    fn default() -> (r: Self)
        ensures
            r.is_default(),
    {
        GifConfiguration {
            enabled: true,
            provider: String::from_str("tenor"),
            api_key: Some(String::from_str("LIVDSRZULELA")),
        }
    }
}

/// Address of the message broker behind the event bus, if any.
#[derive(Debug, Clone)]
pub struct RabbitMQConfiguration {
    pub host: Option<String>,
}

impl RabbitMQConfiguration {
    /// Every setting holds its default.
    pub open spec fn is_default(&self) -> bool {
        &&& self.host is None
    }
}

impl Default for RabbitMQConfiguration {
    fn default() -> (r: Self)
        ensures
            r.is_default(),
    {
        RabbitMQConfiguration {
            host: None,
        }
    }
}

/// One Kafka broker address.
#[derive(Debug, Clone)]
pub struct KafkaBroker {
    pub ip: String,
    pub port: u16,
}

/// Kafka brokers, if any.
#[derive(Debug, Clone)]
pub struct KafkaConfiguration {
    pub brokers: Option<Vec<KafkaBroker>>,
}

impl KafkaConfiguration {
    /// Every setting holds its default.
    pub open spec fn is_default(&self) -> bool {
        &&& self.brokers is None
    }
}

impl Default for KafkaConfiguration {
    fn default() -> (r: Self)
        ensures
            r.is_default(),
    {
        KafkaConfiguration {
            brokers: None,
        }
    }
}

/// Guild templates.
#[derive(Debug, Clone)]
pub struct TemplateConfiguration {
    pub enabled: bool,
    pub allow_template_creation: bool,
    pub allow_discord_templates: bool,
    pub allow_raws: bool,
}

impl TemplateConfiguration {
    /// Every setting holds its default.
    pub open spec fn is_default(&self) -> bool {
        &&& self.enabled
        &&& self.allow_template_creation
        &&& self.allow_discord_templates
        &&& self.allow_raws
    }
}

impl Default for TemplateConfiguration {
    fn default() -> (r: Self)
        ensures
            r.is_default(),
    {
        TemplateConfiguration {
            enabled: true,
            allow_template_creation: true,
            allow_discord_templates: true,
            allow_raws: true,
        }
    }
}

/// Metrics collection.
#[derive(Debug, Clone)]
pub struct MetricsConfiguration {
    pub timeout: u32,
}

impl MetricsConfiguration {
    /// Every setting holds its default.
    pub open spec fn is_default(&self) -> bool {
        &&& self.timeout == 30000
    }
}

impl Default for MetricsConfiguration {
    fn default() -> (r: Self)
        ensures
            r.is_default(),
    {
        MetricsConfiguration {
            timeout: 30000,
        }
    }
}

/// Settings a new guild starts with.
#[derive(Debug, Clone)]
pub struct GuildDefaults {
    pub max_presences: u32,
    pub max_video_channel_users: u32,
    pub afk_timeout: u32,
    pub default_message_notifications: u32,
    pub explicit_content_filter: u32,
}

impl GuildDefaults {
    /// Every setting holds its default.
    pub open spec fn is_default(&self) -> bool {
        &&& self.max_presences == 250000
        &&& self.max_video_channel_users == 200
        &&& self.afk_timeout == 300
        &&& self.default_message_notifications == 1
        &&& self.explicit_content_filter == 0
    }
}

impl Default for GuildDefaults {
    fn default() -> (r: Self)
        ensures
            r.is_default(),
    {
        GuildDefaults {
            max_presences: 250000,
            max_video_channel_users: 200,
            afk_timeout: 300,
            default_message_notifications: 1,
            explicit_content_filter: 0,
        }
    }
}

/// Settings a new user starts with.
#[derive(Debug, Clone)]
pub struct UserDefaults {
    pub premium: bool,
    pub premium_type: u32,
    pub verified: bool,
}

impl UserDefaults {
    /// Every setting holds its default.
    pub open spec fn is_default(&self) -> bool {
        &&& self.premium
        &&& self.premium_type == 2
        &&& self.verified
    }
}

impl Default for UserDefaults {
    fn default() -> (r: Self)
        ensures
            r.is_default(),
    {
        UserDefaults {
            premium: true,
            premium_type: 2,
            verified: true,
        }
    }
}

/// Starting settings of new guilds and users.
#[derive(Debug, Clone)]
pub struct DefaultsConfiguration {
    pub guild: GuildDefaults,
    pub user: UserDefaults,
}

impl DefaultsConfiguration {
    /// Every setting holds its default.
    pub open spec fn is_default(&self) -> bool {
        &&& self.guild.is_default()
        &&& self.user.is_default()
    }
}

impl Default for DefaultsConfiguration {
    fn default() -> (r: Self)
        ensures
            r.is_default(),
    {
        DefaultsConfiguration {
            guild: GuildDefaults::default(),
            user: UserDefaults::default(),
        }
    }
}

/// Tokens for outside services.
#[derive(Debug, Clone)]
pub struct ExternalTokensConfiguration {
    pub twitter: Option<String>,
}

impl ExternalTokensConfiguration {
    /// Every setting holds its default.
    pub open spec fn is_default(&self) -> bool {
        &&& self.twitter is None
    }
}

impl Default for ExternalTokensConfiguration {
    fn default() -> (r: Self)
        ensures
            r.is_default(),
    {
        ExternalTokensConfiguration {
            twitter: None,
        }
    }
}

/// SMTP relay settings.
#[derive(Debug, Clone)]
pub struct SMTPConfiguration {
    pub host: Option<String>,
    pub port: Option<u16>,
    pub secure: Option<bool>,
    pub username: Option<String>,
    pub password: Option<String>,
}

impl SMTPConfiguration {
    /// Every setting holds its default.
    pub open spec fn is_default(&self) -> bool {
        &&& self.host is None
        &&& self.port is None
        &&& self.secure is None
        &&& self.username is None
        &&& self.password is None
    }
}

impl Default for SMTPConfiguration {
    fn default() -> (r: Self)
        ensures
            r.is_default(),
    {
        SMTPConfiguration {
            host: None,
            port: None,
            secure: None,
            username: None,
            password: None,
        }
    }
}

/// Mailgun settings.
#[derive(Debug, Clone)]
pub struct MailGunConfiguration {
    pub api_key: Option<String>,
    pub domain: Option<String>,
}

impl MailGunConfiguration {
    /// Every setting holds its default.
    pub open spec fn is_default(&self) -> bool {
        &&& self.api_key is None
        &&& self.domain is None
    }
}

impl Default for MailGunConfiguration {
    fn default() -> (r: Self)
        ensures
            r.is_default(),
    {
        MailGunConfiguration {
            api_key: None,
            domain: None,
        }
    }
}

/// Mailjet settings.
#[derive(Debug, Clone)]
pub struct MailJetConfiguration {
    pub api_key: Option<String>,
    pub api_secret: Option<String>,
}

impl MailJetConfiguration {
    /// Every setting holds its default.
    pub open spec fn is_default(&self) -> bool {
        &&& self.api_key is None
        &&& self.api_secret is None
    }
}

impl Default for MailJetConfiguration {
    fn default() -> (r: Self)
        ensures
            r.is_default(),
    {
        MailJetConfiguration {
            api_key: None,
            api_secret: None,
        }
    }
}

/// SendGrid settings.
#[derive(Debug, Clone)]
pub struct SendGridConfiguration {
    pub api_key: Option<String>,
}

impl SendGridConfiguration {
    /// Every setting holds its default.
    pub open spec fn is_default(&self) -> bool {
        &&& self.api_key is None
    }
}

impl Default for SendGridConfiguration {
    fn default() -> (r: Self)
        ensures
            r.is_default(),
    {
        SendGridConfiguration {
            api_key: None,
        }
    }
}

/// Outbound email.
#[derive(Debug, Clone)]
pub struct EmailConfiguration {
    pub provider: Option<String>,
    pub sender_address: Option<String>,
    pub smtp: SMTPConfiguration,
    pub mailgun: MailGunConfiguration,
    pub mailjet: MailJetConfiguration,
    pub sendgrid: SendGridConfiguration,
}

impl EmailConfiguration {
    /// Every setting holds its default.
    pub open spec fn is_default(&self) -> bool {
        &&& self.provider is None
        &&& self.sender_address is None
        &&& self.smtp.is_default()
        &&& self.mailgun.is_default()
        &&& self.mailjet.is_default()
        &&& self.sendgrid.is_default()
    }
}

impl Default for EmailConfiguration {
    fn default() -> (r: Self)
        ensures
            r.is_default(),
    {
        EmailConfiguration {
            provider: None,
            sender_address: None,
            smtp: SMTPConfiguration::default(),
            mailgun: MailGunConfiguration::default(),
            mailjet: MailJetConfiguration::default(),
            sendgrid: SendGridConfiguration::default(),
        }
    }
}

/// Password reset.
#[derive(Debug, Clone)]
pub struct PasswordResetConfiguration {
    pub require_captcha: bool,
}

impl PasswordResetConfiguration {
    /// Every setting holds its default.
    pub open spec fn is_default(&self) -> bool {
        &&& !self.require_captcha
    }
}

impl Default for PasswordResetConfiguration {
    fn default() -> (r: Self)
        ensures
            r.is_default(),
    {
        PasswordResetConfiguration {
            require_captcha: false,
        }
    }
}

/// Names users may not take.
#[derive(Debug, Clone)]
pub struct UserConfiguration {
    pub blocked_contains: Vec<String>,
    pub blocked_equals: Vec<String>,
}

impl UserConfiguration {
    /// Every setting holds its default.
    pub open spec fn is_default(&self) -> bool {
        &&& texts(self.blocked_contains@) == seq!["discord"@, "clyde"@, "spacebar"@]
        &&& texts(self.blocked_equals@) == seq!["everyone"@, "here"@]
    }
}

impl Default for UserConfiguration {
    fn default() -> (r: Self)
        ensures
            r.is_default(),
    {
        let r = UserConfiguration {
            blocked_contains: vec![String::from_str("discord"), String::from_str("clyde"), String::from_str("spacebar")],
            blocked_equals: vec![String::from_str("everyone"), String::from_str("here")],
        };
        assert(texts(r.blocked_contains@) =~= seq!["discord"@, "clyde"@, "spacebar"@]);
        assert(texts(r.blocked_equals@) =~= seq!["everyone"@, "here"@]);
        r
    }
}

/// Guild discovery.
#[derive(Debug, Clone)]
pub struct DiscoveryConfiguration {
    pub show_all_guilds: bool,
    pub use_recommendation: bool,
    pub offset: u32,
    pub limit: u32,
}

impl DiscoveryConfiguration {
    /// Every setting holds its default.
    pub open spec fn is_default(&self) -> bool {
        &&& !self.show_all_guilds
        &&& !self.use_recommendation
        &&& self.offset == 0
        &&& self.limit == 24
    }
}

impl Default for DiscoveryConfiguration {
    fn default() -> (r: Self)
        ensures
            r.is_default(),
    {
        DiscoveryConfiguration {
            show_all_guilds: false,
            use_recommendation: false,
            offset: 0,
            limit: 24,
        }
    }
}

/// Guilds new users join on their own.
#[derive(Debug, Clone)]
pub struct AutoJoinConfiguration {
    pub enabled: bool,
    pub guilds: Vec<String>,
    pub can_leave: bool,
}

impl AutoJoinConfiguration {
    /// Every setting holds its default.
    pub open spec fn is_default(&self) -> bool {
        &&& self.enabled
        &&& self.guilds@.len() == 0
        &&& self.can_leave
    }
}

impl Default for AutoJoinConfiguration {
    fn default() -> (r: Self)
        ensures
            r.is_default(),
    {
        AutoJoinConfiguration {
            enabled: true,
            guilds: Vec::new(),
            can_leave: true,
        }
    }
}

/// Guild-wide settings.
#[derive(Debug, Clone)]
pub struct GuildConfiguration {
    pub discovery: DiscoveryConfiguration,
    pub auto_join: AutoJoinConfiguration,
    pub default_features: Vec<String>,
}

impl GuildConfiguration {
    /// Every setting holds its default.
    pub open spec fn is_default(&self) -> bool {
        &&& self.discovery.is_default()
        &&& self.auto_join.is_default()
        &&& self.default_features@.len() == 0
    }
}

impl Default for GuildConfiguration {
    fn default() -> (r: Self)
        ensures
            r.is_default(),
    {
        GuildConfiguration {
            discovery: DiscoveryConfiguration::default(),
            auto_join: AutoJoinConfiguration::default(),
            default_features: Vec::new(),
        }
    }
}

/// Login requirements.
#[derive(Debug, Clone)]
pub struct LoginConfiguration {
    pub require_captcha: bool,
    pub require_verification: bool,
}

impl LoginConfiguration {
    /// Every setting holds its default.
    pub open spec fn is_default(&self) -> bool {
        &&& !self.require_captcha
        &&& !self.require_verification
    }
}

impl Default for LoginConfiguration {
    fn default() -> (r: Self)
        ensures
            r.is_default(),
    {
        LoginConfiguration {
            require_captcha: false,
            require_verification: false,
        }
    }
}

/// Email requirements at registration.
#[derive(Debug, Clone)]
pub struct RegistrationEmailConfiguration {
    pub required: bool,
    pub allowlist: bool,
    pub blocklist: bool,
    pub domains: Vec<String>,
}

impl RegistrationEmailConfiguration {
    /// Every setting holds its default.
    pub open spec fn is_default(&self) -> bool {
        &&& !self.required
        &&& !self.allowlist
        &&& self.blocklist
        &&& self.domains@.len() == 0
    }
}

impl Default for RegistrationEmailConfiguration {
    fn default() -> (r: Self)
        ensures
            r.is_default(),
    {
        RegistrationEmailConfiguration {
            required: false,
            allowlist: false,
            blocklist: true,
            domains: Vec::new(),
        }
    }
}

/// Date of birth requirements at registration.
#[derive(Debug, Clone)]
pub struct DateOfBirthConfiguration {
    pub required: bool,
    pub minimum: u32,
}

impl DateOfBirthConfiguration {
    /// Every setting holds its default.
    pub open spec fn is_default(&self) -> bool {
        &&& self.required
        &&& self.minimum == 13
    }
}

impl Default for DateOfBirthConfiguration {
    fn default() -> (r: Self)
        ensures
            r.is_default(),
    {
        DateOfBirthConfiguration {
            required: true,
            minimum: 13,
        }
    }
}

/// Password requirements at registration.
#[derive(Debug, Clone)]
pub struct PasswordConfiguration {
    pub required: bool,
    pub min_length: u32,
    pub min_numbers: u32,
    pub min_upper_case: u32,
    pub min_symbols: u32,
}

impl PasswordConfiguration {
    /// Every setting holds its default.
    pub open spec fn is_default(&self) -> bool {
        &&& !self.required
        &&& self.min_length == 8
        &&& self.min_numbers == 2
        &&& self.min_upper_case == 2
        &&& self.min_symbols == 0
    }
}

impl Default for PasswordConfiguration {
    fn default() -> (r: Self)
        ensures
            r.is_default(),
    {
        PasswordConfiguration {
            required: false,
            min_length: 8,
            min_numbers: 2,
            min_upper_case: 2,
            min_symbols: 0,
        }
    }
}

/// Registration.
#[derive(Debug, Clone)]
pub struct RegisterConfiguration {
    pub email: RegistrationEmailConfiguration,
    pub date_of_birth: DateOfBirthConfiguration,
    pub password: PasswordConfiguration,
    pub disabled: bool,
    pub require_captcha: bool,
    pub require_invite: bool,
    pub guests_require_invite: bool,
    pub allow_new_registration: bool,
    pub allow_multiple_accounts: bool,
    pub block_proxies: bool,
    pub incrementing_discriminators: bool,
    pub default_rights: String,
}

impl RegisterConfiguration {
    /// Every setting holds its default.
    pub open spec fn is_default(&self) -> bool {
        &&& self.email.is_default()
        &&& self.date_of_birth.is_default()
        &&& self.password.is_default()
        &&& !self.disabled
        &&& self.require_captcha
        &&& !self.require_invite
        &&& self.guests_require_invite
        &&& self.allow_new_registration
        &&& self.allow_multiple_accounts
        &&& self.block_proxies
        &&& !self.incrementing_discriminators
        &&& self.default_rights@ == "875069521787904"@
    }
}

impl Default for RegisterConfiguration {
    fn default() -> (r: Self)
        ensures
            r.is_default(),
    {
        RegisterConfiguration {
            email: RegistrationEmailConfiguration::default(),
            date_of_birth: DateOfBirthConfiguration::default(),
            password: PasswordConfiguration::default(),
            disabled: false,
            require_captcha: true,
            require_invite: false,
            guests_require_invite: true,
            allow_new_registration: true,
            allow_multiple_accounts: true,
            block_proxies: true,
            incrementing_discriminators: false,
            default_rights: String::from_str("875069521787904"),
        }
    }
}

/// Captcha service.
#[derive(Debug, Clone)]
pub struct CaptchaConfiguration {
    pub enabled: bool,
    pub service: Option<String>,
    pub sitekey: Option<String>,
    pub secret: Option<String>,
}

impl CaptchaConfiguration {
    /// Every setting holds its default.
    pub open spec fn is_default(&self) -> bool {
        &&& !self.enabled
        &&& self.service is None
        &&& self.sitekey is None
        &&& self.secret is None
    }
}

impl Default for CaptchaConfiguration {
    fn default() -> (r: Self)
        ensures
            r.is_default(),
    {
        CaptchaConfiguration {
            enabled: false,
            service: None,
            sitekey: None,
            secret: None,
        }
    }
}

/// Second factor.
#[derive(Debug, Clone)]
pub struct TwoFactorConfiguration {
    pub generate_backup_codes: bool,
}

impl TwoFactorConfiguration {
    /// Every setting holds its default.
    pub open spec fn is_default(&self) -> bool {
        &&& self.generate_backup_codes
    }
}

impl Default for TwoFactorConfiguration {
    fn default() -> (r: Self)
        ensures
            r.is_default(),
    {
        TwoFactorConfiguration {
            generate_backup_codes: true,
        }
    }
}

/// Security settings.
#[derive(Debug, Clone)]
pub struct SecurityConfiguration {
    pub captcha: CaptchaConfiguration,
    pub two_factor: TwoFactorConfiguration,
    pub auto_update: AutoUpdate,
    pub request_signature: String,
    pub jwt_secret: String,
    pub forwarded_for: Option<String>,
    pub trusted_proxies: Option<serde_json::Value>,
    pub ipdata_api_key: Option<String>,
    pub mfa_backup_code_count: u32,
    pub stats_world_readable: bool,
    pub default_registration_token_expiration: u64,
    pub cdn_sign_urls: bool,
    pub cdn_signature_key: String,
    pub cdn_signature_duration: String,
    pub cdn_signature_include_ip: bool,
    pub cdn_signature_include_user_agent: bool,
}

impl SecurityConfiguration {
    /// Every setting holds its default.
    pub open spec fn is_default(&self) -> bool {
        &&& self.captcha.is_default()
        &&& self.two_factor.is_default()
        &&& self.auto_update == AutoUpdate::Bool(true)
        &&& self.request_signature@.len() == 0
        &&& self.jwt_secret@.len() == 0
        &&& self.forwarded_for is None
        &&& self.trusted_proxies is None
        &&& holds_str(self.ipdata_api_key, "eca677b284b3bac29eb72f5e496aa9047f26543605efe99ff2ce35c9"@)
        &&& self.mfa_backup_code_count == 10
        &&& self.stats_world_readable
        &&& self.default_registration_token_expiration == 1000 * 60 * 60 * 24 * 7
        &&& !self.cdn_sign_urls
        &&& self.cdn_signature_key@.len() == 0
        &&& self.cdn_signature_duration@ == "24h"@
        &&& self.cdn_signature_include_ip
        &&& self.cdn_signature_include_user_agent
    }
}

impl Default for SecurityConfiguration {
    fn default() -> (r: Self)
        ensures
            r.is_default(),
    {
        SecurityConfiguration {
            captcha: CaptchaConfiguration::default(),
            two_factor: TwoFactorConfiguration::default(),
            auto_update: AutoUpdate::default(),
            request_signature: String::new(),
            jwt_secret: String::new(),
            forwarded_for: None,
            trusted_proxies: None,
            ipdata_api_key: Some(String::from_str("eca677b284b3bac29eb72f5e496aa9047f26543605efe99ff2ce35c9")),
            mfa_backup_code_count: 10,
            stats_world_readable: true,
            default_registration_token_expiration: 1000 * 60 * 60 * 24 * 7,
            cdn_sign_urls: false,
            cdn_signature_key: String::new(),
            cdn_signature_duration: String::from_str("24h"),
            cdn_signature_include_ip: true,
            cdn_signature_include_user_agent: true,
        }
    }
}

/// Per-user limits.
#[derive(Debug, Clone)]
pub struct UserLimits {
    pub max_guilds: u32,
    pub max_username: u32,
    pub max_friends: u32,
    pub max_bio: u32,
}

impl UserLimits {
    /// Every setting holds its default.
    pub open spec fn is_default(&self) -> bool {
        &&& self.max_guilds == 1048576
        &&& self.max_username == 32
        &&& self.max_friends == 5000
        &&& self.max_bio == 190
    }
}

impl Default for UserLimits {
    fn default() -> (r: Self)
        ensures
            r.is_default(),
    {
        UserLimits {
            max_guilds: 1048576,
            max_username: 32,
            max_friends: 5000,
            max_bio: 190,
        }
    }
}

/// Per-guild limits.
#[derive(Debug, Clone)]
pub struct GuildLimits {
    pub max_roles: u32,
    pub max_emojis: u32,
    pub max_members: u64,
    pub max_channels: u32,
    pub max_bulk_ban_users: u32,
    pub max_channels_in_category: u32,
}

impl GuildLimits {
    /// Every setting holds its default.
    pub open spec fn is_default(&self) -> bool {
        &&& self.max_roles == 1000
        &&& self.max_emojis == 2000
        &&& self.max_members == 25_000_000
        &&& self.max_channels == 65535
        &&& self.max_bulk_ban_users == 200
        &&& self.max_channels_in_category == 65535
    }
}

impl Default for GuildLimits {
    fn default() -> (r: Self)
        ensures
            r.is_default(),
    {
        GuildLimits {
            max_roles: 1000,
            max_emojis: 2000,
            max_members: 25_000_000,
            max_channels: 65535,
            max_bulk_ban_users: 200,
            max_channels_in_category: 65535,
        }
    }
}

/// Per-message limits.
#[derive(Debug, Clone)]
pub struct MessageLimits {
    pub max_characters: u32,
    pub max_tts_characters: u32,
    pub max_reactions: u32,
    pub max_attachment_size: u64,
    pub max_bulk_delete: u32,
    pub max_embed_download_size: u64,
}

impl MessageLimits {
    /// Every setting holds its default.
    pub open spec fn is_default(&self) -> bool {
        &&& self.max_characters == 1_048_576
        &&& self.max_tts_characters == 160
        &&& self.max_reactions == 2048
        &&& self.max_attachment_size == 1024 * 1024 * 1024
        &&& self.max_bulk_delete == 1000
        &&& self.max_embed_download_size == 1024 * 1024 * 5
    }
}

impl Default for MessageLimits {
    fn default() -> (r: Self)
        ensures
            r.is_default(),
    {
        MessageLimits {
            max_characters: 1_048_576,
            max_tts_characters: 160,
            max_reactions: 2048,
            max_attachment_size: 1024 * 1024 * 1024,
            max_bulk_delete: 1000,
            max_embed_download_size: 1024 * 1024 * 5,
        }
    }
}

/// Per-channel limits.
#[derive(Debug, Clone)]
pub struct ChannelLimits {
    pub max_pins: u32,
    pub max_topic: u32,
    pub max_webhooks: u32,
}

impl ChannelLimits {
    /// Every setting holds its default.
    pub open spec fn is_default(&self) -> bool {
        &&& self.max_pins == 500
        &&& self.max_topic == 1024
        &&& self.max_webhooks == 100
    }
}

impl Default for ChannelLimits {
    fn default() -> (r: Self)
        ensures
            r.is_default(),
    {
        ChannelLimits {
            max_pins: 500,
            max_topic: 1024,
            max_webhooks: 100,
        }
    }
}

/// One rate limit: at most `count` requests per `window` seconds.
#[derive(Debug, Clone)]
pub struct RateLimitOptions {
    pub bot: Option<u32>,
    pub count: u32,
    pub window: u32,
    pub ony_ip: Option<bool>,
}

impl RateLimitOptions {
    /// Every setting holds its default.
    pub open spec fn is_default(&self) -> bool {
        &&& self.bot is None
        &&& self.count == 0
        &&& self.window == 0
        &&& self.ony_ip is None
    }

    /// At most `count` requests per `window`, for bots and users alike.
    pub open spec fn limits(&self, count: int, window: int) -> bool {
        &&& self.bot is None
        &&& self.count == count
        &&& self.window == window
        &&& self.ony_ip is None
    }
}

impl Default for RateLimitOptions {
    fn default() -> (r: Self)
        ensures
            r.is_default(),
    {
        RateLimitOptions {
            bot: None,
            count: 0,
            window: 0,
            ony_ip: None,
        }
    }
}

/// Rate limits of the authentication routes.
#[derive(Debug, Clone)]
pub struct AuthRateLimit {
    pub login: RateLimitOptions,
    pub register: RateLimitOptions,
}

impl AuthRateLimit {
    /// Every setting holds its default.
    pub open spec fn is_default(&self) -> bool {
        &&& self.login.limits(5, 60)
        &&& self.register.limits(2, 43200)
    }
}

impl Default for AuthRateLimit {
    fn default() -> (r: Self)
        ensures
            r.is_default(),
    {
        AuthRateLimit {
            login: RateLimitOptions { bot: None, count: 5, window: 60, ony_ip: None },
            register: RateLimitOptions { bot: None, count: 2, window: 60 * 60 * 12, ony_ip: None },
        }
    }
}

/// Rate limits per route family.
#[derive(Debug, Clone)]
pub struct RouteRateLimit {
    pub guild: RateLimitOptions,
    pub webhook: RateLimitOptions,
    pub channel: RateLimitOptions,
    pub auth: AuthRateLimit,
}

impl RouteRateLimit {
    /// Every setting holds its default.
    pub open spec fn is_default(&self) -> bool {
        &&& self.guild.limits(5, 5)
        &&& self.webhook.limits(10, 5)
        &&& self.channel.limits(10, 5)
        &&& self.auth.is_default()
    }
}

impl Default for RouteRateLimit {
    fn default() -> (r: Self)
        ensures
            r.is_default(),
    {
        RouteRateLimit {
            guild: RateLimitOptions { bot: None, count: 5, window: 5, ony_ip: None },
            webhook: RateLimitOptions { bot: None, count: 10, window: 5, ony_ip: None },
            channel: RateLimitOptions { bot: None, count: 10, window: 5, ony_ip: None },
            auth: AuthRateLimit::default(),
        }
    }
}

/// Request rate limits.
#[derive(Debug, Clone)]
pub struct RateLimits {
    pub enabled: bool,
    pub ip: RateLimitOptions,
    pub global: RateLimitOptions,
    pub error: RateLimitOptions,
    pub routes: RouteRateLimit,
}

impl RateLimits {
    /// Every setting holds its default.
    pub open spec fn is_default(&self) -> bool {
        &&& !self.enabled
        &&& self.ip.limits(500, 5)
        &&& self.global.limits(250, 5)
        &&& self.error.limits(10, 5)
        &&& self.routes.is_default()
    }
}

impl Default for RateLimits {
    fn default() -> (r: Self)
        ensures
            r.is_default(),
    {
        RateLimits {
            enabled: false,
            ip: RateLimitOptions { bot: None, count: 500, window: 5, ony_ip: None },
            global: RateLimitOptions { bot: None, count: 250, window: 5, ony_ip: None },
            error: RateLimitOptions { bot: None, count: 10, window: 5, ony_ip: None },
            routes: RouteRateLimit::default(),
        }
    }
}

/// An instance-wide rate limit.
#[derive(Debug, Clone)]
pub struct GlobalRateLimit {
    pub limit: u32,
    pub window: u32,
    pub enabled: bool,
}

impl GlobalRateLimit {
    /// Every setting holds its default.
    pub open spec fn is_default(&self) -> bool {
        &&& self.limit == 100
        &&& self.window == 60 * 60 * 1000
        &&& self.enabled
    }
}

impl Default for GlobalRateLimit {
    fn default() -> (r: Self)
        ensures
            r.is_default(),
    {
        GlobalRateLimit {
            limit: 100,
            window: 60 * 60 * 1000,
            enabled: true,
        }
    }
}

/// Instance-wide rate limits.
#[derive(Debug, Clone)]
pub struct GlobalRateLimits {
    pub register: GlobalRateLimit,
    pub send_message: GlobalRateLimit,
}

impl GlobalRateLimits {
    /// Every setting holds its default.
    pub open spec fn is_default(&self) -> bool {
        &&& self.register.limit == 25 && self.register.window == 60 * 60 * 1000 && self.register.enabled
        &&& self.send_message.limit == 200 && self.send_message.window == 60 * 1000 && self.send_message.enabled
    }
}

impl Default for GlobalRateLimits {
    fn default() -> (r: Self)
        ensures
            r.is_default(),
    {
        GlobalRateLimits {
            register: GlobalRateLimit { limit: 25, window: 60 * 60 * 1000, enabled: true },
            send_message: GlobalRateLimit { limit: 200, window: 60 * 1000, enabled: true },
        }
    }
}

/// All limits.
#[derive(Debug, Clone)]
pub struct LimitsConfiguration {
    pub user: UserLimits,
    pub guild: GuildLimits,
    pub message: MessageLimits,
    pub channel: ChannelLimits,
    pub rate: RateLimits,
    pub absolute_rate: GlobalRateLimits,
}

impl LimitsConfiguration {
    /// Every setting holds its default.
    pub open spec fn is_default(&self) -> bool {
        &&& self.user.is_default()
        &&& self.guild.is_default()
        &&& self.message.is_default()
        &&& self.channel.is_default()
        &&& self.rate.is_default()
        &&& self.absolute_rate.is_default()
    }
}

impl Default for LimitsConfiguration {
    fn default() -> (r: Self)
        ensures
            r.is_default(),
    {
        LimitsConfiguration {
            user: UserLimits::default(),
            guild: GuildLimits::default(),
            message: MessageLimits::default(),
            channel: ChannelLimits::default(),
            rate: RateLimits::default(),
            absolute_rate: GlobalRateLimits::default(),
        }
    }
}

} // verus!
