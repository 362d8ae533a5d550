use calendar_hub::auth::{
    AuthError, AuthUser, Claims, RateLimitEntry, SafeUser, check_password, check_rate_limit_entry,
    check_registration, make_claims, validate_claims,
};
use calendar_hub::config::{
    AuthConfig, Config, ConfigLoadAction, ConfigMan, ConfigUpdater, LogConfig, NetworkConfig,
    UpgradeChain,
};
use calendar_hub::netaddr::{AddressClass, ListenAddr, classify_listen_address};

#[test]
fn defaults_are_locked_down() {
    let config = Config::default();
    assert_eq!(config.version, 1);
    assert_eq!(config.network.interface, "127.0.0.1");
    assert_eq!(config.network.port, 8080);
    assert!(config.auth.require_login);
    assert_eq!(config.logs.keep_for_secs, 604800);

    assert!(AuthConfig::default().require_login);
    assert_eq!(NetworkConfig::default().port, 8080);
    assert_eq!(LogConfig::default().keep_for_secs, 60 * 60 * 24 * 7);
}

#[test]
fn load_action_depends_on_presence_and_version() {
    let _ = ConfigMan::new();
    assert_eq!(ConfigMan::load_action(false, None), ConfigLoadAction::CreateDefault);
    assert_eq!(ConfigMan::load_action(false, Some(1)), ConfigLoadAction::CreateDefault);
    assert_eq!(ConfigMan::load_action(true, Some(1)), ConfigLoadAction::ParseCurrent);
    assert_eq!(ConfigMan::load_action(true, Some(2)), ConfigLoadAction::RewriteDefault);
    assert_eq!(ConfigMan::load_action(true, None), ConfigLoadAction::RewriteDefault);
}

struct V1toV2;

impl ConfigUpdater for V1toV2 {
    type OldConfig = u32;
    type NewConfig = u64;

    fn min_version(&self) -> u32 {
        1
    }

    fn max_version(&self) -> u32 {
        1
    }

    fn target_version(&self) -> u32 {
        2
    }

    fn upgrade(&self, old_config: u32) -> u64 {
        (old_config as u64) * 10
    }
}

#[test]
fn upgrade_chain_applies_each_step_in_order() {
    let empty = ();
    assert_eq!(UpgradeChain::<u32, u32>::upgrade_chain(&empty, 7), 7);

    let chain = (V1toV2, ());
    assert_eq!(chain.upgrade_chain(4u32), 40u64);
    assert_eq!(chain.0.min_version(), 1);
    assert_eq!(chain.0.max_version(), 1);
    assert_eq!(chain.0.target_version(), 2);
}

fn user(password_hash: &str) -> AuthUser {
    AuthUser {
        id: 7,
        username: "ada".to_string(),
        password_hash: password_hash.to_string(),
        salt: "salt".to_string(),
        email: "ada@example.com".to_string(),
        created_at: "2024-01-01".to_string(),
        updated_at: "2024-01-02".to_string(),
    }
}

#[test]
fn safe_user_drops_the_secrets() {
    let safe = SafeUser::from(user("s3cr3t-hash"));
    assert_eq!(safe.id, 7);
    assert_eq!(safe.username, "ada");
    assert_eq!(safe.email, "ada@example.com");
    assert_eq!(safe.created_at, "2024-01-01");
    assert_eq!(safe.updated_at, "2024-01-02");
}

#[test]
fn password_check_accepts_only_the_stored_hash() {
    assert!(check_password(&user("abc"), "abc").is_ok());
    assert!(matches!(
        check_password(&user("abc"), "abd"),
        Err(AuthError::InvalidPassword)
    ));
}

#[test]
fn registration_is_refused_for_taken_names() {
    assert!(check_registration(false).is_ok());
    assert!(matches!(check_registration(true), Err(AuthError::UserAlreadyExists)));
}

#[test]
fn claims_carry_subject_and_expiry() {
    let claims = make_claims("ada", 1000, 3600);
    assert_eq!(claims.sub, "ada");
    assert_eq!(claims.exp, 4600);

    assert!(validate_claims(&claims, "ada").is_ok());
    assert!(matches!(
        validate_claims(&claims, "eve"),
        Err(AuthError::Unauthorized)
    ));
    assert!(matches!(
        validate_claims(&Claims { sub: "eve".to_string(), exp: 0 }, "ada"),
        Err(AuthError::Unauthorized)
    ));
}

#[test]
fn rate_limit_window_admits_five_per_minute() {
    let mut entry = RateLimitEntry { count: 0, window_start_secs: 100 };
    for i in 0..5 {
        let (allowed, next) = check_rate_limit_entry(entry, 100 + i);
        assert!(allowed);
        entry = next;
    }
    assert_eq!(entry.count, 5);

    // The sixth request within the window is refused and changes nothing.
    let (allowed, unchanged) = check_rate_limit_entry(entry, 130);
    assert!(!allowed);
    assert_eq!(unchanged, entry);

    // Exactly at the window edge the request still counts as inside.
    let (allowed, _) = check_rate_limit_entry(entry, 160);
    assert!(!allowed);

    // Past the window, the count resets and the request is admitted.
    let (allowed, reset) = check_rate_limit_entry(entry, 161);
    assert!(allowed);
    assert_eq!(reset, RateLimitEntry { count: 1, window_start_secs: 161 });
}

#[test]
fn listen_addresses_are_classified() {
    let v4 = |octets: [u8; 4]| ListenAddr::V4 { octets, port: 8080 };
    assert_eq!(classify_listen_address(&v4([0, 0, 0, 0])), AddressClass::AllInterfaces);
    assert_eq!(classify_listen_address(&v4([127, 0, 0, 1])), AddressClass::Loopback);
    assert_eq!(classify_listen_address(&v4([127, 255, 0, 7])), AddressClass::Loopback);
    assert_eq!(classify_listen_address(&v4([255, 255, 255, 255])), AddressClass::Broadcast);
    assert_eq!(classify_listen_address(&v4([10, 1, 2, 3])), AddressClass::Private);
    assert_eq!(classify_listen_address(&v4([172, 16, 0, 1])), AddressClass::Private);
    assert_eq!(classify_listen_address(&v4([172, 32, 0, 1])), AddressClass::Specific);
    assert_eq!(classify_listen_address(&v4([192, 168, 1, 1])), AddressClass::Private);
    assert_eq!(classify_listen_address(&v4([8, 8, 8, 8])), AddressClass::Specific);

    let v6 = |segments: [u16; 8]| ListenAddr::V6 { segments, port: 8080 };
    assert_eq!(
        classify_listen_address(&v6([0, 0, 0, 0, 0, 0, 0, 0])),
        AddressClass::AllInterfaces
    );
    assert_eq!(
        classify_listen_address(&v6([0, 0, 0, 0, 0, 0, 0, 1])),
        AddressClass::Loopback
    );
    assert_eq!(
        classify_listen_address(&v6([0xff02, 0, 0, 0, 0, 0, 0, 1])),
        AddressClass::Multicast
    );
    assert_eq!(
        classify_listen_address(&v6([0xfd12, 1, 2, 3, 4, 5, 6, 7])),
        AddressClass::UniqueLocal
    );
    assert_eq!(
        classify_listen_address(&v6([0x2001, 0xdb8, 0, 0, 0, 0, 0, 1])),
        AddressClass::Specific
    );
}
