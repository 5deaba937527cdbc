use verge_config::config::{
    disable_tun_if_unsupported, generated_file_name, missing_default_items, validation_notice,
    ConfigType, ValidationOutcome,
};
use verge_config::encrypt::{decrypt_data, decrypt_field, encrypt_data, encrypt_with_nonce, EncryptError};
use verge_config::manager::{CoreError, CoreManager, RunningMode};
use verge_config::notification::NotificationEvent;
use verge_config::prfitem::PrfItem;
use verge_config::profiles::IProfiles;
use verge_config::system::{get_network_interface, get_system_hostname, greet, SystemInfo};
use verge_config::verge::IVerge;

const KEY: [u8; 32] = [7u8; 32];

#[test]
fn encrypt_then_decrypt_gives_back_the_text() {
    let sealed = encrypt_data(&KEY, "secret password").unwrap();
    assert_eq!(decrypt_data(&KEY, &sealed), Ok("secret password".to_string()));
    let empty = encrypt_data(&KEY, "").unwrap();
    assert_eq!(decrypt_data(&KEY, &empty), Ok(String::new()));
}

#[test]
fn fresh_nonces_differ() {
    let a = encrypt_data(&KEY, "same").unwrap();
    let b = encrypt_data(&KEY, "same").unwrap();
    assert_ne!(a, b);
}

#[test]
fn fixed_nonce_is_deterministic_and_prefixed() {
    let nonce = [1u8; 12];
    let a = encrypt_with_nonce(&KEY, &nonce, "x").unwrap();
    let b = encrypt_with_nonce(&KEY, &nonce, "x").unwrap();
    assert_eq!(a, b);
    // 12 nonce bytes + 1 ciphertext byte + 16 tag bytes = 29 bytes, 40 Base64 characters.
    assert_eq!(a.len(), 40);
    assert!(a.starts_with("AQEBAQEBAQEBAQEB"));
    assert_eq!(decrypt_data(&KEY, &a), Ok("x".to_string()));
}

#[test]
fn decrypt_errors() {
    assert_eq!(decrypt_data(&KEY, "not base64!"), Err(EncryptError::InvalidBase64));
    assert_eq!(decrypt_data(&KEY, "AAAA"), Err(EncryptError::InvalidEncryptedData));
    let sealed = encrypt_data(&KEY, "text").unwrap();
    let other_key = [8u8; 32];
    assert_eq!(decrypt_data(&other_key, &sealed), Err(EncryptError::DecryptionFailed));
}

#[test]
fn decrypt_optional_fields() {
    assert_eq!(decrypt_field(&KEY, &None), Ok(None));
    assert_eq!(decrypt_field(&KEY, &Some(String::new())), Ok(None));
    let sealed = encrypt_data(&KEY, "pw").unwrap();
    assert_eq!(decrypt_field(&KEY, &Some(sealed)), Ok(Some("pw".to_string())));
    assert_eq!(decrypt_field(&KEY, &Some("%%%".to_string())), Err(EncryptError::InvalidBase64));
}

#[test]
fn core_manager_life_cycle() {
    let mut m = CoreManager::new("/bin/core".to_string(), "/etc/config.yaml".to_string());
    assert!(!m.is_running());
    assert!(matches!(m.start_check(false, true), Err(CoreError::ConfigNotFound(p)) if p == "/etc/config.yaml"));
    assert!(matches!(m.start_check(true, false), Err(CoreError::CoreNotFound(p)) if p == "/bin/core"));
    assert!(m.start_check(true, true).is_ok());
    assert!(matches!(m.record_start(Some(Some(3))), Err(CoreError::ExitedImmediately(3))));
    assert!(!m.is_running());
    assert!(m.record_start(Some(None)).is_ok());
    assert!(m.is_running());
    assert_eq!(m.state.running_mode, RunningMode::Service);
    assert!(matches!(m.start_check(true, true), Err(CoreError::AlreadyRunning)));
    m.mark_stopped();
    assert!(!m.is_running());
    assert!(m.get_output().is_none());
}

#[test]
fn system_info_defaults_unknown() {
    let info = SystemInfo::from_probe(Some("Linux".to_string()), None, Some("6.1".to_string()), 8, 10, 20);
    assert_eq!(info.os_name, "Linux");
    assert_eq!(info.os_version, "Unknown");
    assert_eq!(info.kernel_version, "6.1");
    assert_eq!(info.cpu_count, 8);
    assert_eq!(info.used_memory, 10);
    assert_eq!(info.total_memory, 20);
}

#[test]
fn hostname_and_greeting() {
    assert_eq!(get_system_hostname(Some("box".to_string())), Ok("box".to_string()));
    assert_eq!(get_system_hostname(None), Err("Failed to get hostname".to_string()));
    assert_eq!(greet("Ann"), "Hello, Ann! You've been greeted from Rust!");
}

#[test]
fn network_summary() {
    assert_eq!(get_network_interface(&Vec::new()), Ok("No network interfaces found".to_string()));
    let entries = vec![("eth0".to_string(), 100u64, 200u64), ("lo".to_string(), 5u64, 5u64)];
    assert_eq!(
        get_network_interface(&entries),
        Ok("Interface: eth0, Total Received: 100 bytes, Total Transmitted: 200 bytes\\nInterface: lo, Total Received: 5 bytes, Total Transmitted: 5 bytes".to_string())
    );
}

#[test]
fn notification_texts() {
    let e = NotificationEvent::ClashModeChanged { mode: "rule".to_string() };
    assert_eq!(
        e.message_keys(),
        ("notifications.clashModeChanged.title", "notifications.clashModeChanged.body")
    );
    assert_eq!(e.body_text("Mode: {mode} ({mode})"), "Mode: rule (rule)");
    assert_eq!(NotificationEvent::AppQuit.body_text("Bye {mode}"), "Bye {mode}");
    assert_eq!(
        NotificationEvent::AppHidden.message_keys(),
        ("notifications.appHidden.title", "notifications.appHidden.body")
    );
}

#[test]
fn generated_names_and_notices() {
    assert_eq!(generated_file_name(ConfigType::Run), "clash-verge.yaml");
    assert_eq!(generated_file_name(ConfigType::Check), "clash-verge-check.yaml");
    assert_eq!(validation_notice(ValidationOutcome::Valid), None);
    assert_eq!(
        validation_notice(ValidationOutcome::Invalid("bad".to_string())),
        Some(("config_validate::boot_error", "bad".to_string()))
    );
    assert_eq!(
        validation_notice(ValidationOutcome::CheckFailed),
        Some(("config_validate::process_terminated", String::new()))
    );
    assert_eq!(
        validation_notice(ValidationOutcome::GenerateFailed),
        Some(("config_validate::error", String::new()))
    );
}

fn item(uid: &str) -> PrfItem {
    PrfItem {
        uid: Some(uid.to_string()),
        itype: Some("merge".to_string()),
        name: None,
        file: None,
        desc: None,
        url: None,
        selected: None,
        extra: None,
        updated: None,
        option: None,
        home: None,
        file_data: None,
    }
}

#[test]
fn default_items_detection() {
    let none = IProfiles { current: None, items: None };
    assert_eq!(missing_default_items(&none), (true, true));
    let some = IProfiles { current: None, items: Some(vec![item("Merge")]) };
    assert_eq!(missing_default_items(&some), (false, true));
    let both = IProfiles { current: None, items: Some(vec![item("Script"), item("Merge")]) };
    assert_eq!(missing_default_items(&both), (false, false));
}

#[test]
fn tun_switched_off_without_rights() {
    let mut v = IVerge::template("en");
    v.enable_tun_mode = Some(true);
    assert!(!disable_tun_if_unsupported(&mut v, true, false));
    assert_eq!(v.enable_tun_mode, Some(true));
    assert!(!disable_tun_if_unsupported(&mut v, false, true));
    assert_eq!(v.enable_tun_mode, Some(true));
    assert!(disable_tun_if_unsupported(&mut v, false, false));
    assert_eq!(v.enable_tun_mode, Some(false));
}

#[test]
fn core_error_texts() {
    assert_eq!(CoreError::AlreadyRunning.message(), "Core is already running");
    assert_eq!(CoreError::ConfigNotFound("/c.yaml".to_string()).message(), "Config file not found: /c.yaml");
    assert_eq!(CoreError::CoreNotFound("/bin/x".to_string()).message(), "Core file not found: /bin/x");
    assert_eq!(CoreError::ExitedImmediately(3).message(), "Clash Core exited immediately with code: 3");
    assert_eq!(CoreError::ExitedImmediately(-1).message(), "Clash Core exited immediately with code: -1");
    assert_eq!(
        CoreError::ExitedImmediately(i32::MIN).message(),
        "Clash Core exited immediately with code: -2147483648"
    );
}
