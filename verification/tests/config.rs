use wind_send::config::{
    default_allow_to_be_searched_once, Activation, AutoStart, BuildProfile, Config, ConfigDocument,
};
use wind_send::secret::SecretError;

fn desktop_build() -> BuildProfile {
    BuildProfile { linux: false, systray_support: true }
}

fn headless_linux() -> BuildProfile {
    BuildProfile { linux: true, systray_support: false }
}

fn sample() -> Config {
    Config {
        server_port: "6779".to_string(),
        secret_key_hex: "ab".repeat(32),
        show_systray_icon: true,
        auto_start: true,
        save_path: "/home/user/Desktop".to_string(),
        language: "en".to_string(),
        log_level: "DEBUG".to_string(),
        allow_to_be_searched_once: true,
        external_ips: Some(vec!["198.51.100.7".to_string()]),
        trusted_remote_hosts: Some(vec!["192.168.1.20".to_string(), "pc.lan".to_string()]),
        relay_server_address: "relay.example:16779".to_string(),
        relay_secret_key: Some("relay secret".to_string()),
        enable_relay: true,
    }
}

fn old_document() -> ConfigDocument {
    ConfigDocument {
        server_port: "6779".to_string(),
        secret_key_hex: "cd".repeat(32),
        show_systray_icon: false,
        auto_start: false,
        save_path: "./".to_string(),
        language: "zh".to_string(),
        log_level: None,
        allow_to_be_searched_once: None,
        external_ips: None,
        trusted_remote_hosts: None,
        relay_server_address: None,
        relay_secret_key: None,
        enable_relay: None,
    }
}

#[test]
fn empty_check_accepts_a_full_configuration() {
    assert_eq!(sample().empty_check(), Ok(()));
}

#[test]
fn empty_check_refuses_an_empty_port() {
    let mut config = sample();
    config.server_port = String::new();
    assert_eq!(config.empty_check(), Err("server_port is empty".to_string()));
}

#[test]
fn empty_check_refuses_an_empty_secret() {
    let mut config = sample();
    config.secret_key_hex = String::new();
    assert_eq!(config.empty_check(), Err("secret_key_hex is empty".to_string()));
}

#[test]
fn empty_check_names_the_port_first() {
    let mut config = sample();
    config.server_port = String::new();
    config.secret_key_hex = String::new();
    assert_eq!(config.empty_check(), Err("server_port is empty".to_string()));
}

#[test]
fn empty_check_asks_for_no_more_than_presence() {
    let mut config = sample();
    config.server_port = " ".to_string();
    config.secret_key_hex = "not hex".to_string();
    assert_eq!(config.empty_check(), Ok(()));
}

#[test]
fn save_yields_no_document_for_an_empty_port_or_secret() {
    let mut config = sample();
    config.server_port = String::new();
    assert_eq!(config.save(), Err("server_port is empty".to_string()));
    assert_eq!(
        config.save_and_set(&desktop_build()),
        Err("server_port is empty".to_string())
    );
    let mut config = sample();
    config.secret_key_hex = String::new();
    assert_eq!(config.save(), Err("secret_key_hex is empty".to_string()));
    assert_eq!(
        config.save_and_set(&desktop_build()),
        Err("secret_key_hex is empty".to_string())
    );
    assert_eq!(config.set(&desktop_build()), Err("secret_key_hex is empty".to_string()));
}

#[test]
fn save_yields_every_field() {
    let config = sample();
    let document = config.save().unwrap();
    assert_eq!(
        document,
        ConfigDocument {
            server_port: "6779".to_string(),
            secret_key_hex: "ab".repeat(32),
            show_systray_icon: true,
            auto_start: true,
            save_path: "/home/user/Desktop".to_string(),
            language: "en".to_string(),
            log_level: Some("DEBUG".to_string()),
            allow_to_be_searched_once: Some(true),
            external_ips: Some(vec!["198.51.100.7".to_string()]),
            trusted_remote_hosts: Some(vec!["192.168.1.20".to_string(), "pc.lan".to_string()]),
            relay_server_address: Some("relay.example:16779".to_string()),
            relay_secret_key: Some("relay secret".to_string()),
            enable_relay: Some(true),
        }
    );
    assert_eq!(config.to_document(), document);
}

#[test]
fn set_registers_or_removes_the_auto_start() {
    let mut config = sample();
    assert_eq!(
        config.set(&desktop_build()),
        Ok(Activation { auto_start: AutoStart::Enable, language: "en".to_string() })
    );
    config.auto_start = false;
    config.language = "zh".to_string();
    assert_eq!(
        config.set(&desktop_build()),
        Ok(Activation { auto_start: AutoStart::Disable, language: "zh".to_string() })
    );
}

#[test]
fn set_leaves_the_auto_start_alone_on_headless_linux() {
    let mut config = sample();
    assert_eq!(config.set(&headless_linux()).unwrap().auto_start, AutoStart::Unmanaged);
    config.auto_start = false;
    assert_eq!(config.set(&headless_linux()).unwrap().auto_start, AutoStart::Unmanaged);
    // Linux with a systray, and a headless build elsewhere, manage it
    let linux = BuildProfile { linux: true, systray_support: true };
    assert_eq!(config.set(&linux).unwrap().auto_start, AutoStart::Disable);
    let headless = BuildProfile { linux: false, systray_support: false };
    assert_eq!(config.set(&headless).unwrap().auto_start, AutoStart::Disable);
}

#[test]
fn save_and_set_plans_both() {
    let config = sample();
    let (activation, document) = config.save_and_set(&desktop_build()).unwrap();
    assert_eq!(activation, Activation { auto_start: AutoStart::Enable, language: "en".to_string() });
    assert_eq!(document, config.to_document());
}

#[test]
fn default_configuration_has_the_documented_values() {
    let config = Config::generate_default(
        "ab".repeat(32),
        "en".to_string(),
        Some("/home/user/Desktop".to_string()),
        &desktop_build(),
    );
    assert_eq!(
        config,
        Config {
            server_port: "6779".to_string(),
            secret_key_hex: "ab".repeat(32),
            show_systray_icon: true,
            auto_start: false,
            save_path: "/home/user/Desktop".to_string(),
            language: "en".to_string(),
            log_level: "INFO".to_string(),
            allow_to_be_searched_once: false,
            external_ips: None,
            trusted_remote_hosts: Some(vec![
                "127.0.0.1".to_string(),
                "localhost".to_string(),
                "::1".to_string(),
            ]),
            relay_server_address: String::new(),
            relay_secret_key: Some(String::new()),
            enable_relay: false,
        }
    );
    assert_eq!(config.empty_check(), Ok(()));
    assert!(!config.relay_enabled());
}

#[test]
fn default_configuration_without_a_desktop() {
    let config = Config::generate_default("ab".repeat(32), "zh".to_string(), None, &headless_linux());
    assert_eq!(config.save_path, "./");
    assert_eq!(config.language, "zh");
    assert!(config.allow_to_be_searched_once);
}

#[test]
fn discoverable_by_default_only_without_a_systray() {
    assert!(!default_allow_to_be_searched_once(&desktop_build()));
    assert!(!default_allow_to_be_searched_once(&BuildProfile { linux: true, systray_support: true }));
    assert!(default_allow_to_be_searched_once(&headless_linux()));
    assert!(default_allow_to_be_searched_once(&BuildProfile { linux: false, systray_support: false }));
}

#[test]
fn absent_fields_take_their_defaults() {
    let config = Config::from_document(old_document(), &desktop_build());
    assert_eq!(
        config,
        Config {
            server_port: "6779".to_string(),
            secret_key_hex: "cd".repeat(32),
            show_systray_icon: false,
            auto_start: false,
            save_path: "./".to_string(),
            language: "zh".to_string(),
            log_level: String::new(),
            allow_to_be_searched_once: false,
            external_ips: None,
            trusted_remote_hosts: None,
            relay_server_address: String::new(),
            relay_secret_key: None,
            enable_relay: false,
        }
    );
    let headless = Config::from_document(old_document(), &headless_linux());
    assert!(headless.allow_to_be_searched_once);
}

#[test]
fn present_fields_are_kept() {
    let mut document = old_document();
    document.allow_to_be_searched_once = Some(false);
    document.log_level = Some("TRACE".to_string());
    document.enable_relay = Some(true);
    document.relay_server_address = Some("relay.example:1".to_string());
    let config = Config::from_document(document, &headless_linux());
    assert!(!config.allow_to_be_searched_once);
    assert_eq!(config.log_level, "TRACE");
    assert!(config.enable_relay);
    assert_eq!(config.relay_server_address, "relay.example:1");
}

#[test]
fn document_round_trip_keeps_every_field() {
    let config = sample();
    assert_eq!(Config::from_document(config.to_document(), &desktop_build()), config);
    assert_eq!(Config::from_document(config.to_document(), &headless_linux()), config);
    let fresh = Config::generate_default("ab".repeat(32), "en".to_string(), None, &headless_linux());
    assert_eq!(Config::from_document(fresh.to_document(), &desktop_build()), fresh);
}

#[test]
fn relay_needs_the_switch_and_an_address() {
    let mut config = sample();
    assert!(config.relay_enabled());
    config.enable_relay = false;
    assert!(!config.relay_enabled());
    config.enable_relay = true;
    config.relay_server_address = String::new();
    assert!(!config.relay_enabled());
    config.enable_relay = false;
    assert!(!config.relay_enabled());
}

#[test]
fn device_id_of_a_configuration() {
    let mut config = sample();
    assert_eq!(config.get_device_id(), Ok("3918fbcf3deac11b".to_string()));
    config.secret_key_hex = "no hex".to_string();
    assert_eq!(config.get_device_id(), Err(SecretError::MalformedSecret));
}
