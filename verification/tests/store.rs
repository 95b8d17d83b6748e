use wind_send::config::{Activation, AutoStart, BuildProfile, Config, ConfigDocument};
use wind_send::secret::SecretError;
use wind_send::store::{
    first_run, get_cipher, init, init_global_config, read_config, resume, write_config,
    AppContext, HostDefaults, StartupError,
};
use wind_send::tls_material::TlsSetup;

fn desktop_build() -> BuildProfile {
    BuildProfile { linux: false, systray_support: true }
}

fn host() -> HostDefaults {
    HostDefaults { language: "en".to_string(), desktop_path: Some("/home/user/Desktop".to_string()) }
}

fn stored(allow_once: Option<bool>) -> ConfigDocument {
    ConfigDocument {
        server_port: "7000".to_string(),
        secret_key_hex: "cd".repeat(32),
        show_systray_icon: true,
        auto_start: true,
        save_path: "/srv/files".to_string(),
        language: "zh".to_string(),
        log_level: Some("WARN".to_string()),
        allow_to_be_searched_once: allow_once,
        external_ips: None,
        trusted_remote_hosts: Some(vec!["pc.lan".to_string()]),
        relay_server_address: None,
        relay_secret_key: None,
        enable_relay: None,
    }
}

#[test]
fn first_start_generates_a_configuration() {
    let startup = init_global_config(None, host(), &desktop_build()).unwrap();
    let config = &startup.context.config;
    assert_eq!(config.secret_key_hex.len(), 64);
    assert!(config.secret_key_hex.chars().all(|c| c.is_ascii_digit() || ('a'..='f').contains(&c)));
    let expected = Config::generate_default(
        config.secret_key_hex.clone(),
        "en".to_string(),
        Some("/home/user/Desktop".to_string()),
        &desktop_build(),
    );
    assert_eq!(*config, expected);
    assert!(!startup.context.allow_to_be_searched);
    assert_eq!(
        startup.activation,
        Activation { auto_start: AutoStart::Disable, language: "en".to_string() }
    );
    assert_eq!(startup.persist, Some(expected.to_document()));
    assert_eq!(config.get_device_id().unwrap().len(), 16);
    assert!(get_cipher(&startup.context).is_ok());
}

#[test]
fn first_start_is_not_discoverable_even_without_a_systray() {
    let headless = BuildProfile { linux: true, systray_support: false };
    let startup = init_global_config(None, host(), &headless).unwrap();
    assert!(startup.context.config.allow_to_be_searched_once);
    assert!(!startup.context.allow_to_be_searched);
    assert_eq!(startup.activation.auto_start, AutoStart::Unmanaged);
}

#[test]
fn first_starts_have_different_secrets() {
    let one = init_global_config(None, host(), &desktop_build()).unwrap();
    let other = init_global_config(None, host(), &desktop_build()).unwrap();
    assert_ne!(one.context.config.secret_key_hex, other.context.config.secret_key_hex);
}

#[test]
fn later_start_takes_the_stored_configuration() {
    let startup = init_global_config(Some(stored(None)), host(), &desktop_build()).unwrap();
    assert_eq!(
        startup.context.config,
        Config::from_document(stored(None), &desktop_build())
    );
    assert_eq!(startup.context.config.server_port, "7000");
    assert_eq!(startup.context.config.language, "zh");
    assert!(!startup.context.allow_to_be_searched);
    assert_eq!(
        startup.activation,
        Activation { auto_start: AutoStart::Enable, language: "zh".to_string() }
    );
    assert_eq!(startup.persist, None);
}

#[test]
fn later_start_is_discoverable_where_the_configuration_asks() {
    let startup = init_global_config(Some(stored(Some(true))), host(), &desktop_build()).unwrap();
    assert!(startup.context.allow_to_be_searched);
    let startup = init_global_config(Some(stored(Some(false))), host(), &desktop_build()).unwrap();
    assert!(!startup.context.allow_to_be_searched);
    let headless = BuildProfile { linux: true, systray_support: false };
    let startup = init_global_config(Some(stored(None)), host(), &headless).unwrap();
    assert!(startup.context.allow_to_be_searched);
}

#[test]
fn later_start_refuses_an_empty_port_or_secret() {
    let mut document = stored(None);
    document.server_port = String::new();
    assert_eq!(
        init_global_config(Some(document), host(), &desktop_build()),
        Err(StartupError::Refused("server_port is empty".to_string()))
    );
    let mut document = stored(None);
    document.secret_key_hex = String::new();
    assert_eq!(
        init_global_config(Some(document.clone()), host(), &desktop_build()),
        Err(StartupError::Refused("secret_key_hex is empty".to_string()))
    );
    assert_eq!(resume(document, &desktop_build()), Err("secret_key_hex is empty".to_string()));
}

#[test]
fn first_run_around_a_given_secret() {
    let startup = first_run("ab".repeat(32), host(), &desktop_build()).unwrap();
    assert_eq!(startup.context.config.secret_key_hex, "ab".repeat(32));
    assert_eq!(startup.context.config.save_path, "/home/user/Desktop");
    assert!(!startup.context.allow_to_be_searched);
    assert_eq!(startup.persist, Some(startup.context.config.to_document()));
    assert_eq!(
        first_run(String::new(), host(), &desktop_build()),
        Err("secret_key_hex is empty".to_string())
    );
}

#[test]
fn second_start_loads_what_the_first_persisted() {
    let first = init_global_config(None, host(), &desktop_build()).unwrap();
    let document = first.persist.clone().unwrap();
    let second = init_global_config(Some(document), host(), &desktop_build()).unwrap();
    assert_eq!(second.context.config, first.context.config);
    assert_eq!(second.persist, None);
    assert_eq!(
        second.context.config.get_device_id(),
        first.context.config.get_device_id()
    );
}

#[test]
fn configuration_is_read_and_written_in_place() {
    let mut context = first_run("ab".repeat(32), host(), &desktop_build()).unwrap().context;
    assert_eq!(read_config(&context).server_port, "6779");
    write_config(&mut context).server_port = "7001".to_string();
    assert_eq!(read_config(&context).server_port, "7001");
    assert_eq!(read_config(&context).secret_key_hex, "ab".repeat(32));
    assert!(!context.allow_to_be_searched);
}

#[test]
fn replacing_the_configuration_is_all_or_nothing() {
    let mut context = first_run("ab".repeat(32), host(), &desktop_build()).unwrap().context;
    context.set_allow_to_be_searched(true);
    let before = context.config.clone();

    let mut broken = before.clone();
    broken.server_port = String::new();
    broken.language = "zh".to_string();
    assert_eq!(
        context.replace_config(broken, &desktop_build()),
        Err("server_port is empty".to_string())
    );
    assert_eq!(context.config, before);
    assert!(context.allow_to_be_searched);

    let mut changed = before.clone();
    changed.server_port = "7002".to_string();
    changed.auto_start = true;
    let (activation, document) =
        context.replace_config(changed.clone(), &desktop_build()).unwrap();
    assert_eq!(context.config, changed);
    assert!(context.allow_to_be_searched);
    assert_eq!(activation.auto_start, AutoStart::Enable);
    assert_eq!(document, changed.to_document());
}

#[test]
fn cipher_of_the_context() {
    let mut context = first_run("ab".repeat(32), host(), &desktop_build()).unwrap().context;
    assert_eq!(get_cipher(&context).unwrap().key(), [0xabu8; 32].as_slice());
    write_config(&mut context).secret_key_hex = "ab".repeat(31);
    assert!(matches!(get_cipher(&context), Err(SecretError::InvalidKeyLength)));
    write_config(&mut context).secret_key_hex = "secret".to_string();
    assert!(matches!(get_cipher(&context), Err(SecretError::MalformedSecret)));
}

#[test]
fn bootstrap_begins_with_the_log_level_and_a_probe() {
    let startup = init_global_config(Some(stored(None)), host(), &desktop_build()).unwrap();
    let plan = init(&startup.context);
    assert_eq!(plan.log_level, "WARN");
    assert_eq!(plan.tls, TlsSetup::Probing);
    assert_eq!(plan.tls, TlsSetup::start());
}
