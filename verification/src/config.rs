//! The configuration record: its fields, what it must hold before it is
//! persisted or activated, its defaults, and what is derived from it.

use crate::secret::{derive_device_id, device_id_of, SecretError};
use crate::hexcode::is_hex;
use crate::text::{copy_optional_text, copy_optional_texts, optional_text, optional_texts};
use vstd::prelude::*;
use vstd::utf8::encode_utf8;

verus! {

/// What the build and the platform decide.
#[derive(Debug, Clone, Copy, PartialEq, Eq, Structural)]
pub struct BuildProfile {
    /// The target is Linux.
    pub linux: bool,
    /// The build has a systray icon.
    pub systray_support: bool,
}

/// The persisted, process-wide record.
#[derive(Debug, Clone, PartialEq, Eq)]
pub struct Config {
    pub server_port: String,
    pub secret_key_hex: String,
    pub show_systray_icon: bool,
    pub auto_start: bool,
    pub save_path: String,
    pub language: String,
    pub log_level: String,
    /// Allow to be searched once after the program starts.
    pub allow_to_be_searched_once: bool,
    /// External NAT addresses of this machine, through which other devices
    /// may reach it.
    pub external_ips: Option<Vec<String>>,
    /// Remote hosts that may connect without the relay.
    pub trusted_remote_hosts: Option<Vec<String>>,
    pub relay_server_address: String,
    pub relay_secret_key: Option<String>,
    pub enable_relay: bool,
}

/// A configuration as plain values.
pub struct ConfigView {
    pub server_port: Seq<char>,
    pub secret_key_hex: Seq<char>,
    pub show_systray_icon: bool,
    pub auto_start: bool,
    pub save_path: Seq<char>,
    pub language: Seq<char>,
    pub log_level: Seq<char>,
    pub allow_to_be_searched_once: bool,
    pub external_ips: Option<Seq<Seq<char>>>,
    pub trusted_remote_hosts: Option<Seq<Seq<char>>>,
    pub relay_server_address: Seq<char>,
    pub relay_secret_key: Option<Seq<char>>,
    pub enable_relay: bool,
}

impl View for Config {
    type V = ConfigView;

    open spec fn view(&self) -> ConfigView {
        ConfigView {
            server_port: self.server_port@,
            secret_key_hex: self.secret_key_hex@,
            show_systray_icon: self.show_systray_icon,
            auto_start: self.auto_start,
            save_path: self.save_path@,
            language: self.language@,
            log_level: self.log_level@,
            allow_to_be_searched_once: self.allow_to_be_searched_once,
            external_ips: optional_texts(self.external_ips),
            trusted_remote_hosts: optional_texts(self.trusted_remote_hosts),
            relay_server_address: self.relay_server_address@,
            relay_secret_key: optional_text(self.relay_secret_key),
            enable_relay: self.enable_relay,
        }
    }
}

/// What to do about starting with the session.
#[derive(Debug, Clone, Copy, PartialEq, Eq, Structural)]
pub enum AutoStart {
    /// Register the program to start with the session.
    Enable,
    /// Remove that registration.
    Disable,
    /// Leave it alone: this build does not manage it.
    Unmanaged,
}

/// What activating a configuration asks of the host.
#[derive(Debug, Clone, PartialEq, Eq)]
pub struct Activation {
    pub auto_start: AutoStart,
    pub language: String,
}

/// An activation as plain values.
pub struct ActivationView {
    pub auto_start: AutoStart,
    pub language: Seq<char>,
}

impl View for Activation {
    type V = ActivationView;

    open spec fn view(&self) -> ActivationView {
        ActivationView { auto_start: self.auto_start, language: self.language@ }
    }
}

/// The fields as a persisted document holds them: those that later versions
/// brought in may be absent.
#[derive(Debug, Clone, PartialEq, Eq)]
pub struct ConfigDocument {
    pub server_port: String,
    pub secret_key_hex: String,
    pub show_systray_icon: bool,
    pub auto_start: bool,
    pub save_path: String,
    pub language: String,
    pub log_level: Option<String>,
    pub allow_to_be_searched_once: Option<bool>,
    pub external_ips: Option<Vec<String>>,
    pub trusted_remote_hosts: Option<Vec<String>>,
    pub relay_server_address: Option<String>,
    pub relay_secret_key: Option<String>,
    pub enable_relay: Option<bool>,
}

/// A persisted document as plain values.
pub struct DocumentView {
    pub server_port: Seq<char>,
    pub secret_key_hex: Seq<char>,
    pub show_systray_icon: bool,
    pub auto_start: bool,
    pub save_path: Seq<char>,
    pub language: Seq<char>,
    pub log_level: Option<Seq<char>>,
    pub allow_to_be_searched_once: Option<bool>,
    pub external_ips: Option<Seq<Seq<char>>>,
    pub trusted_remote_hosts: Option<Seq<Seq<char>>>,
    pub relay_server_address: Option<Seq<char>>,
    pub relay_secret_key: Option<Seq<char>>,
    pub enable_relay: Option<bool>,
}

impl View for ConfigDocument {
    type V = DocumentView;

    open spec fn view(&self) -> DocumentView {
        DocumentView {
            server_port: self.server_port@,
            secret_key_hex: self.secret_key_hex@,
            show_systray_icon: self.show_systray_icon,
            auto_start: self.auto_start,
            save_path: self.save_path@,
            language: self.language@,
            log_level: optional_text(self.log_level),
            allow_to_be_searched_once: self.allow_to_be_searched_once,
            external_ips: optional_texts(self.external_ips),
            trusted_remote_hosts: optional_texts(self.trusted_remote_hosts),
            relay_server_address: optional_text(self.relay_server_address),
            relay_secret_key: optional_text(self.relay_secret_key),
            enable_relay: self.enable_relay,
        }
    }
}

impl DocumentView {
    /// The configuration that the document stands for: an absent log level
    /// or relay address is empty, an absent relay switch is off, and an
    /// absent discoverability flag is what a fresh configuration would have.
    pub open spec fn completed(self, profile: BuildProfile) -> ConfigView {
        ConfigView {
            server_port: self.server_port,
            secret_key_hex: self.secret_key_hex,
            show_systray_icon: self.show_systray_icon,
            auto_start: self.auto_start,
            save_path: self.save_path,
            language: self.language,
            log_level: match self.log_level {
                Some(level) => level,
                None => Seq::empty(),
            },
            allow_to_be_searched_once: match self.allow_to_be_searched_once {
                Some(allow) => allow,
                None => !profile.systray_support,
            },
            external_ips: self.external_ips,
            trusted_remote_hosts: self.trusted_remote_hosts,
            relay_server_address: match self.relay_server_address {
                Some(address) => address,
                None => Seq::empty(),
            },
            relay_secret_key: self.relay_secret_key,
            enable_relay: match self.enable_relay {
                Some(enable) => enable,
                None => false,
            },
        }
    }
}

/// The hosts that are trusted where the configuration names none.
pub open spec fn loopback_hosts() -> Seq<Seq<char>> {
    seq!["127.0.0.1"@, "localhost"@, "::1"@]
}

/// The configuration of a first run.
pub open spec fn default_view(
    secret: Seq<char>,
    language: Seq<char>,
    desktop_path: Option<Seq<char>>,
    profile: BuildProfile,
) -> ConfigView {
    ConfigView {
        server_port: "6779"@,
        secret_key_hex: secret,
        show_systray_icon: true,
        auto_start: false,
        save_path: match desktop_path {
            Some(path) => path,
            None => "./"@,
        },
        language: language,
        log_level: "INFO"@,
        allow_to_be_searched_once: !profile.systray_support,
        external_ips: None,
        trusted_remote_hosts: Some(loopback_hosts()),
        relay_server_address: Seq::empty(),
        relay_secret_key: Some(Seq::empty()),
        enable_relay: false,
    }
}

impl ConfigView {
    /// Why the record may not be persisted or activated, if it may not: the
    /// port is checked before the secret.
    pub open spec fn refusal(self) -> Option<Seq<char>> {
        if self.server_port.len() == 0 {
            Some("server_port is empty"@)
        } else if self.secret_key_hex.len() == 0 {
            Some("secret_key_hex is empty"@)
        } else {
            None
        }
    }

    /// The record may be persisted and activated: neither the port nor the
    /// secret is empty.
    pub open spec fn is_ready(self) -> bool {
        self.server_port.len() > 0 && self.secret_key_hex.len() > 0
    }

    /// The UTF-8 bytes of the secret.
    pub open spec fn secret_bytes(self) -> Seq<u8> {
        encode_utf8(self.secret_key_hex)
    }

    /// Traffic goes through the relay: it is switched on and has an address.
    pub open spec fn relay_enabled(self) -> bool {
        self.enable_relay && self.relay_server_address.len() > 0
    }

    /// The document that holds every field of the record.
    pub open spec fn document(self) -> DocumentView {
        DocumentView {
            server_port: self.server_port,
            secret_key_hex: self.secret_key_hex,
            show_systray_icon: self.show_systray_icon,
            auto_start: self.auto_start,
            save_path: self.save_path,
            language: self.language,
            log_level: Some(self.log_level),
            allow_to_be_searched_once: Some(self.allow_to_be_searched_once),
            external_ips: self.external_ips,
            trusted_remote_hosts: self.trusted_remote_hosts,
            relay_server_address: Some(self.relay_server_address),
            relay_secret_key: self.relay_secret_key,
            enable_relay: Some(self.enable_relay),
        }
    }

    /// What activating the record asks of the host. A Linux build without a
    /// systray icon does not manage starting with the session.
    pub open spec fn activation(self, profile: BuildProfile) -> ActivationView {
        ActivationView {
            auto_start: if profile.linux && !profile.systray_support {
                AutoStart::Unmanaged
            } else if self.auto_start {
                AutoStart::Enable
            } else {
                AutoStart::Disable
            },
            language: self.language,
        }
    }
}

/// Whether a fresh configuration lets the device be found once after the
/// start: only where the build has no systray icon to switch it on with.
pub fn default_allow_to_be_searched_once(profile: &BuildProfile) -> (allow: bool)
    ensures
        allow == !profile.systray_support,
{
    !profile.systray_support
}

impl Config {
    /// Before persisting or activating: the port and the secret must not be
    /// empty.
    pub fn empty_check(&self) -> (r: Result<(), String>)
        ensures
            match r {
                Ok(_) => self@.refusal() is None,
                Err(message) => self@.refusal() == Some(message@),
            },
    {
        if self.server_port.as_str().is_empty() {
            return Err("server_port is empty".to_owned());
        }
        if self.secret_key_hex.as_str().is_empty() {
            return Err("secret_key_hex is empty".to_owned());
        }
        Ok(())
    }

    /// What activating this configuration asks of the host, if it is ready:
    /// an empty port or secret is refused.
    pub fn set(&self, profile: &BuildProfile) -> (r: Result<Activation, String>)
        ensures
            match r {
                Ok(activation) => self@.refusal() is None && activation@ == self@.activation(
                    *profile,
                ),
                Err(message) => self@.refusal() == Some(message@),
            },
    {
        match self.empty_check() {
            Ok(_) => {},
            Err(message) => {
                return Err(message);
            },
        }
        let auto_start = if profile.linux && !profile.systray_support {
            AutoStart::Unmanaged
        } else if self.auto_start {
            AutoStart::Enable
        } else {
            AutoStart::Disable
        };
        Ok(Activation { auto_start, language: self.language.clone() })
    }

    /// The document to persist, if this configuration is ready. One with an
    /// empty port or secret yields no document.
    pub fn save(&self) -> (r: Result<ConfigDocument, String>)
        ensures
            match r {
                Ok(document) => self@.refusal() is None && document@ == self@.document(),
                Err(message) => self@.refusal() == Some(message@),
            },
    {
        match self.empty_check() {
            Ok(_) => Ok(self.to_document()),
            Err(message) => Err(message),
        }
    }

    /// What activating this configuration asks of the host, and the
    /// document to persist after that.
    pub fn save_and_set(&self, profile: &BuildProfile) -> (r: Result<
        (Activation, ConfigDocument),
        String,
    >)
        ensures
            match r {
                Ok(plan) => {
                    &&& self@.refusal() is None
                    &&& plan.0@ == self@.activation(*profile)
                    &&& plan.1@ == self@.document()
                },
                Err(message) => self@.refusal() == Some(message@),
            },
    {
        let activation = match self.set(profile) {
            Ok(activation) => activation,
            Err(message) => {
                return Err(message);
            },
        };
        match self.save() {
            Ok(document) => Ok((activation, document)),
            Err(message) => Err(message),
        }
    }

    /// The document that holds every field of this configuration.
    pub fn to_document(&self) -> (document: ConfigDocument)
        ensures
            document@ == self@.document(),
    {
        ConfigDocument {
            server_port: self.server_port.clone(),
            secret_key_hex: self.secret_key_hex.clone(),
            show_systray_icon: self.show_systray_icon,
            auto_start: self.auto_start,
            save_path: self.save_path.clone(),
            language: self.language.clone(),
            log_level: Some(self.log_level.clone()),
            allow_to_be_searched_once: Some(self.allow_to_be_searched_once),
            external_ips: copy_optional_texts(&self.external_ips),
            trusted_remote_hosts: copy_optional_texts(&self.trusted_remote_hosts),
            relay_server_address: Some(self.relay_server_address.clone()),
            relay_secret_key: copy_optional_text(&self.relay_secret_key),
            enable_relay: Some(self.enable_relay),
        }
    }

    /// The configuration that a persisted document stands for, with the
    /// defaults for what it leaves out.
    pub fn from_document(document: ConfigDocument, profile: &BuildProfile) -> (config: Config)
        ensures
            config@ == document@.completed(*profile),
    {
        Config {
            server_port: document.server_port,
            secret_key_hex: document.secret_key_hex,
            show_systray_icon: document.show_systray_icon,
            auto_start: document.auto_start,
            save_path: document.save_path,
            language: document.language,
            log_level: match document.log_level {
                Some(level) => level,
                None => String::new(),
            },
            allow_to_be_searched_once: match document.allow_to_be_searched_once {
                Some(allow) => allow,
                None => default_allow_to_be_searched_once(profile),
            },
            external_ips: document.external_ips,
            trusted_remote_hosts: document.trusted_remote_hosts,
            relay_server_address: match document.relay_server_address {
                Some(address) => address,
                None => String::new(),
            },
            relay_secret_key: document.relay_secret_key,
            enable_relay: match document.enable_relay {
                Some(enable) => enable,
                None => false,
            },
        }
    }

    /// The configuration of a first run, around a fresh secret.
    ///
    /// `desktop_path` is where received files go; without one they go to
    /// the working directory.
    pub fn generate_default(
        secret_key_hex: String,
        language: String,
        desktop_path: Option<String>,
        profile: &BuildProfile,
    ) -> (config: Config)
        ensures
            config@ == default_view(
                secret_key_hex@,
                language@,
                optional_text(desktop_path),
                *profile,
            ),
    {
        let mut hosts: Vec<String> = Vec::new();
        hosts.push("127.0.0.1".to_owned());
        hosts.push("localhost".to_owned());
        hosts.push("::1".to_owned());
        assert(crate::text::texts(hosts@) =~= loopback_hosts());
        Config {
            server_port: "6779".to_owned(),
            secret_key_hex,
            show_systray_icon: true,
            auto_start: false,
            save_path: match desktop_path {
                Some(path) => path,
                None => "./".to_owned(),
            },
            language,
            log_level: "INFO".to_owned(),
            allow_to_be_searched_once: default_allow_to_be_searched_once(profile),
            external_ips: None,
            trusted_remote_hosts: Some(hosts),
            relay_server_address: String::new(),
            relay_secret_key: Some(String::new()),
            enable_relay: false,
        }
    }

    /// The identifier of this device, derived from the secret.
    pub fn get_device_id(&self) -> (r: Result<String, SecretError>)
        ensures
            match r {
                Ok(id) => is_hex(self@.secret_bytes()) && id@ == device_id_of(
                    self@.secret_bytes(),
                ),
                Err(e) => !is_hex(self@.secret_bytes()) && e == SecretError::MalformedSecret,
            },
    {
        derive_device_id(self.secret_key_hex.as_str())
    }

    /// Whether traffic goes through the relay.
    pub fn relay_enabled(&self) -> (enabled: bool)
        ensures
            enabled == self@.relay_enabled(),
    {
        self.enable_relay && !self.relay_server_address.as_str().is_empty()
    }
}

/// A document that holds every field stands for the configuration it was
/// made from, whatever the build.
pub proof fn lemma_document_round_trip(config: ConfigView, profile: BuildProfile)
    ensures
        config.document().completed(profile) == config,
{
}

/// The configuration of a first run is ready exactly when its secret is not
/// empty, and it does not use the relay.
pub proof fn lemma_default_is_ready(
    secret: Seq<char>,
    language: Seq<char>,
    desktop_path: Option<Seq<char>>,
    profile: BuildProfile,
)
    ensures
        default_view(secret, language, desktop_path, profile).is_ready() <==> secret.len() > 0,
        !default_view(secret, language, desktop_path, profile).relay_enabled(),
{
    reveal_strlit("6779");
}

} // verus!
