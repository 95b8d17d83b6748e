//! The application context: the one configuration of the process and the
//! flag that makes the device discoverable, with the ways to start it, read
//! it and replace it.

use crate::config::{default_view, Activation, BuildProfile, Config, ConfigDocument};
use crate::hexcode::encoded;
use crate::secret::{build_cipher, cipher_key_of, generate_rand_bytes_hex};
use crate::secret::{AesGcmCipher, SecretError, CIPHER_KEY_LEN};
use crate::text::optional_text;
use crate::tls_material::TlsSetup;
use crate::trust::{is_trusted, trusts};
use vstd::prelude::*;

verus! {

/// What every component is handed: the configuration, and whether the
/// device lets itself be found just now.
#[derive(Debug, Clone, PartialEq, Eq)]
pub struct AppContext {
    pub config: Config,
    pub allow_to_be_searched: bool,
}

/// What the host knows that a first configuration needs.
#[derive(Debug, Clone, PartialEq, Eq)]
pub struct HostDefaults {
    /// The language of the system.
    pub language: String,
    /// The desktop directory, where there is one.
    pub desktop_path: Option<String>,
}

/// A started context, with what the host has to do to finish the start.
#[derive(Debug, Clone, PartialEq, Eq)]
pub struct Startup {
    pub context: AppContext,
    /// What activating the configuration asks of the host.
    pub activation: Activation,
    /// The document to persist after that: the one of a first run.
    pub persist: Option<ConfigDocument>,
}

/// What the bootstrap begins with, once the context stands.
#[derive(Debug, Clone, PartialEq, Eq)]
pub struct InitPlan {
    /// The level to log at, as the configuration names it.
    pub log_level: String,
    /// The setup of the TLS material, at its start.
    pub tls: TlsSetup,
}

/// Why no context could be started.
#[derive(Debug, Clone, PartialEq, Eq)]
pub enum StartupError {
    /// The configuration is not ready; the message says why.
    Refused(String),
    /// No secret could be generated.
    NoSecret(SecretError),
}

/// Starts a context from a persisted document: the document's
/// configuration, discoverable if it asks to be found once. Nothing is to be
/// persisted.
pub fn resume(document: ConfigDocument, profile: &BuildProfile) -> (r: Result<Startup, String>)
    ensures
        match r {
            Ok(startup) => {
                &&& document@.completed(*profile).refusal() is None
                &&& startup.context.config@ == document@.completed(*profile)
                &&& startup.context.allow_to_be_searched == document@.completed(
                    *profile,
                ).allow_to_be_searched_once
                &&& startup.activation@ == document@.completed(*profile).activation(*profile)
                &&& startup.persist is None
            },
            Err(message) => document@.completed(*profile).refusal() == Some(message@),
        },
{
    let config = Config::from_document(document, profile);
    let activation = match config.set(profile) {
        Ok(activation) => activation,
        Err(message) => {
            return Err(message);
        },
    };
    let allow_to_be_searched = config.allow_to_be_searched_once;
    Ok(Startup { context: AppContext { config, allow_to_be_searched }, activation, persist: None })
}

/// Starts a context on a first run, around the given secret: the default
/// configuration, not discoverable, and its document to persist.
pub fn first_run(secret_key_hex: String, host: HostDefaults, profile: &BuildProfile) -> (r: Result<
    Startup,
    String,
>)
    ensures
        match r {
            Ok(startup) => {
                &&& secret_key_hex@.len() > 0
                &&& startup.context.config@ == default_view(
                    secret_key_hex@,
                    host.language@,
                    optional_text(host.desktop_path),
                    *profile,
                )
                &&& !startup.context.allow_to_be_searched
                &&& startup.activation@ == startup.context.config@.activation(*profile)
                &&& startup.persist matches Some(document) && document@
                    == startup.context.config@.document()
            },
            Err(message) => secret_key_hex@.len() == 0 && message@ == "secret_key_hex is empty"@,
        },
{
    let config = Config::generate_default(secret_key_hex, host.language, host.desktop_path, profile);
    proof {
        reveal_strlit("6779");
    }
    let (activation, document) = match config.save_and_set(profile) {
        Ok(plan) => plan,
        Err(message) => {
            return Err(message);
        },
    };
    Ok(
        Startup {
            context: AppContext { config, allow_to_be_searched: false },
            activation,
            persist: Some(document),
        },
    )
}

/// Starts the context of the process: from the persisted document where
/// there is one, else as a first run around a fresh random secret of the
/// cipher's key length.
pub fn init_global_config(
    document: Option<ConfigDocument>,
    host: HostDefaults,
    profile: &BuildProfile,
) -> (r: Result<Startup, StartupError>)
    ensures
        match document {
            Some(document) => match r {
                Ok(startup) => {
                    &&& document@.completed(*profile).refusal() is None
                    &&& startup.context.config@ == document@.completed(*profile)
                    &&& startup.context.allow_to_be_searched == document@.completed(
                        *profile,
                    ).allow_to_be_searched_once
                    &&& startup.activation@ == document@.completed(*profile).activation(*profile)
                    &&& startup.persist is None
                },
                Err(e) => e matches StartupError::Refused(message) && document@.completed(
                    *profile,
                ).refusal() == Some(message@),
            },
            None => match r {
                Ok(startup) => {
                    &&& exists|key: Seq<u8>|
                        key.len() == CIPHER_KEY_LEN && startup.context.config@ == default_view(
                            encoded(key),
                            host.language@,
                            optional_text(host.desktop_path),
                            *profile,
                        )
                    &&& !startup.context.allow_to_be_searched
                    &&& startup.activation@ == startup.context.config@.activation(*profile)
                    &&& startup.persist matches Some(document) && document@
                        == startup.context.config@.document()
                },
                Err(e) => e == StartupError::NoSecret(SecretError::EntropyUnavailable),
            },
        },
{
    match document {
        Some(document) => match resume(document, profile) {
            Ok(startup) => Ok(startup),
            Err(message) => Err(StartupError::Refused(message)),
        },
        None => {
            let secret = match generate_rand_bytes_hex(CIPHER_KEY_LEN) {
                Ok(secret) => secret,
                Err(e) => {
                    return Err(StartupError::NoSecret(e));
                },
            };
            match first_run(secret, host, profile) {
                Ok(startup) => Ok(startup),
                Err(message) => {
                    // a secret of the cipher's key length is not empty
                    Err(StartupError::Refused(message))
                },
            }
        },
    }
}

/// Begins the bootstrap: logging at the level that the configuration names,
/// then the setup of the TLS material from its first state.
pub fn init(context: &AppContext) -> (plan: InitPlan)
    ensures
        plan.log_level@ == context.config@.log_level,
        plan.tls == TlsSetup::Probing,
{
    InitPlan { log_level: context.config.log_level.clone(), tls: TlsSetup::start() }
}

/// The configuration, to read.
pub fn read_config(context: &AppContext) -> (config: &Config)
    ensures
        *config == context.config,
{
    &context.config
}

/// The configuration, to change in place. The flag is not touched.
pub fn write_config(context: &mut AppContext) -> (config: &mut Config)
    ensures
        *config == old(context).config,
        final(context).config == *final(config),
        final(context).allow_to_be_searched == old(context).allow_to_be_searched,
{
    &mut context.config
}

/// The cipher keyed with the secret of the context's configuration.
pub fn get_cipher(context: &AppContext) -> (r: Result<AesGcmCipher, SecretError>)
    ensures
        match r {
            Ok(cipher) => cipher_key_of(context.config@.secret_bytes()) == Ok::<
                Seq<u8>,
                SecretError,
            >(cipher@),
            Err(e) => cipher_key_of(context.config@.secret_bytes()) == Err::<Seq<u8>, SecretError>(
                e,
            ),
        },
{
    build_cipher(context.config.secret_key_hex.as_str())
}

impl AppContext {
    /// Whether `remote_host` may proceed without the relay.
    pub fn is_trusted(&self, remote_host: &str) -> (trusted: bool)
        ensures
            trusted == trusts(self.config@, self.allow_to_be_searched, remote_host@),
    {
        is_trusted(remote_host, &self.config, self.allow_to_be_searched)
    }

    /// Makes the device discoverable, or ends that. The configuration is
    /// not touched.
    pub fn set_allow_to_be_searched(&mut self, allow: bool)
        ensures
            final(self).allow_to_be_searched == allow,
            final(self).config == old(self).config,
    {
        self.allow_to_be_searched = allow;
    }

    /// Replaces the configuration as a whole, if the new one is ready, and
    /// says what the host has to activate and to persist. One that is not
    /// ready is refused and leaves the context as it was.
    pub fn replace_config(&mut self, config: Config, profile: &BuildProfile) -> (r: Result<
        (Activation, ConfigDocument),
        String,
    >)
        ensures
            final(self).allow_to_be_searched == old(self).allow_to_be_searched,
            match r {
                Ok(plan) => {
                    &&& config@.refusal() is None
                    &&& final(self).config == config
                    &&& plan.0@ == config@.activation(*profile)
                    &&& plan.1@ == config@.document()
                },
                Err(message) => config@.refusal() == Some(message@) && final(self).config == old(
                    self,
                ).config,
            },
    {
        match config.save_and_set(profile) {
            Ok(plan) => {
                self.config = config;
                Ok(plan)
            },
            Err(message) => Err(message),
        }
    }
}

} // verus!
