//! Secure identity and transport bootstrap for a device-pairing application.
//!
//! One shared secret, kept as a hexadecimal string in the configuration,
//! yields a stable device identifier and an AEAD cipher. Beside it stand the
//! rules for the locally issued TLS material, the TLS acceptor built from it,
//! and the policy that decides which remote hosts may connect directly.

pub mod acceptor;
pub mod config;
pub mod hexcode;
pub mod secret;
pub mod store;
pub mod text;
pub mod tls_material;
pub mod trust;

pub use acceptor::{get_tls_acceptor, AcceptorCell, TlsError};
pub use config::{default_allow_to_be_searched_once, BuildProfile, Config, ConfigDocument};
pub use secret::{build_cipher, derive_device_id, AesGcmCipher, SecretError};
pub use store::{get_cipher, init, init_global_config, read_config, write_config, AppContext};
pub use tls_material::{TlsAction, TlsEvent, TlsFile, TlsPresence, TlsSetup, TlsSetupError};
pub use trust::is_trusted;
