//! The TLS acceptor: the server's key and certificate are read from PEM
//! text, and the acceptor is built from them once.

use std::sync::Arc;
use tokio_rustls::rustls::pki_types::{CertificateDer, PrivateKeyDer};
use tokio_rustls::rustls::pki_types::{PrivatePkcs1KeyDer, PrivatePkcs8KeyDer};
use tokio_rustls::rustls::ServerConfig;
use tokio_rustls::TlsAcceptor;
use vstd::prelude::*;

verus! {

/// Why no acceptor could be built.
#[derive(Debug, Clone, Copy, PartialEq, Eq, Structural)]
pub enum TlsError {
    /// The key file holds neither a PKCS#8 key nor an RSA key that reads.
    NoPrivateKeyFound,
    /// The certificate file holds no certificate.
    NoCertificateFound,
    /// The certificate file breaks off or is garbled before its first
    /// certificate.
    UnreadableCertificate,
    /// The TLS library refuses the key, or the key and the certificate do
    /// not belong together.
    RejectedMaterial,
}

impl TlsError {
    /// What the error says.
    pub open spec fn text(self) -> Seq<char> {
        match self {
            TlsError::NoPrivateKeyFound => "no private key found in the key file"@,
            TlsError::NoCertificateFound => "no certificate found in the certificate file"@,
            TlsError::UnreadableCertificate => "the certificate file cannot be read as PEM"@,
            TlsError::RejectedMaterial => "the TLS library rejects the key or the certificate"@,
        }
    }

    /// What the error says.
    pub fn message(&self) -> (message: String)
        ensures
            message@ == self.text(),
    {
        match self {
            TlsError::NoPrivateKeyFound => "no private key found in the key file".to_owned(),
            TlsError::NoCertificateFound => "no certificate found in the certificate file".to_owned(),
            TlsError::UnreadableCertificate => "the certificate file cannot be read as PEM".to_owned(),
            TlsError::RejectedMaterial => "the TLS library rejects the key or the certificate".to_owned(),
        }
    }
}

/// How a private key is encoded.
#[derive(Debug, Clone, Copy, PartialEq, Eq, Structural)]
pub enum KeyEncoding {
    /// PKCS#8, a `PRIVATE KEY` section.
    Pkcs8,
    /// PKCS#1, an `RSA PRIVATE KEY` section.
    Pkcs1,
}

/// The server's private key: its DER bytes and how to read them.
#[derive(Debug, Clone, PartialEq, Eq)]
pub struct ServerKey {
    pub encoding: KeyEncoding,
    pub der: Vec<u8>,
}

/// What a search for the first section of one kind found in PEM text:
/// nothing, the section's DER bytes, or text that does not read as PEM
/// before any such section.
pub type Scan = Option<Result<Seq<u8>, ()>>;

/// What `rustls_pemfile::pkcs8_private_keys` yields first on `pem`.
pub uninterp spec fn pkcs8_scan(pem: Seq<u8>) -> Option<Result<Seq<u8>, ()>>;

/// What `rustls_pemfile::rsa_private_keys` yields first on `pem`.
pub uninterp spec fn rsa_scan(pem: Seq<u8>) -> Option<Result<Seq<u8>, ()>>;

/// What `rustls_pemfile::certs` yields first on `pem`.
pub uninterp spec fn cert_scan(pem: Seq<u8>) -> Option<Result<Seq<u8>, ()>>;

/// `std::io::Error`: what the PEM reader says of text it cannot read.
#[verifier::external_type_specification]
#[verifier::external_body]
pub struct ExIoError(std::io::Error);

/// `rustls::Error`: why the TLS library built no configuration.
#[verifier::external_type_specification]
#[verifier::external_body]
pub struct ExRustlsError(tokio_rustls::rustls::Error);

/// `rustls::ServerConfig`: a server configuration of the TLS library.
#[verifier::external_type_specification]
#[verifier::external_body]
pub struct ExServerConfig(ServerConfig);

/// `tokio_rustls::TlsAcceptor`: the acceptor, which shares its
/// configuration with its clones.
#[verifier::external_type_specification]
#[verifier::external_body]
pub struct ExTlsAcceptor(TlsAcceptor);

/// What was found, without what the reader said of text it could not read.
pub open spec fn scan_of(found: Option<Result<Vec<u8>, std::io::Error>>) -> Scan {
    match found {
        Some(Ok(der)) => Some(Ok(der@)),
        Some(Err(_)) => Some(Err(())),
        None => None,
    }
}

/// `rustls_pemfile::pkcs8_private_keys`, first item: the DER bytes of the
/// first `PRIVATE KEY` section of `pem`, an error where the text does not
/// read as PEM before one, or nothing where it holds none.
#[verifier::external_body]
fn first_pkcs8_key(pem: &[u8]) -> (found: Option<Result<Vec<u8>, std::io::Error>>)
    ensures
        scan_of(found) == pkcs8_scan(pem@),
{
    let mut reader = pem;
    let first = rustls_pemfile::pkcs8_private_keys(&mut reader).next();
    first.map(|item| item.map(|key| key.secret_pkcs8_der().to_vec()))
}

/// `rustls_pemfile::rsa_private_keys`, first item: the DER bytes of the
/// first `RSA PRIVATE KEY` section of `pem`, an error where the text does
/// not read as PEM before one, or nothing where it holds none.
#[verifier::external_body]
fn first_rsa_key(pem: &[u8]) -> (found: Option<Result<Vec<u8>, std::io::Error>>)
    ensures
        scan_of(found) == rsa_scan(pem@),
{
    let mut reader = pem;
    let first = rustls_pemfile::rsa_private_keys(&mut reader).next();
    first.map(|item| item.map(|key| key.secret_pkcs1_der().to_vec()))
}

/// `rustls_pemfile::certs`, first item: the DER bytes of the first
/// `CERTIFICATE` section of `pem`, an error where the text does not read as
/// PEM before one, or nothing where it holds none.
#[verifier::external_body]
fn first_certificate(pem: &[u8]) -> (found: Option<Result<Vec<u8>, std::io::Error>>)
    ensures
        scan_of(found) == cert_scan(pem@),
{
    let mut reader = pem;
    let first = rustls_pemfile::certs(&mut reader).next();
    first.map(|item| item.map(|cert| cert.to_vec()))
}

/// A server configuration of `rustls` without client authentication, on
/// the `ring` provider and the default protocol versions, with the one
/// certificate and its key (`ServerConfig::builder_with_provider`, then
/// `with_single_cert`). Nothing is promised of the outcome: the library
/// refuses keys it cannot read and keys that do not match the certificate.
#[verifier::external_body]
fn server_config(certificate: Vec<u8>, key: ServerKey) -> (r: Result<
    ServerConfig,
    tokio_rustls::rustls::Error,
>) {
    let key_der = match key.encoding {
        KeyEncoding::Pkcs8 => PrivateKeyDer::Pkcs8(PrivatePkcs8KeyDer::from(key.der)),
        KeyEncoding::Pkcs1 => PrivateKeyDer::Pkcs1(PrivatePkcs1KeyDer::from(key.der)),
    };
    let provider = tokio_rustls::rustls::crypto::ring::default_provider();
    ServerConfig::builder_with_provider(Arc::new(provider))
        .with_safe_default_protocol_versions()?
        .with_no_client_auth()
        .with_single_cert(vec![CertificateDer::from(certificate)], key_der)
}

/// `TlsAcceptor::from`: the acceptor that shares `config`.
#[verifier::external_body]
fn acceptor_of(config: ServerConfig) -> (acceptor: TlsAcceptor) {
    TlsAcceptor::from(Arc::new(config))
}

/// The key that the two searches of a key file yield: the PKCS#8 key where
/// that search found one, else the RSA key where that search found one.
pub open spec fn chosen_key(pkcs8: Scan, rsa: Scan) -> Option<(KeyEncoding, Seq<u8>)> {
    match pkcs8 {
        Some(Ok(der)) => Some((KeyEncoding::Pkcs8, der)),
        _ => match rsa {
            Some(Ok(der)) => Some((KeyEncoding::Pkcs1, der)),
            _ => None,
        },
    }
}

/// The certificate that the search of a certificate file yields, or why it
/// yields none.
pub open spec fn chosen_certificate(found: Scan) -> Result<Seq<u8>, TlsError> {
    match found {
        Some(Ok(der)) => Ok(der),
        Some(Err(_)) => Err(TlsError::UnreadableCertificate),
        None => Err(TlsError::NoCertificateFound),
    }
}

/// Why no acceptor can be built from the two files, if the files
/// themselves say so: a missing key counts before a missing certificate.
pub open spec fn file_fault(key_pem: Seq<u8>, cert_pem: Seq<u8>) -> Option<TlsError> {
    if chosen_key(pkcs8_scan(key_pem), rsa_scan(key_pem)) is None {
        Some(TlsError::NoPrivateKeyFound)
    } else {
        match chosen_certificate(cert_scan(cert_pem)) {
            Ok(_) => None,
            Err(e) => Some(e),
        }
    }
}

/// A found key under its encoding, if the search found one.
pub fn found_key(encoding: KeyEncoding, found: Option<Result<Vec<u8>, std::io::Error>>) -> (key:
    Option<ServerKey>)
    ensures
        match key {
            Some(key) => scan_of(found) == Some(Ok::<Seq<u8>, ()>(key.der@)) && key.encoding
                == encoding,
            None => !(scan_of(found) matches Some(Ok(_))),
        },
{
    match found {
        Some(Ok(der)) => Some(ServerKey { encoding, der }),
        _ => None,
    }
}

/// The server's private key from the text of the key file: a PKCS#8 key
/// first, and an RSA key only where no PKCS#8 key was found.
pub fn load_private_key(key_pem: &[u8]) -> (r: Result<ServerKey, TlsError>)
    ensures
        match r {
            Ok(key) => chosen_key(pkcs8_scan(key_pem@), rsa_scan(key_pem@)) == Some(
                (key.encoding, key.der@),
            ),
            Err(e) => chosen_key(pkcs8_scan(key_pem@), rsa_scan(key_pem@)) is None && e
                == TlsError::NoPrivateKeyFound,
        },
{
    if let Some(key) = found_key(KeyEncoding::Pkcs8, first_pkcs8_key(key_pem)) {
        return Ok(key);
    }
    match found_key(KeyEncoding::Pkcs1, first_rsa_key(key_pem)) {
        Some(key) => Ok(key),
        None => Err(TlsError::NoPrivateKeyFound),
    }
}

/// The certificate that a search found, or the error for what it found
/// instead.
pub fn found_certificate(found: Option<Result<Vec<u8>, std::io::Error>>) -> (r: Result<
    Vec<u8>,
    TlsError,
>)
    ensures
        match r {
            Ok(der) => chosen_certificate(scan_of(found)) == Ok::<Seq<u8>, TlsError>(der@),
            Err(e) => chosen_certificate(scan_of(found)) == Err::<Seq<u8>, TlsError>(e),
        },
{
    match found {
        Some(Ok(der)) => Ok(der),
        Some(Err(_)) => Err(TlsError::UnreadableCertificate),
        None => Err(TlsError::NoCertificateFound),
    }
}

/// The server's certificate from the text of the certificate file: the
/// first certificate in it.
pub fn load_certificate(cert_pem: &[u8]) -> (r: Result<Vec<u8>, TlsError>)
    ensures
        match r {
            Ok(der) => chosen_certificate(cert_scan(cert_pem@)) == Ok::<Seq<u8>, TlsError>(der@),
            Err(e) => chosen_certificate(cert_scan(cert_pem@)) == Err::<Seq<u8>, TlsError>(e),
        },
{
    found_certificate(first_certificate(cert_pem))
}

/// The acceptor for a server configuration, if the TLS library built one.
pub fn accepted(config: Result<ServerConfig, tokio_rustls::rustls::Error>) -> (r: Result<
    TlsAcceptor,
    TlsError,
>)
    ensures
        config is Ok <==> r is Ok,
        r is Err ==> r == Err::<TlsAcceptor, TlsError>(TlsError::RejectedMaterial),
{
    match config {
        Ok(config) => Ok(acceptor_of(config)),
        Err(_) => Err(TlsError::RejectedMaterial),
    }
}

/// Builds the acceptor from the text of the key file and of the certificate
/// file. No client certificate is asked for.
///
/// Where the files hold no key or no certificate the error says so. Where
/// they hold both, the TLS library decides: the result is an acceptor, or
/// `RejectedMaterial`.
pub fn get_tls_acceptor(key_pem: &[u8], cert_pem: &[u8]) -> (r: Result<TlsAcceptor, TlsError>)
    ensures
        match file_fault(key_pem@, cert_pem@) {
            Some(e) => r == Err::<TlsAcceptor, TlsError>(e),
            None => r is Ok || r == Err::<TlsAcceptor, TlsError>(TlsError::RejectedMaterial),
        },
{
    let key = match load_private_key(key_pem) {
        Ok(key) => key,
        Err(e) => {
            return Err(e);
        },
    };
    let certificate = match load_certificate(cert_pem) {
        Ok(certificate) => certificate,
        Err(e) => {
            return Err(e);
        },
    };
    accepted(server_config(certificate, key))
}

/// The place of the one acceptor of the process: empty until the first
/// use, and never built twice.
pub struct AcceptorCell {
    handle: Option<TlsAcceptor>,
}

impl AcceptorCell {
    /// What the cell holds.
    pub closed spec fn handle(&self) -> Option<TlsAcceptor> {
        self.handle
    }

    /// An empty cell.
    pub fn new() -> (cell: AcceptorCell)
        ensures
            cell.handle() is None,
    {
        AcceptorCell { handle: None }
    }

    /// The acceptor, if it was built.
    pub fn get(&self) -> (handle: Option<&TlsAcceptor>)
        ensures
            match handle {
                Some(acceptor) => self.handle() == Some(*acceptor),
                None => self.handle() is None,
            },
    {
        self.handle.as_ref()
    }

    /// Builds the acceptor on the first use and keeps it; on every later
    /// use the cell is left as it is and the files are not read.
    pub fn get_or_build(&mut self, key_pem: &[u8], cert_pem: &[u8]) -> (r: Result<(), TlsError>)
        ensures
            old(self).handle() is Some ==> r is Ok && final(self).handle() == old(self).handle(),
            old(self).handle() is None ==> match file_fault(key_pem@, cert_pem@) {
                Some(e) => r == Err::<(), TlsError>(e) && final(self).handle() is None,
                None => (r is Ok && final(self).handle() is Some) || (r == Err::<(), TlsError>(
                    TlsError::RejectedMaterial,
                ) && final(self).handle() is None),
            },
    {
        if self.handle.is_some() {
            return Ok(());
        }
        match get_tls_acceptor(key_pem, cert_pem) {
            Ok(acceptor) => {
                self.handle = Some(acceptor);
                Ok(())
            },
            Err(e) => Err(e),
        }
    }
}

} // verus!
