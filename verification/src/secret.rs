//! What is derived from the shared secret: the device identifier and the
//! AEAD cipher.

use crate::hexcode::{decode, decoded, encode, encoded, encoded_char, is_hex, is_lower_hex_char};
use crate::hexcode::{is_hex_text, lemma_decode_encoded, lemma_encoded_char, lemma_hex_text};
use sha2::Digest;
use aes_gcm::KeyInit;
use rand::RngCore;
use vstd::prelude::*;
use vstd::string::StrSliceExecFns;
use vstd::string::StringSliceAdditionalSpecFns;
use vstd::utf8::encode_utf8;

verus! {

/// Number of characters of a device identifier.
pub const DEVICE_ID_LEN: usize = 16;

/// Number of bytes of the cipher's key.
pub const CIPHER_KEY_LEN: usize = 32;

/// Why a secret could not be used.
#[derive(Debug, Clone, Copy, PartialEq, Eq, Structural)]
pub enum SecretError {
    /// The secret is not hexadecimal text.
    MalformedSecret,
    /// The secret decodes to a number of bytes that the cipher does not take.
    InvalidKeyLength,
    /// The operating system gave no random bytes.
    EntropyUnavailable,
}

impl SecretError {
    /// What the error says.
    pub open spec fn text(self) -> Seq<char> {
        match self {
            SecretError::MalformedSecret => "the secret is not hexadecimal text"@,
            SecretError::InvalidKeyLength => "the secret does not decode to a 32-byte key"@,
            SecretError::EntropyUnavailable => "the system gave no random bytes"@,
        }
    }

    /// What the error says.
    pub fn message(&self) -> (message: String)
        ensures
            message@ == self.text(),
    {
        match self {
            SecretError::MalformedSecret => "the secret is not hexadecimal text".to_owned(),
            SecretError::InvalidKeyLength => "the secret does not decode to a 32-byte key".to_owned(),
            SecretError::EntropyUnavailable => "the system gave no random bytes".to_owned(),
        }
    }
}

/// The SHA-256 digest of `data`.
pub uninterp spec fn sha256(data: Seq<u8>) -> Seq<u8>;

/// `sha2::Sha256::digest`: the SHA-256 digest of `data`, which is 32 bytes
/// long.
#[verifier::external_body]
fn sha256_digest(data: &[u8]) -> (digest: Vec<u8>)
    ensures
        digest@ == sha256(data@),
        digest@.len() == 32,
{
    sha2::Sha256::digest(data).to_vec()
}

/// The identifier of the device that holds the secret with the given UTF-8
/// bytes: the first characters of the hexadecimal text of the digest of the
/// digest of those bytes.
pub open spec fn device_id_of(secret: Seq<u8>) -> Seq<char> {
    Seq::new(DEVICE_ID_LEN as nat, |i: int| encoded_char(sha256(sha256(secret)), i))
}

/// The device identifier for a secret.
///
/// The secret must be hexadecimal text; any other input is refused as
/// malformed.
pub fn derive_device_id(secret_hex: &str) -> (r: Result<String, SecretError>)
    ensures
        match r {
            Ok(id) => is_hex(secret_hex.spec_bytes()) && id@ == device_id_of(
                secret_hex.spec_bytes(),
            ),
            Err(e) => !is_hex(secret_hex.spec_bytes()) && e == SecretError::MalformedSecret,
        },
        r is Ok ==> r->Ok_0@ == encoded(sha256(sha256(secret_hex.spec_bytes()))).subrange(
            0,
            DEVICE_ID_LEN as int,
        ),
{
    let bytes = secret_hex.as_bytes();
    if decode(bytes).is_err() {
        return Err(SecretError::MalformedSecret);
    }
    let once = sha256_digest(bytes);
    let twice = sha256_digest(once.as_slice());
    let text = encode(twice.as_slice());
    proof {
        lemma_decode_encoded(twice@);
    }
    let id = text.as_str().substring_ascii(0, DEVICE_ID_LEN).to_owned();
    assert(id@ =~= device_id_of(secret_hex.spec_bytes()));
    assert(id@ == encoded(twice@).subrange(0, DEVICE_ID_LEN as int));
    Ok(id)
}

/// The first bytes of the digest of the digest of a secret: those that its
/// device identifier spells out.
pub open spec fn digest_prefix(secret: Seq<u8>) -> Seq<u8> {
    Seq::new((DEVICE_ID_LEN / 2) as nat, |k: int| sha256(sha256(secret))[k])
}

/// A device identifier has sixteen characters, each a lower-case
/// hexadecimal digit, whatever the secret.
pub proof fn lemma_device_id_shape(secret: Seq<u8>)
    ensures
        device_id_of(secret).len() == DEVICE_ID_LEN,
        forall|i: int|
            0 <= i < DEVICE_ID_LEN ==> is_lower_hex_char(#[trigger] device_id_of(secret)[i]),
{
    assert forall|i: int| 0 <= i < DEVICE_ID_LEN implies is_lower_hex_char(
        #[trigger] device_id_of(secret)[i],
    ) by {
        lemma_encoded_char(sha256(sha256(secret)), i);
    }
}

/// The same secret always has the same device identifier.
pub proof fn lemma_device_id_stable(first: Seq<u8>, second: Seq<u8>)
    requires
        first == second,
    ensures
        device_id_of(first) == device_id_of(second),
{
}

/// Two secrets have the same device identifier exactly when the digests of
/// their digests agree in the first eight bytes: any other two secrets are
/// told apart.
pub proof fn lemma_device_id_distinct(first: Seq<u8>, second: Seq<u8>)
    ensures
        device_id_of(first) == device_id_of(second) <==> digest_prefix(first) == digest_prefix(
            second,
        ),
{
    let a = sha256(sha256(first));
    let b = sha256(sha256(second));
    if device_id_of(first) == device_id_of(second) {
        assert forall|k: int| 0 <= k < DEVICE_ID_LEN / 2 implies a[k] == b[k] by {
            lemma_encoded_char(a, 2 * k);
            lemma_encoded_char(a, 2 * k + 1);
            lemma_encoded_char(b, 2 * k);
            lemma_encoded_char(b, 2 * k + 1);
            assert(device_id_of(first)[2 * k] == encoded_char(a, 2 * k));
            assert(device_id_of(second)[2 * k] == encoded_char(b, 2 * k));
            assert(device_id_of(first)[2 * k + 1] == encoded_char(a, 2 * k + 1));
            assert(device_id_of(second)[2 * k + 1] == encoded_char(b, 2 * k + 1));
            assert((2 * k) / 2 == k && (2 * k + 1) / 2 == k);
            assert(16 * (a[k] / 16) + a[k] % 16 == a[k]);
            assert(16 * (b[k] / 16) + b[k] % 16 == b[k]);
        }
        assert(digest_prefix(first) =~= digest_prefix(second));
    }
    if digest_prefix(first) == digest_prefix(second) {
        assert forall|i: int| 0 <= i < DEVICE_ID_LEN implies encoded_char(a, i) == encoded_char(
            b,
            i,
        ) by {
            assert(digest_prefix(first)[i / 2] == a[i / 2]);
            assert(digest_prefix(second)[i / 2] == b[i / 2]);
        }
        assert(device_id_of(first) =~= device_id_of(second));
    }
}

/// `InvalidLength` of the cipher crates: the key has the wrong length.
#[verifier::external_type_specification]
#[verifier::external_body]
pub struct ExInvalidLength(aes_gcm::aes::cipher::InvalidLength);

/// `aes_gcm::Aes256Gcm::new_from_slice`: it builds a cipher from `key`
/// exactly when `key` is 32 bytes long, and refuses any other length.
#[verifier::external_body]
fn cipher_accepts(key: &[u8]) -> (r: Result<(), aes_gcm::aes::cipher::InvalidLength>)
    ensures
        r is Ok <==> key@.len() == CIPHER_KEY_LEN,
{
    aes_gcm::Aes256Gcm::new_from_slice(key).map(|_| ())
}

/// The AEAD cipher of the shared secret, held as the key that it is built
/// from.
pub struct AesGcmCipher {
    key: Vec<u8>,
}

impl View for AesGcmCipher {
    type V = Seq<u8>;

    /// The key.
    closed spec fn view(&self) -> Seq<u8> {
        self.key@
    }
}

impl AesGcmCipher {
    #[verifier::type_invariant]
    spec fn key_fits(self) -> bool {
        self.key@.len() == CIPHER_KEY_LEN
    }

    /// The key of the cipher, always 32 bytes.
    pub fn key(&self) -> (key: &[u8])
        ensures
            key@ == self@,
            key@.len() == CIPHER_KEY_LEN,
    {
        proof {
            use_type_invariant(self);
        }
        self.key.as_slice()
    }
}

/// The key that a secret with the given UTF-8 bytes stands for, or why it
/// stands for none.
pub open spec fn cipher_key_of(secret: Seq<u8>) -> Result<Seq<u8>, SecretError> {
    if !is_hex(secret) {
        Err(SecretError::MalformedSecret)
    } else if decoded(secret).len() != CIPHER_KEY_LEN {
        Err(SecretError::InvalidKeyLength)
    } else {
        Ok(decoded(secret))
    }
}

/// A secret yields a key exactly when it is 64 hexadecimal digits. Any
/// other number of digits is an invalid key length, and any other text is
/// malformed.
pub proof fn lemma_key_needs_64_digits(secret: Seq<char>)
    ensures
        cipher_key_of(encode_utf8(secret)) is Ok <==> is_hex_text(secret) && secret.len() == 2
            * CIPHER_KEY_LEN,
        !is_hex_text(secret) ==> cipher_key_of(encode_utf8(secret)) == Err::<Seq<u8>, SecretError>(
            SecretError::MalformedSecret,
        ),
        is_hex_text(secret) && secret.len() != 2 * CIPHER_KEY_LEN ==> cipher_key_of(
            encode_utf8(secret),
        ) == Err::<Seq<u8>, SecretError>(SecretError::InvalidKeyLength),
{
    lemma_hex_text(secret);
}

/// The cipher for a secret: keyed with the bytes that the secret's
/// hexadecimal text stands for.
pub fn build_cipher(secret_hex: &str) -> (r: Result<AesGcmCipher, SecretError>)
    ensures
        match r {
            Ok(cipher) => cipher_key_of(secret_hex.spec_bytes()) == Ok::<Seq<u8>, SecretError>(
                cipher@,
            ),
            Err(e) => cipher_key_of(secret_hex.spec_bytes()) == Err::<Seq<u8>, SecretError>(e),
        },
{
    let key = match decode(secret_hex.as_bytes()) {
        Ok(key) => key,
        Err(_) => {
            return Err(SecretError::MalformedSecret);
        },
    };
    match cipher_accepts(key.as_slice()) {
        Ok(()) => Ok(AesGcmCipher { key }),
        Err(_) => Err(SecretError::InvalidKeyLength),
    }
}

/// `rand::Error`: the operating system's generator failed.
#[verifier::external_type_specification]
#[verifier::external_body]
pub struct ExRandError(rand::Error);

/// `rand::rngs::OsRng::try_fill_bytes` on a fresh buffer of `count` bytes:
/// on success the buffer, filled by the operating system's generator, still
/// has `count` bytes.
#[verifier::external_body]
fn random_bytes(count: usize) -> (r: Result<Vec<u8>, rand::Error>)
    requires
        count <= isize::MAX,
    ensures
        r is Ok ==> r->Ok_0@.len() == count,
{
    let mut buffer = vec![0u8; count];
    rand::rngs::OsRng.try_fill_bytes(&mut buffer).map(|_| buffer)
}

/// The hexadecimal text of `count` fresh random bytes. The text must fit
/// in a `String`.
pub fn generate_rand_bytes_hex(count: usize) -> (r: Result<String, SecretError>)
    requires
        2 * count <= isize::MAX,
    ensures
        match r {
            Ok(text) => exists|bytes: Seq<u8>| bytes.len() == count && text@ == encoded(bytes),
            Err(e) => e == SecretError::EntropyUnavailable,
        },
{
    match random_bytes(count) {
        Ok(bytes) => Ok(encode(bytes.as_slice())),
        Err(_) => Err(SecretError::EntropyUnavailable),
    }
}

/// The hexadecimal text of a key of the cipher's length is a secret that
/// yields that key.
pub proof fn lemma_encoded_key_is_usable(key: Seq<u8>)
    requires
        key.len() == CIPHER_KEY_LEN,
    ensures
        cipher_key_of(encode_utf8(encoded(key))) == Ok::<Seq<u8>, SecretError>(key),
{
    lemma_decode_encoded(key);
}

} // verus!
