//! The cryptographic core: signer and verifier variants over two algorithm
//! families, key loading and generation, and authenticated encryption with an
//! embedded nonce.
//!
//! Key material is an opaque byte sequence of which only the first 32 bytes
//! are used; loading fewer than 32 bytes is rejected.  Signatures are 32 bytes
//! (keyed hash) or 64 bytes (asymmetric); their transport form is URL-safe,
//! unpadded base64 text.

use crate::cli::text::TextSignFormat;
use crate::process::b64::{b64url, b64url_decode, b64url_decoded, b64url_encode, is_b64url_char};
use crate::process::gen_pass::{in_password_classes, process_genpass};
use crate::process::{CryptoError, KeyError, TextSign, TextVerify};
use crate::util::bytes_eq;
use chacha20poly1305::aead::Aead;
use chacha20poly1305::{AeadCore, KeyInit};
use vstd::prelude::*;
use vstd::slice::slice_to_vec;

verus! {

/// The 32-byte keyed digest of a message under a 32-byte key.
pub uninterp spec fn blake3_keyed_hash(key: Seq<u8>, msg: Seq<u8>) -> Seq<u8>;

/// The deterministic 64-byte signature of a message under a 32-byte secret key.
pub uninterp spec fn ed25519_signature(sk: Seq<u8>, msg: Seq<u8>) -> Seq<u8>;

/// The 32-byte verifying key derived from a 32-byte secret key.
pub uninterp spec fn ed25519_public_key(sk: Seq<u8>) -> Seq<u8>;

/// The accept/reject decision of the asymmetric verifier for a 32-byte
/// verifying key, a message and a 64-byte signature.
pub uninterp spec fn ed25519_accepts(pk: Seq<u8>, msg: Seq<u8>, sig: Seq<u8>) -> bool;

/// Relies on blake3::keyed_hash: the 32-byte keyed digest of the input, a
/// pure function of the key and the input.
#[verifier::external_body]
fn blake3_keyed_hash_exec(key: &[u8], msg: &[u8]) -> (r: Vec<u8>)
    requires
        key@.len() == 32,
    ensures
        r@ == blake3_keyed_hash(key@, msg@),
        r@.len() == 32,
{
    let k: &[u8; 32] = key.try_into().unwrap();
    blake3::keyed_hash(k, msg).as_bytes().to_vec()
}

/// Relies on ed25519_dalek::SigningKey::sign (RFC 8032): a deterministic
/// 64-byte signature that VerifyingKey::verify accepts for this message under
/// the 32-byte verifying key derived from the secret key.
#[verifier::external_body]
fn ed25519_sign_exec(sk: &[u8], msg: &[u8]) -> (r: Vec<u8>)
    requires
        sk@.len() == 32,
    ensures
        r@ == ed25519_signature(sk@, msg@),
        r@.len() == 64,
        ed25519_accepts(ed25519_public_key(sk@), msg@, r@),
{
    let k: &[u8; 32] = sk.try_into().unwrap();
    let key = ed25519_dalek::SigningKey::from_bytes(k);
    ed25519_dalek::Signer::sign(&key, msg).to_bytes().to_vec()
}

/// Relies on ed25519_dalek::VerifyingKey::verify: the library's accept/reject
/// decision for the signature over the message under the key; key bytes that
/// are not a valid point encoding accept nothing.
#[verifier::external_body]
fn ed25519_verify_exec(pk: &[u8], msg: &[u8], sig: &[u8]) -> (r: bool)
    requires
        pk@.len() == 32,
        sig@.len() == 64,
    ensures
        r == ed25519_accepts(pk@, msg@, sig@),
{
    let k: &[u8; 32] = pk.try_into().unwrap();
    let s: &[u8; 64] = sig.try_into().unwrap();
    match ed25519_dalek::VerifyingKey::from_bytes(k) {
        Ok(key) => ed25519_dalek::Verifier::verify(&key, msg, &ed25519_dalek::Signature::from_bytes(
            s,
        )).is_ok(),
        Err(_) => false,
    }
}

/// Relies on ed25519_dalek::SigningKey::generate: a fresh 32-byte secret key
/// drawn from the operating system's cryptographically secure random source.
#[verifier::external_body]
fn ed25519_generate_exec() -> (r: Vec<u8>)
    ensures
        r@.len() == 32,
{
    let key = ed25519_dalek::SigningKey::generate(&mut rand::rngs::OsRng);
    key.to_bytes().to_vec()
}

/// Relies on ed25519_dalek::SigningKey::verifying_key: the 32-byte verifying
/// key derived from the secret key, a pure function of it.
#[verifier::external_body]
fn ed25519_derive_public_exec(sk: &[u8]) -> (r: Vec<u8>)
    requires
        sk@.len() == 32,
    ensures
        r@ == ed25519_public_key(sk@),
        r@.len() == 32,
{
    let k: &[u8; 32] = sk.try_into().unwrap();
    ed25519_dalek::SigningKey::from_bytes(k).verifying_key().to_bytes().to_vec()
}

/// Builds a signer or verifier variant from raw key bytes.
pub trait KeyLoader: Sized {
    /// Keeps exactly the first 32 bytes of the material; fewer than 32 bytes
    /// are rejected with `KeyError::TooShort`.
    fn load(key: &[u8]) -> (r: Result<Self, KeyError>);
}

/// Produces fresh key material for an algorithm family.
pub trait KeyGenerator {
    /// The artifacts to persist, in the order they are to be written.
    fn generate() -> (r: Result<Vec<Vec<u8>>, KeyError>);
}

/// The keyed-hash (MAC-style) signer and verifier.  Holds a 32-byte key.
pub struct Blake3 {
    key: Vec<u8>,
}

impl Blake3 {
    #[verifier::type_invariant]
    spec fn type_inv(&self) -> bool {
        self.key@.len() == 32
    }

    /// The 32 key bytes this variant holds.
    pub closed spec fn key_bytes(&self) -> Seq<u8> {
        self.key@
    }

    /// Wraps an exactly-32-byte key.
    pub fn new(key: [u8; 32]) -> (s: Self)
        ensures
            s.key_bytes() == key@,
    {
        Blake3 { key: slice_to_vec(key.as_slice()) }
    }

    /// Keeps the first 32 bytes of the material; fewer are rejected.
    pub fn try_new(key: &[u8]) -> (r: Result<Self, KeyError>)
        ensures
            key@.len() >= 32 ==> (r matches Ok(s) && s.key_bytes() == key@.take(32)),
            key@.len() < 32 ==> r == Err::<Self, KeyError>(KeyError::TooShort),
    {
        if key.len() < 32 {
            Err(KeyError::TooShort)
        } else {
            let head = slice_to_vec(&key[0..32]);
            proof {
                assert(key@.subrange(0, 32) =~= key@.take(32));
            }
            Ok(Blake3 { key: head })
        }
    }
}

impl KeyLoader for Blake3 {
    fn load(key: &[u8]) -> (r: Result<Self, KeyError>)
        ensures
            key@.len() >= 32 ==> (r matches Ok(s) && s.key_bytes() == key@.take(32)),
            key@.len() < 32 ==> r == Err::<Self, KeyError>(KeyError::TooShort),
    {
        Blake3::try_new(key)
    }
}

impl TextSign for Blake3 {
    fn sign(&self, msg: &[u8]) -> (sig: Vec<u8>)
        ensures
            sig@ == blake3_keyed_hash(self.key_bytes(), msg@),
            sig@.len() == 32,
    {
        proof {
            use_type_invariant(self);
        }
        blake3_keyed_hash_exec(self.key.as_slice(), msg)
    }
}

impl TextVerify for Blake3 {
    fn verify(&self, msg: &[u8], sig: &[u8]) -> (r: Result<bool, KeyError>)
        ensures
            r == verdict_for(TextSignFormat::Blake3, self.key_bytes(), msg@, sig@),
    {
        proof {
            use_type_invariant(self);
            assert(self.key_bytes().take(32) =~= self.key_bytes());
        }
        let hash = blake3_keyed_hash_exec(self.key.as_slice(), msg);
        Ok(bytes_eq(sig, hash.as_slice()))
    }
}

impl KeyGenerator for Blake3 {
    fn generate() -> (r: Result<Vec<Vec<u8>>, KeyError>)
        ensures
            r matches Ok(keys) && keys@.len() == 1 && keys@[0]@.len() == 32 && forall|i: int|
                0 <= i < 32 ==> in_password_classes(#[trigger] keys@[0]@[i], true, true, true, true),
    {
        match process_genpass(32, true, true, true, true) {
            Ok(pass) => {
                let mut keys: Vec<Vec<u8>> = Vec::new();
                keys.push(pass);
                Ok(keys)
            },
            Err(_) => {
                proof {
                    assert(false);
                }
                Err(KeyError::TooShort)
            },
        }
    }
}

/// The asymmetric signer.  Holds a 32-byte secret key; the verifying half is
/// derived, never stored here.
pub struct Ed25519Sign {
    key: Vec<u8>,
}

impl Ed25519Sign {
    #[verifier::type_invariant]
    spec fn type_inv(&self) -> bool {
        self.key@.len() == 32
    }

    /// The 32 secret-key bytes this signer holds.
    pub closed spec fn key_bytes(&self) -> Seq<u8> {
        self.key@
    }

    /// Wraps an exactly-32-byte secret key.
    pub fn new(key: [u8; 32]) -> (s: Self)
        ensures
            s.key_bytes() == key@,
    {
        Ed25519Sign { key: slice_to_vec(key.as_slice()) }
    }

    /// Keeps the first 32 bytes of the material; fewer are rejected.
    pub fn try_new(key: &[u8]) -> (r: Result<Self, KeyError>)
        ensures
            key@.len() >= 32 ==> (r matches Ok(s) && s.key_bytes() == key@.take(32)),
            key@.len() < 32 ==> r == Err::<Self, KeyError>(KeyError::TooShort),
    {
        if key.len() < 32 {
            Err(KeyError::TooShort)
        } else {
            let head = slice_to_vec(&key[0..32]);
            proof {
                assert(key@.subrange(0, 32) =~= key@.take(32));
            }
            Ok(Ed25519Sign { key: head })
        }
    }
}

impl KeyLoader for Ed25519Sign {
    fn load(key: &[u8]) -> (r: Result<Self, KeyError>)
        ensures
            key@.len() >= 32 ==> (r matches Ok(s) && s.key_bytes() == key@.take(32)),
            key@.len() < 32 ==> r == Err::<Self, KeyError>(KeyError::TooShort),
    {
        Ed25519Sign::try_new(key)
    }
}

impl TextSign for Ed25519Sign {
    fn sign(&self, msg: &[u8]) -> (sig: Vec<u8>)
        ensures
            sig@ == ed25519_signature(self.key_bytes(), msg@),
            sig@.len() == 64,
            ed25519_accepts(ed25519_public_key(self.key_bytes()), msg@, sig@),
    {
        proof {
            use_type_invariant(self);
        }
        ed25519_sign_exec(self.key.as_slice(), msg)
    }
}

impl KeyGenerator for Ed25519Sign {
    fn generate() -> (r: Result<Vec<Vec<u8>>, KeyError>)
        ensures
            r matches Ok(keys) && keys@.len() == 2 && keys@[0]@.len() == 32 && keys@[1]@.len()
                == 32 && keys@[1]@ == ed25519_public_key(keys@[0]@),
    {
        let sk = ed25519_generate_exec();
        let pk = ed25519_derive_public_exec(sk.as_slice());
        let mut keys: Vec<Vec<u8>> = Vec::new();
        keys.push(sk);
        keys.push(pk);
        Ok(keys)
    }
}

/// The asymmetric verifier.  Holds only the 32-byte public half; no code path
/// can derive a secret key from it.
pub struct Ed25519Verify {
    key: Vec<u8>,
}

impl Ed25519Verify {
    #[verifier::type_invariant]
    spec fn type_inv(&self) -> bool {
        self.key@.len() == 32
    }

    /// The 32 verifying-key bytes this verifier holds.
    pub closed spec fn key_bytes(&self) -> Seq<u8> {
        self.key@
    }

    /// Wraps an exactly-32-byte verifying key.
    pub fn new(key: [u8; 32]) -> (s: Self)
        ensures
            s.key_bytes() == key@,
    {
        Ed25519Verify { key: slice_to_vec(key.as_slice()) }
    }

    /// Keeps the first 32 bytes of the material; fewer are rejected.
    pub fn try_new(key: &[u8]) -> (r: Result<Self, KeyError>)
        ensures
            key@.len() >= 32 ==> (r matches Ok(s) && s.key_bytes() == key@.take(32)),
            key@.len() < 32 ==> r == Err::<Self, KeyError>(KeyError::TooShort),
    {
        if key.len() < 32 {
            Err(KeyError::TooShort)
        } else {
            let head = slice_to_vec(&key[0..32]);
            proof {
                assert(key@.subrange(0, 32) =~= key@.take(32));
            }
            Ok(Ed25519Verify { key: head })
        }
    }
}

impl KeyLoader for Ed25519Verify {
    fn load(key: &[u8]) -> (r: Result<Self, KeyError>)
        ensures
            key@.len() >= 32 ==> (r matches Ok(s) && s.key_bytes() == key@.take(32)),
            key@.len() < 32 ==> r == Err::<Self, KeyError>(KeyError::TooShort),
    {
        Ed25519Verify::try_new(key)
    }
}

impl TextVerify for Ed25519Verify {
    fn verify(&self, msg: &[u8], sig: &[u8]) -> (r: Result<bool, KeyError>)
        ensures
            r == verdict_for(TextSignFormat::Ed25519, self.key_bytes(), msg@, sig@),
    {
        proof {
            use_type_invariant(self);
            assert(self.key_bytes().take(32) =~= self.key_bytes());
        }
        if sig.len() < 64 {
            Err(KeyError::BadSignatureLength)
        } else {
            let accepted = ed25519_verify_exec(self.key.as_slice(), msg, &sig[0..64]);
            proof {
                assert(sig@.subrange(0, 64) =~= sig@.take(64));
            }
            Ok(accepted)
        }
    }
}

/// The raw signature an algorithm family produces for a message under the
/// first 32 bytes of the key material.
pub open spec fn signature_for(format: TextSignFormat, key: Seq<u8>, msg: Seq<u8>) -> Seq<u8> {
    match format {
        TextSignFormat::Blake3 => blake3_keyed_hash(key.take(32), msg),
        TextSignFormat::Ed25519 => ed25519_signature(key.take(32), msg),
    }
}

/// The verification verdict of an algorithm family for a raw signature: the
/// keyed hash compares byte-for-byte (a short signature is simply `false`);
/// the asymmetric family rejects signatures under 64 bytes and otherwise asks
/// the verifier library about the first 64.
pub open spec fn verdict_for(format: TextSignFormat, key: Seq<u8>, msg: Seq<u8>, sig: Seq<u8>) -> Result<
    bool,
    KeyError,
> {
    match format {
        TextSignFormat::Blake3 => Ok(sig == blake3_keyed_hash(key.take(32), msg)),
        TextSignFormat::Ed25519 => if sig.len() < 64 {
            Err(KeyError::BadSignatureLength)
        } else {
            Ok(ed25519_accepts(key.take(32), msg, sig.take(64)))
        },
    }
}

/// The key material that verifies what was signed under `key`: the keyed hash
/// verifies under the same 32 key bytes, the asymmetric family under the
/// derived verifying key.
pub open spec fn verify_key_for(format: TextSignFormat, key: Seq<u8>) -> Seq<u8> {
    match format {
        TextSignFormat::Blake3 => key.take(32),
        TextSignFormat::Ed25519 => ed25519_public_key(key.take(32)),
    }
}

/// What verification of base64 signature text returns: text that does not
/// decode is rejected before the key material is even looked at; key material
/// under 32 bytes is rejected; otherwise the algorithm family decides.
pub open spec fn process_verify_spec(
    format: TextSignFormat,
    key: Seq<u8>,
    msg: Seq<u8>,
    sig_text: Seq<char>,
) -> Result<bool, KeyError> {
    match b64url_decoded(sig_text) {
        None => Err(KeyError::BadEncoding),
        Some(sig) => if key.len() < 32 {
            Err(KeyError::TooShort)
        } else {
            verdict_for(format, key, msg, sig)
        },
    }
}

/// Signs a message under the chosen format: the key material is truncated to
/// its first 32 bytes (fewer are rejected with `TooShort`), and the raw
/// signature travels as URL-safe, unpadded base64 text.  A produced signature
/// always verifies against the same message under the matching verification
/// key material.
pub fn process_sign(msg: &[u8], key: &[u8], format: TextSignFormat) -> (r: Result<
    String,
    KeyError,
>)
    ensures
        key@.len() < 32 ==> r == Err::<String, KeyError>(KeyError::TooShort),
        key@.len() >= 32 ==> (r matches Ok(s) && s@ == b64url(signature_for(format, key@, msg@))
            && forall|i: int| 0 <= i < s@.len() ==> is_b64url_char(#[trigger] s@[i])),
        r matches Ok(s) ==> (verify_key_for(format, key@).len() == 32 ==> process_verify_spec(
            format,
            verify_key_for(format, key@),
            msg@,
            s@,
        ) == Ok::<bool, KeyError>(true)),
{
    match format {
        TextSignFormat::Blake3 => {
            match Blake3::try_new(key) {
                Err(e) => Err(e),
                Ok(signer) => {
                    let sig = signer.sign(msg);
                    let text = b64url_encode(sig.as_slice());
                    proof {
                        assert(key@.take(32).take(32) =~= key@.take(32));
                    }
                    Ok(text)
                },
            }
        },
        TextSignFormat::Ed25519 => {
            match Ed25519Sign::try_new(key) {
                Err(e) => Err(e),
                Ok(signer) => {
                    let sig = signer.sign(msg);
                    let text = b64url_encode(sig.as_slice());
                    proof {
                        let vkey = verify_key_for(format, key@);
                        if vkey.len() == 32 {
                            assert(vkey.take(32) =~= vkey);
                            assert(sig@.take(64) =~= sig@);
                        }
                    }
                    Ok(text)
                },
            }
        },
    }
}

/// Verifies base64 signature text over a message: decoding failure
/// short-circuits with `BadEncoding` before any key handling, key material
/// under 32 bytes is rejected with `TooShort`, and a mismatch is the normal
/// `Ok(false)` result.
pub fn process_verify(msg: &[u8], key: &[u8], sig: &str, format: TextSignFormat) -> (r: Result<
    bool,
    KeyError,
>)
    ensures
        r == process_verify_spec(format, key@, msg@, sig@),
{
    let decoded = match b64url_decode(sig) {
        None => {
            return Err(KeyError::BadEncoding);
        },
        Some(raw) => {
            proof {
                assert(raw.deep_view() =~= raw@);
            }
            raw
        },
    };
    match format {
        TextSignFormat::Blake3 => {
            match Blake3::try_new(key) {
                Err(e) => Err(e),
                Ok(verifier) => {
                    let r = verifier.verify(msg, decoded.as_slice());
                    proof {
                        assert(key@.take(32).take(32) =~= key@.take(32));
                    }
                    r
                },
            }
        },
        TextSignFormat::Ed25519 => {
            match Ed25519Verify::try_new(key) {
                Err(e) => Err(e),
                Ok(verifier) => {
                    let r = verifier.verify(msg, decoded.as_slice());
                    proof {
                        assert(key@.take(32).take(32) =~= key@.take(32));
                    }
                    r
                },
            }
        },
    }
}

/// Generates fresh key material: one 32-byte printable key for the keyed
/// hash; a 32-byte secret key followed by its derived 32-byte verifying key
/// for the asymmetric family.
pub fn process_generate_key(format: TextSignFormat) -> (r: Result<Vec<Vec<u8>>, KeyError>)
    ensures
        r matches Ok(keys) && match format {
            TextSignFormat::Blake3 => keys@.len() == 1 && keys@[0]@.len() == 32 && forall|i: int|
                0 <= i < 32 ==> in_password_classes(#[trigger] keys@[0]@[i], true, true, true, true),
            TextSignFormat::Ed25519 => keys@.len() == 2 && keys@[0]@.len() == 32 && keys@[1]@.len()
                == 32 && keys@[1]@ == ed25519_public_key(keys@[0]@),
        },
{
    match format {
        TextSignFormat::Blake3 => Blake3::generate(),
        TextSignFormat::Ed25519 => Ed25519Sign::generate(),
    }
}

/// The longest buffer the cipher seals: the stream cipher's block counter
/// would overflow on anything longer.
pub const MAX_CIPHER_MESSAGE_LEN: u64 = 274877906880;

/// The ciphertext, with its 16-byte tag appended, of a plaintext under a
/// 32-byte key and a 12-byte nonce.
pub uninterp spec fn chacha_sealed(key: Seq<u8>, nonce: Seq<u8>, pt: Seq<u8>) -> Seq<u8>;

/// The plaintext a tagged ciphertext opens to under a 32-byte key and a
/// 12-byte nonce, or nothing when the tag does not authenticate.
pub uninterp spec fn chacha_opened(key: Seq<u8>, nonce: Seq<u8>, ct: Seq<u8>) -> Option<Seq<u8>>;

/// Relies on chacha20poly1305's ChaCha20Poly1305, encrypt: the ciphertext
/// with its 16-byte tag appended, which decrypt opens back to the plaintext
/// under the same key and nonce.
#[verifier::external_body]
fn chacha_encrypt_exec(key: &[u8], nonce: &[u8], pt: &[u8]) -> (r: Vec<u8>)
    requires
        key@.len() == 32,
        nonce@.len() == 12,
        pt@.len() < MAX_CIPHER_MESSAGE_LEN,
    ensures
        r@ == chacha_sealed(key@, nonce@, pt@),
        r@.len() == pt@.len() + 16,
        chacha_opened(key@, nonce@, r@) == Some(pt@),
{
    let cipher = chacha20poly1305::ChaCha20Poly1305::new(chacha20poly1305::Key::from_slice(key));
    cipher.encrypt(chacha20poly1305::Nonce::from_slice(nonce), pt).unwrap()
}

/// Relies on chacha20poly1305's ChaCha20Poly1305, decrypt: the plaintext when
/// the trailing 16-byte tag authenticates the ciphertext under the key and
/// nonce, and failure otherwise; no partial plaintext is ever returned.
#[verifier::external_body]
fn chacha_decrypt_exec(key: &[u8], nonce: &[u8], ct: &[u8]) -> (r: Option<Vec<u8>>)
    requires
        key@.len() == 32,
        nonce@.len() == 12,
    ensures
        r.deep_view() == chacha_opened(key@, nonce@, ct@),
{
    let cipher = chacha20poly1305::ChaCha20Poly1305::new(chacha20poly1305::Key::from_slice(key));
    cipher.decrypt(chacha20poly1305::Nonce::from_slice(nonce), ct).ok()
}

/// Relies on chacha20poly1305's AeadCore::generate_nonce: 12 fresh bytes from
/// the operating system's cryptographically secure random source.
#[verifier::external_body]
fn chacha_generate_nonce_exec() -> (r: Vec<u8>)
    ensures
        r@.len() == 12,
{
    chacha20poly1305::ChaCha20Poly1305::generate_nonce(&mut rand::rngs::OsRng).as_slice().to_vec()
}

/// The authenticated cipher context: a 32-byte key and the 12-byte nonce of
/// one encryption.  A context is built fresh per call — for encryption around
/// a newly generated nonce, for decryption around the nonce recovered from
/// the envelope — so a nonce is never reused with the same key.
pub struct ChaCha {
    key: Vec<u8>,
    nonce: Vec<u8>,
}

impl ChaCha {
    #[verifier::type_invariant]
    spec fn type_inv(&self) -> bool {
        self.key@.len() == 32 && self.nonce@.len() == 12
    }

    /// The 32 key bytes of this context.
    pub closed spec fn key_bytes(&self) -> Seq<u8> {
        self.key@
    }

    /// The 12 nonce bytes of this context.
    pub closed spec fn nonce_bytes(&self) -> Seq<u8> {
        self.nonce@
    }

    /// Wraps an exactly-32-byte key and a 12-byte nonce.
    pub fn new(key: &[u8], nonce: &[u8]) -> (c: Self)
        requires
            key@.len() == 32,
            nonce@.len() == 12,
        ensures
            c.key_bytes() == key@,
            c.nonce_bytes() == nonce@,
    {
        ChaCha { key: slice_to_vec(key), nonce: slice_to_vec(nonce) }
    }

    /// Keeps the first 32 bytes of the key material; fewer are rejected.
    pub fn try_new(key: &[u8], nonce: &[u8]) -> (r: Result<Self, CryptoError>)
        requires
            nonce@.len() == 12,
        ensures
            key@.len() >= 32 ==> (r matches Ok(c) && c.key_bytes() == key@.take(32)
                && c.nonce_bytes() == nonce@),
            key@.len() < 32 ==> r == Err::<Self, CryptoError>(CryptoError::Key(KeyError::TooShort)),
    {
        if key.len() < 32 {
            Err(CryptoError::Key(KeyError::TooShort))
        } else {
            proof {
                assert(key@.subrange(0, 32) =~= key@.take(32));
            }
            Ok(ChaCha { key: slice_to_vec(&key[0..32]), nonce: slice_to_vec(nonce) })
        }
    }

    /// Seals a whole buffer: ciphertext plus 16-byte tag.
    pub fn encrypt(&self, buffer: &[u8]) -> (r: Result<Vec<u8>, CryptoError>)
        requires
            buffer@.len() < MAX_CIPHER_MESSAGE_LEN,
        ensures
            r matches Ok(ct) && ct@ == chacha_sealed(self.key_bytes(), self.nonce_bytes(), buffer@)
                && ct@.len() == buffer@.len() + 16 && chacha_opened(
                self.key_bytes(),
                self.nonce_bytes(),
                ct@,
            ) == Some(buffer@),
    {
        proof {
            use_type_invariant(self);
        }
        Ok(chacha_encrypt_exec(self.key.as_slice(), self.nonce.as_slice(), buffer))
    }

    /// Opens a whole sealed buffer; a tag that does not authenticate is
    /// rejected with `AuthenticationFailed` and no partial plaintext.
    pub fn decrypt(&self, buffer: Vec<u8>) -> (r: Result<Vec<u8>, CryptoError>)
        ensures
            match chacha_opened(self.key_bytes(), self.nonce_bytes(), buffer@) {
                Some(pt) => r matches Ok(v) && v@ == pt,
                None => r == Err::<Vec<u8>, CryptoError>(CryptoError::AuthenticationFailed),
            },
    {
        proof {
            use_type_invariant(self);
        }
        match chacha_decrypt_exec(self.key.as_slice(), self.nonce.as_slice(), buffer.as_slice()) {
            Some(pt) => {
                proof {
                    assert(pt.deep_view() =~= pt@);
                }
                Ok(pt)
            },
            None => Err(CryptoError::AuthenticationFailed),
        }
    }
}

/// The wire form of one encryption: the sealed buffer with the 12 nonce bytes
/// appended, as URL-safe unpadded base64 text.
pub open spec fn envelope_for(key: Seq<u8>, nonce: Seq<u8>, msg: Seq<u8>) -> Seq<char> {
    b64url(chacha_sealed(key.take(32), nonce, msg) + nonce)
}

/// What decryption of envelope text returns: text that does not decode is
/// rejected; a decoded buffer too short for a tag and a trailing nonce is
/// malformed; key material under 32 bytes is rejected; otherwise the last 12
/// bytes are the nonce and the cipher decides over the rest.
pub open spec fn decrypt_spec(key: Seq<u8>, env: Seq<char>) -> Result<Seq<u8>, CryptoError> {
    match b64url_decoded(env) {
        None => Err(CryptoError::Key(KeyError::BadEncoding)),
        Some(buf) => if buf.len() < 28 {
            Err(CryptoError::MalformedEnvelope)
        } else if key.len() < 32 {
            Err(CryptoError::Key(KeyError::TooShort))
        } else {
            let nonce = buf.skip(buf.len() - 12);
            let ct = buf.take(buf.len() - 12);
            match chacha_opened(key.take(32), nonce, ct) {
                Some(pt) => Ok(pt),
                None => Err(CryptoError::AuthenticationFailed),
            }
        },
    }
}

/// Encrypts a whole buffer under the first 32 bytes of the key material, with
/// a nonce generated fresh inside this call — never supplied by the caller —
/// and embedded as the trailing 12 bytes of the envelope.  A produced
/// envelope always decrypts, under the same key material, to the plaintext.
pub fn process_encrypt(msg: &[u8], key: &[u8]) -> (r: Result<String, CryptoError>)
    requires
        msg@.len() < MAX_CIPHER_MESSAGE_LEN,
    ensures
        key@.len() < 32 ==> r == Err::<String, CryptoError>(CryptoError::Key(KeyError::TooShort)),
        key@.len() >= 32 ==> (r matches Ok(env) && exists|nonce: Seq<u8>|
            nonce.len() == 12 && env@ == #[trigger] envelope_for(key@, nonce, msg@)),
        r matches Ok(env) ==> decrypt_spec(key@, env@) == Ok::<Seq<u8>, CryptoError>(msg@),
{
    let nonce = chacha_generate_nonce_exec();
    let cipher = match ChaCha::try_new(key, nonce.as_slice()) {
        Err(e) => {
            return Err(e);
        },
        Ok(c) => c,
    };
    let mut sealed = match cipher.encrypt(msg) {
        Ok(ct) => ct,
        Err(e) => {
            proof {
                assert(false);
            }
            return Err(e);
        },
    };
    let ghost sealed_view = sealed@;
    sealed.extend_from_slice(nonce.as_slice());
    proof {
        assert(sealed@ =~= sealed_view + nonce@);
    }
    let env = b64url_encode(sealed.as_slice());
    proof {
        let buf = sealed@;
        assert(buf.skip(buf.len() - 12) =~= nonce@);
        assert(buf.take(buf.len() - 12) =~= sealed_view);
        assert(env@ == envelope_for(key@, nonce@, msg@));
    }
    Ok(env)
}

/// Decrypts an envelope: base64 decoding failure, an envelope too short for a
/// tag and nonce, and short key material are each rejected with their own
/// error; a tag that does not authenticate — wrong key, wrong nonce, or a
/// corrupted ciphertext — is rejected with `AuthenticationFailed`.
pub fn process_decrypt(input: &str, key: &[u8]) -> (r: Result<Vec<u8>, CryptoError>)
    ensures
        match r {
            Ok(pt) => decrypt_spec(key@, input@) == Ok::<Seq<u8>, CryptoError>(pt@),
            Err(e) => decrypt_spec(key@, input@) == Err::<Seq<u8>, CryptoError>(e),
        },
{
    let mut buf = match b64url_decode(input) {
        None => {
            return Err(CryptoError::Key(KeyError::BadEncoding));
        },
        Some(raw) => {
            proof {
                assert(raw.deep_view() =~= raw@);
            }
            raw
        },
    };
    if buf.len() < 28 {
        return Err(CryptoError::MalformedEnvelope);
    }
    let ghost buf_view = buf@;
    let tail_at = buf.len() - 12;
    let nonce = buf.split_off(tail_at);
    proof {
        assert(nonce@ =~= buf_view.skip(buf_view.len() - 12));
        assert(buf@ =~= buf_view.take(buf_view.len() - 12));
    }
    let cipher = match ChaCha::try_new(key, nonce.as_slice()) {
        Err(e) => {
            return Err(e);
        },
        Ok(c) => c,
    };
    proof {
        assert(key@.take(32).take(32) =~= key@.take(32));
    }
    cipher.decrypt(buf)
}

/// Round trip of the keyed-hash family: the digest of a message always
/// verifies against the same message and key material.
pub proof fn lemma_keyed_hash_round_trip(key: Seq<u8>, msg: Seq<u8>)
    ensures
        verdict_for(
            TextSignFormat::Blake3,
            key,
            msg,
            signature_for(TextSignFormat::Blake3, key, msg),
        ) == Ok::<bool, KeyError>(true),
{
}

/// Tamper-sensitivity of the keyed-hash family: any signature that differs
/// from the digest of the message — in particular a valid signature with any
/// bit flipped — is rejected.
pub proof fn lemma_keyed_hash_tamper(key: Seq<u8>, msg: Seq<u8>, sig: Seq<u8>)
    requires
        sig != signature_for(TextSignFormat::Blake3, key, msg),
    ensures
        verdict_for(TextSignFormat::Blake3, key, msg, sig) == Ok::<bool, KeyError>(false),
{
}

} // verus!
