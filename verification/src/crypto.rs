//! Authenticated encryption of a byte buffer under a 256-bit key, and the
//! integrity digest.
//!
//! Every call stands alone: no key is kept. `encrypt_aes256_gcm` draws the
//! nonce inside the call and never takes one from the caller.

use crate::backend::{
    aes_256_gcm_open, aes_256_gcm_seal, decrypter, fill_random, finalize, open, seal, set_tag,
    sha256, sha256_digest, update, BLOCK_LEN, MAX_BACKEND_LEN,
};
use crate::hex::{hex_encode, hex_lower, hex_lower_is_injective};
use vstd::prelude::*;

verus! {

/// Length of an AES-256 key in bytes.
pub const KEY_LEN: usize = 32;

/// Length of the GCM nonce in bytes.
pub const NONCE_LEN: usize = 12;

/// Length of the GCM authentication tag in bytes.
pub const TAG_LEN: usize = 16;

/// Words of the refusal of a backend output that is not as long as the input.
pub const OUTPUT_LENGTH_MISMATCH: &'static str = "cipher output length differs from input length";

/// Result of an AES-256-GCM encryption.
#[derive(Debug)]
pub struct Aes256GcmCiphertext {
    pub ciphertext: Vec<u8>,
    /// The 12-byte nonce.
    pub iv: Vec<u8>,
    /// The 16-byte authentication tag.
    pub tag: Vec<u8>,
}

#[derive(Debug)]
pub enum CryptoError {
    /// The key does not have 32 bytes; holds the length it has.
    InvalidKeyLength(usize),
    /// The nonce does not have 12 bytes; holds the length it has.
    InvalidNonceLength(usize),
    /// The tag does not have 16 bytes; holds the length it has.
    InvalidTagLength(usize),
    /// The data is longer than the backend takes in one call; holds its
    /// length.
    InputTooLong(usize),
    /// The data did not authenticate under the key, nonce and tag: it was
    /// tampered with, or one of these is not the one it was encrypted with.
    /// Holds the backend's words.
    Authentication(String),
    /// The cipher backend failed otherwise; holds its words.
    OpenSsl(String),
    /// Reading or writing a file failed.
    Io(std::io::Error),
}

/// How far a decryption gets when its steps are taken one by one.
#[derive(Debug)]
pub enum DecryptionHalt {
    /// The backend failed before the tag was checked: on making the context,
    /// on taking the tag or on taking the data. Holds its words.
    BeforeTagCheck(String),
    /// The backend took key, nonce, tag and data and then refused the tag.
    /// Holds its words.
    AtTagCheck(String),
    /// Every step went through.
    Nowhere,
}

impl Aes256GcmCiphertext {
    /// Nonce and tag have the sizes of the cipher mode.
    pub open spec fn well_formed(&self) -> bool {
        &&& self.iv@.len() == NONCE_LEN
        &&& self.tag@.len() == TAG_LEN
    }

    /// This is an encryption of `plaintext` under `key`: as long as the
    /// plaintext, with the ciphertext and tag that the cipher determines for
    /// the nonce held here, and such that decryption gives the plaintext back.
    pub open spec fn seals(&self, key: Seq<u8>, plaintext: Seq<u8>) -> bool {
        &&& self.well_formed()
        &&& self.ciphertext@.len() == plaintext.len()
        &&& aes_256_gcm_seal(key, self.iv@, plaintext) == (self.ciphertext@, self.tag@)
        &&& aes_256_gcm_open(key, self.iv@, self.tag@, self.ciphertext@) == Some(plaintext)
    }
}

/// `r` is the key-length error for a key of `len` bytes.
pub open spec fn refuses_key<T>(r: Result<T, CryptoError>, len: nat) -> bool {
    r matches Err(CryptoError::InvalidKeyLength(n)) && n == len
}

/// `r` is the nonce-length error for a nonce of `len` bytes.
pub open spec fn refuses_nonce<T>(r: Result<T, CryptoError>, len: nat) -> bool {
    r matches Err(CryptoError::InvalidNonceLength(n)) && n == len
}

/// `r` is the tag-length error for a tag of `len` bytes.
pub open spec fn refuses_tag<T>(r: Result<T, CryptoError>, len: nat) -> bool {
    r matches Err(CryptoError::InvalidTagLength(n)) && n == len
}

/// `r` is the error for data of `len` bytes that is too long.
pub open spec fn refuses_length<T>(r: Result<T, CryptoError>, len: nat) -> bool {
    r matches Err(CryptoError::InputTooLong(n)) && n == len
}

/// What `check_cipher_output` returns for each outcome of a backend call on
/// an input of `input_len` bytes.
pub open spec fn checked_output(
    input_len: nat,
    outcome: Result<Vec<u8>, String>,
    r: Result<Vec<u8>, CryptoError>,
) -> bool {
    match outcome {
        Ok(output) => if output@.len() == input_len {
            r == Ok::<Vec<u8>, CryptoError>(output)
        } else {
            r matches Err(CryptoError::OpenSsl(message)) && message@ == OUTPUT_LENGTH_MISMATCH@
        },
        Err(message) => r == Err::<Vec<u8>, CryptoError>(CryptoError::OpenSsl(message)),
    }
}

/// Decides what becomes of the outcome of a backend call on an input of
/// `input_len` bytes. The cipher mode neither pads nor shortens, so an output
/// of another length is refused as a backend failure; a failure that the
/// backend reported is passed on in its own words.
pub fn check_cipher_output(input_len: usize, outcome: Result<Vec<u8>, String>) -> (r: Result<
    Vec<u8>,
    CryptoError,
>)
    ensures
        checked_output(input_len as nat, outcome, r),
{
    match outcome {
        Ok(output) => {
            if output.len() == input_len {
                Ok(output)
            } else {
                Err(CryptoError::OpenSsl(OUTPUT_LENGTH_MISMATCH.to_owned()))
            }
        },
        Err(message) => Err(CryptoError::OpenSsl(message)),
    }
}

/// The error for a decryption that the backend refused with `words` and
/// whose steps, taken one by one, got as far as `halt` says: an
/// authentication error exactly where the tag check is what failed.
pub open spec fn failure_of(words: String, halt: DecryptionHalt) -> CryptoError {
    match halt {
        DecryptionHalt::AtTagCheck(at_check) => CryptoError::Authentication(at_check),
        DecryptionHalt::BeforeTagCheck(before) => CryptoError::OpenSsl(before),
        DecryptionHalt::Nowhere => CryptoError::OpenSsl(words),
    }
}

/// Names the error of a decryption that the backend refused with `words`.
/// Where the steps halt at the tag check, the data did not authenticate;
/// where they halt before it, the backend failed. Where they all go through
/// although the backend had refused, its refusal stands as a failure.
pub fn classify_failure(words: String, halt: DecryptionHalt) -> (e: CryptoError)
    ensures
        e == failure_of(words, halt),
{
    match halt {
        DecryptionHalt::AtTagCheck(at_check) => CryptoError::Authentication(at_check),
        DecryptionHalt::BeforeTagCheck(before) => CryptoError::OpenSsl(before),
        DecryptionHalt::Nowhere => CryptoError::OpenSsl(words),
    }
}

/// What `encrypt_with_nonce` returns for `key`, `iv` and `plaintext`.
///
/// A key and a nonce of wrong length and a plaintext that is too long are
/// refused, in this order, each with an error of its own. Otherwise the
/// backend decides whether the call succeeds; where it does, the result is an
/// encryption of the plaintext under the key, with the nonce that was given.
pub open spec fn encrypted_with(
    key: Seq<u8>,
    iv: Seq<u8>,
    plaintext: Seq<u8>,
    r: Result<Aes256GcmCiphertext, CryptoError>,
) -> bool {
    if key.len() != KEY_LEN {
        refuses_key(r, key.len())
    } else if iv.len() != NONCE_LEN {
        refuses_nonce(r, iv.len())
    } else if plaintext.len() > MAX_BACKEND_LEN {
        refuses_length(r, plaintext.len())
    } else {
        match r {
            Ok(sealed) => sealed.seals(key, plaintext) && sealed.iv@ == iv,
            Err(e) => e is OpenSsl,
        }
    }
}

/// What `encrypt_aes256_gcm` returns for `key` and `plaintext`.
///
/// A key of wrong length and a plaintext that is too long are refused, in
/// this order, each with an error of its own. Otherwise the backend decides
/// whether the call succeeds; where it does, the result is an encryption of
/// the plaintext under the key.
pub open spec fn encrypted(
    key: Seq<u8>,
    plaintext: Seq<u8>,
    r: Result<Aes256GcmCiphertext, CryptoError>,
) -> bool {
    if key.len() != KEY_LEN {
        refuses_key(r, key.len())
    } else if plaintext.len() > MAX_BACKEND_LEN {
        refuses_length(r, plaintext.len())
    } else {
        match r {
            Ok(sealed) => sealed.seals(key, plaintext),
            Err(e) => e is OpenSsl,
        }
    }
}

/// What `decrypt_aes256_gcm` returns for `key`, `iv`, `tag` and `ciphertext`.
///
/// A key, a nonce and a tag of wrong length and a ciphertext that is too long
/// are refused, in this order, each with an error of its own. Otherwise
/// plaintext is returned only where the backend releases it for these
/// arguments, and it is as long as the ciphertext; every other outcome is the
/// authentication error or a backend failure.
pub open spec fn decrypted(
    key: Seq<u8>,
    iv: Seq<u8>,
    tag: Seq<u8>,
    ciphertext: Seq<u8>,
    r: Result<Vec<u8>, CryptoError>,
) -> bool {
    if key.len() != KEY_LEN {
        refuses_key(r, key.len())
    } else if iv.len() != NONCE_LEN {
        refuses_nonce(r, iv.len())
    } else if tag.len() != TAG_LEN {
        refuses_tag(r, tag.len())
    } else if ciphertext.len() > MAX_BACKEND_LEN {
        refuses_length(r, ciphertext.len())
    } else {
        match r {
            Ok(plaintext) => {
                &&& aes_256_gcm_open(key, iv, tag, ciphertext) == Some(plaintext@)
                &&& plaintext@.len() == ciphertext.len()
            },
            Err(e) => e is Authentication || e is OpenSsl,
        }
    }
}

/// Encrypts `plaintext` with AES-256-GCM under the 32-byte `key` and the
/// 12-byte nonce `iv`, without associated data. The result holds the nonce
/// that was given.
///
/// A nonce must never serve twice under one key. This function is for
/// callers that have drawn a fresh one; `encrypt_aes256_gcm` draws it itself.
pub fn encrypt_with_nonce(key: &[u8], iv: Vec<u8>, plaintext: &[u8]) -> (r: Result<
    Aes256GcmCiphertext,
    CryptoError,
>)
    ensures
        encrypted_with(key@, iv@, plaintext@, r),
{
    if key.len() != KEY_LEN {
        return Err(CryptoError::InvalidKeyLength(key.len()));
    }
    if iv.len() != NONCE_LEN {
        return Err(CryptoError::InvalidNonceLength(iv.len()));
    }
    if plaintext.len() > MAX_BACKEND_LEN {
        return Err(CryptoError::InputTooLong(plaintext.len()));
    }
    let mut tag: Vec<u8> = vec![0u8; TAG_LEN];
    let outcome = match seal(key, iv.as_slice(), plaintext, &mut tag) {
        Ok(ciphertext) => Ok(ciphertext),
        Err(e) => Err(e.to_string()),
    };
    match check_cipher_output(plaintext.len(), outcome) {
        Ok(ciphertext) => Ok(Aes256GcmCiphertext { ciphertext, iv, tag }),
        Err(e) => Err(e),
    }
}

/// Encrypts `plaintext` with AES-256-GCM under the 32-byte `key`, with a
/// fresh random 12-byte nonce and no associated data.
///
/// Key and plaintext are checked before the nonce is drawn.
pub fn encrypt_aes256_gcm(key: &[u8], plaintext: &[u8]) -> (r: Result<
    Aes256GcmCiphertext,
    CryptoError,
>)
    ensures
        encrypted(key@, plaintext@, r),
{
    if key.len() != KEY_LEN {
        return Err(CryptoError::InvalidKeyLength(key.len()));
    }
    if plaintext.len() > MAX_BACKEND_LEN {
        return Err(CryptoError::InputTooLong(plaintext.len()));
    }
    let mut iv: Vec<u8> = vec![0u8; NONCE_LEN];
    fill_random(&mut iv);
    encrypt_with_nonce(key, iv, plaintext)
}

/// Takes the steps of a decryption one by one, to learn where the backend
/// halts: makes the context, hands it the tag, feeds it the data, and has it
/// check the tag. What the context releases on the way is dropped.
fn walk_decryption(key: &[u8], iv: &[u8], tag: &[u8], ciphertext: &[u8]) -> (halt: DecryptionHalt)
    requires
        key@.len() == KEY_LEN,
        iv@.len() == NONCE_LEN,
        tag@.len() == TAG_LEN,
        ciphertext@.len() <= MAX_BACKEND_LEN,
{
    let mut crypter = match decrypter(key, iv) {
        Ok(crypter) => crypter,
        Err(e) => {
            return DecryptionHalt::BeforeTagCheck(e.to_string());
        },
    };
    match set_tag(&mut crypter, tag) {
        Ok(_) => {},
        Err(e) => {
            return DecryptionHalt::BeforeTagCheck(e.to_string());
        },
    }
    let mut released: Vec<u8> = vec![0u8; ciphertext.len() + BLOCK_LEN];
    match update(&mut crypter, ciphertext, &mut released) {
        Ok(_) => {},
        Err(e) => {
            return DecryptionHalt::BeforeTagCheck(e.to_string());
        },
    }
    let mut rest: Vec<u8> = vec![0u8; BLOCK_LEN];
    match finalize(&mut crypter, &mut rest) {
        Ok(_) => DecryptionHalt::Nowhere,
        Err(e) => DecryptionHalt::AtTagCheck(e.to_string()),
    }
}

/// Decrypts `ciphertext` with AES-256-GCM under the 32-byte `key`, the
/// 12-byte nonce `iv` and the 16-byte authentication tag `tag`.
///
/// The key's length is checked before anything else happens. Plaintext is
/// returned only where the backend authenticated it; no part of it is
/// returned otherwise. The backend does not say why it refuses, so on a
/// refusal the steps of the decryption are taken once more, one by one, and
/// the error is the authentication error where the tag check is what fails.
pub fn decrypt_aes256_gcm(key: &[u8], iv: &[u8], tag: &[u8], ciphertext: &[u8]) -> (r: Result<
    Vec<u8>,
    CryptoError,
>)
    ensures
        decrypted(key@, iv@, tag@, ciphertext@, r),
{
    if key.len() != KEY_LEN {
        return Err(CryptoError::InvalidKeyLength(key.len()));
    }
    if iv.len() != NONCE_LEN {
        return Err(CryptoError::InvalidNonceLength(iv.len()));
    }
    if tag.len() != TAG_LEN {
        return Err(CryptoError::InvalidTagLength(tag.len()));
    }
    if ciphertext.len() > MAX_BACKEND_LEN {
        return Err(CryptoError::InputTooLong(ciphertext.len()));
    }
    match open(key, iv, tag, ciphertext) {
        Ok(plaintext) => check_cipher_output(ciphertext.len(), Ok(plaintext)),
        Err(e) => Err(classify_failure(e.to_string(), walk_decryption(key, iv, tag, ciphertext))),
    }
}

/// The SHA-256 digest of `data` in lowercase hexadecimal.
pub open spec fn sha256_hex(data: Seq<u8>) -> Seq<char> {
    hex_lower(sha256(data))
}

/// Computes the SHA-256 digest of `data` and renders it in lowercase
/// hexadecimal: 64 digits.
pub fn sha256_bytes(data: &[u8]) -> (text: String)
    ensures
        text@ == sha256_hex(data@),
        text@.len() == 64,
{
    let digest = sha256_digest(data);
    hex_encode(digest.as_slice())
}

/// Decryption undoes encryption. What `encrypt_aes256_gcm` produced under a
/// 32-byte key, the backend opens to the plaintext that was encrypted; and
/// whatever `decrypt_aes256_gcm` returns for that nonce, tag and ciphertext
/// under the same key is this plaintext, unless the backend fails. It never
/// returns other bytes, and it refuses none of these arguments for their
/// lengths.
pub proof fn decrypt_inverts_encrypt(
    key: Seq<u8>,
    plaintext: Seq<u8>,
    sealed: Aes256GcmCiphertext,
    opened: Result<Vec<u8>, CryptoError>,
)
    requires
        key.len() == KEY_LEN,
        encrypted(key, plaintext, Ok(sealed)),
        decrypted(key, sealed.iv@, sealed.tag@, sealed.ciphertext@, opened),
    ensures
        aes_256_gcm_open(key, sealed.iv@, sealed.tag@, sealed.ciphertext@) == Some(plaintext),
        opened matches Ok(recovered) ==> recovered@ == plaintext,
        opened matches Err(e) ==> e is Authentication || e is OpenSsl,
{
}

/// The same holds of an encryption with a nonce that the caller gave, and
/// the encryption holds that nonce.
pub proof fn decrypt_inverts_encrypt_with_nonce(
    key: Seq<u8>,
    iv: Seq<u8>,
    plaintext: Seq<u8>,
    sealed: Aes256GcmCiphertext,
    opened: Result<Vec<u8>, CryptoError>,
)
    requires
        encrypted_with(key, iv, plaintext, Ok(sealed)),
        decrypted(key, iv, sealed.tag@, sealed.ciphertext@, opened),
    ensures
        sealed.iv@ == iv,
        encrypted(key, plaintext, Ok(sealed)),
        opened matches Ok(recovered) ==> recovered@ == plaintext,
        opened matches Err(e) ==> e is Authentication || e is OpenSsl,
{
}

/// A key that does not have 32 bytes is refused by encryption and by
/// decryption alike, with the length that it has, whatever the other
/// arguments are.
pub proof fn wrong_key_length_is_refused(
    key: Seq<u8>,
    plaintext: Seq<u8>,
    iv: Seq<u8>,
    tag: Seq<u8>,
    ciphertext: Seq<u8>,
    sealed: Result<Aes256GcmCiphertext, CryptoError>,
    sealed_with: Result<Aes256GcmCiphertext, CryptoError>,
    opened: Result<Vec<u8>, CryptoError>,
)
    requires
        key.len() != KEY_LEN,
        encrypted(key, plaintext, sealed),
        encrypted_with(key, iv, plaintext, sealed_with),
        decrypted(key, iv, tag, ciphertext, opened),
    ensures
        sealed == Err::<Aes256GcmCiphertext, CryptoError>(
            CryptoError::InvalidKeyLength(key.len() as usize),
        ),
        sealed_with == sealed,
        opened == Err::<Vec<u8>, CryptoError>(CryptoError::InvalidKeyLength(key.len() as usize)),
{
}

/// Each refusal of `decrypt_aes256_gcm` comes on its own inputs and on no
/// others, and the errors that are left come only where every length is in
/// order.
pub proof fn decryption_errors_tell_their_cause(
    key: Seq<u8>,
    iv: Seq<u8>,
    tag: Seq<u8>,
    ciphertext: Seq<u8>,
    r: Result<Vec<u8>, CryptoError>,
)
    requires
        decrypted(key, iv, tag, ciphertext, r),
    ensures
        r matches Err(CryptoError::InvalidKeyLength(_)) <==> key.len() != KEY_LEN,
        r matches Err(CryptoError::InvalidNonceLength(_)) <==> key.len() == KEY_LEN && iv.len()
            != NONCE_LEN,
        r matches Err(CryptoError::InvalidTagLength(_)) <==> key.len() == KEY_LEN && iv.len()
            == NONCE_LEN && tag.len() != TAG_LEN,
        r matches Err(CryptoError::InputTooLong(_)) <==> key.len() == KEY_LEN && iv.len()
            == NONCE_LEN && tag.len() == TAG_LEN && ciphertext.len() > MAX_BACKEND_LEN,
        (r matches Err(CryptoError::Authentication(_)) || r matches Err(CryptoError::OpenSsl(_))
            || r is Ok) ==> key.len() == KEY_LEN && iv.len() == NONCE_LEN && tag.len() == TAG_LEN
            && ciphertext.len() <= MAX_BACKEND_LEN,
        !(r matches Err(CryptoError::Io(_))),
{
}

/// Each refusal of `encrypt_with_nonce` comes on its own inputs and on no
/// others; it never reports an authentication error, and a backend failure or
/// a success comes only where every length is in order.
pub proof fn encryption_errors_tell_their_cause(
    key: Seq<u8>,
    iv: Seq<u8>,
    plaintext: Seq<u8>,
    r: Result<Aes256GcmCiphertext, CryptoError>,
)
    requires
        encrypted_with(key, iv, plaintext, r),
    ensures
        r matches Err(CryptoError::InvalidKeyLength(_)) <==> key.len() != KEY_LEN,
        r matches Err(CryptoError::InvalidNonceLength(_)) <==> key.len() == KEY_LEN && iv.len()
            != NONCE_LEN,
        r matches Err(CryptoError::InputTooLong(_)) <==> key.len() == KEY_LEN && iv.len()
            == NONCE_LEN && plaintext.len() > MAX_BACKEND_LEN,
        (r matches Err(CryptoError::OpenSsl(_)) || r is Ok) ==> key.len() == KEY_LEN && iv.len()
            == NONCE_LEN && plaintext.len() <= MAX_BACKEND_LEN,
        !(r matches Err(CryptoError::InvalidTagLength(_))),
        !(r matches Err(CryptoError::Authentication(_))),
        !(r matches Err(CryptoError::Io(_))),
{
}

/// Decryption fails closed: where the backend releases no plaintext for the
/// key, nonce, tag and ciphertext, `decrypt_aes256_gcm` returns an error and
/// no plaintext.
pub proof fn decrypt_fails_closed(
    key: Seq<u8>,
    iv: Seq<u8>,
    tag: Seq<u8>,
    ciphertext: Seq<u8>,
    opened: Result<Vec<u8>, CryptoError>,
)
    requires
        aes_256_gcm_open(key, iv, tag, ciphertext) is None,
        decrypted(key, iv, tag, ciphertext, opened),
    ensures
        opened is Err,
{
}

/// Under one key and for one plaintext the nonce is all that varies: two
/// encryptions with the same nonce have the same ciphertext and the same tag.
/// So two encryptions that differ in either differ in their nonces.
pub proof fn nonce_determines_ciphertext(
    key: Seq<u8>,
    plaintext: Seq<u8>,
    first: Aes256GcmCiphertext,
    second: Aes256GcmCiphertext,
)
    requires
        first.seals(key, plaintext),
        second.seals(key, plaintext),
        first.iv@ == second.iv@,
    ensures
        first.ciphertext@ == second.ciphertext@,
        first.tag@ == second.tag@,
{
}

/// Two encryptions that were given two nonces hold two nonces: each holds
/// the one it was given.
pub proof fn distinct_nonces_stay_distinct(
    key: Seq<u8>,
    plaintext: Seq<u8>,
    first_iv: Seq<u8>,
    second_iv: Seq<u8>,
    first: Aes256GcmCiphertext,
    second: Aes256GcmCiphertext,
)
    requires
        first_iv != second_iv,
        encrypted_with(key, first_iv, plaintext, Ok(first)),
        encrypted_with(key, second_iv, plaintext, Ok(second)),
    ensures
        first.iv@ == first_iv,
        second.iv@ == second_iv,
        first.iv@ != second.iv@,
{
}

/// The digest is a function of the bytes: two calls of `sha256_bytes` on the
/// same bytes return the same text.
pub proof fn digest_is_deterministic(data: Seq<u8>, first: String, second: String)
    requires
        first@ == sha256_hex(data),
        second@ == sha256_hex(data),
    ensures
        first@ == second@,
{
}

/// Rendering in hexadecimal keeps digests apart: the texts for two inputs are
/// the same exactly where their SHA-256 digests are.
pub proof fn digest_texts_differ_as_digests_do(x: Seq<u8>, y: Seq<u8>)
    ensures
        sha256_hex(x) == sha256_hex(y) <==> sha256(x) == sha256(y),
{
    if sha256_hex(x) == sha256_hex(y) {
        hex_lower_is_injective(sha256(x), sha256(y));
    }
}

} // verus!
