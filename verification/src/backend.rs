//! The boundary to the cryptographic backend, the hash implementation, the
//! random generator and the clock.
//!
//! Nothing in this module is proved. Each function here hands its arguments
//! to another crate, and its contract records what that crate's source and
//! documentation show of the call. Everything else in the library is verified
//! against these contracts.

use chrono::{NaiveDateTime, Utc};
use openssl::error::ErrorStack;
use openssl::symm::{decrypt_aead, encrypt_aead, Cipher, Crypter, Mode};
use rand::RngCore;
use sha2::{Digest, Sha256};
use vstd::prelude::*;

verus! {

/// Longest input that the library hands to the cipher backend in one call.
/// The backend counts bytes in a C `int`, and the buffer that it fills is one
/// cipher block longer than the input: the limit leaves room for a block of
/// `BLOCK_LEN` bytes below the largest `int`.
pub const MAX_BACKEND_LEN: usize = 0x7fff_ffef;

/// Length in bytes of a block of AES, the largest block that the cipher
/// reports for any of its modes.
pub const BLOCK_LEN: usize = 16;

/// A cipher context of the OpenSSL bindings: a decryption under way.
#[verifier::external_type_specification]
#[verifier::external_body]
pub struct ExCrypter(openssl::symm::Crypter);

/// The error stack of the OpenSSL bindings.
#[verifier::external_type_specification]
#[verifier::external_body]
pub struct ExErrorStack(openssl::error::ErrorStack);

/// The error type of `std::io`.
#[verifier::external_type_specification]
#[verifier::external_body]
pub struct ExIoError(std::io::Error);

/// A calendar date and time of day as `chrono` represents them, without a
/// time zone. The library only ever holds UTC times in it.
#[verifier::external_type_specification]
#[verifier::external_body]
pub struct ExNaiveDateTime(chrono::NaiveDateTime);

/// The SHA-256 digest of `data`, as `sha2::Sha256` computes it.
pub uninterp spec fn sha256(data: Seq<u8>) -> Seq<u8>;

/// The ciphertext and the 16-byte tag that AES-256-GCM encryption of
/// `plaintext` under `key` and `iv`, without associated data, yields in
/// `openssl::symm::encrypt_aead`.
pub uninterp spec fn aes_256_gcm_seal(key: Seq<u8>, iv: Seq<u8>, plaintext: Seq<u8>) -> (
    Seq<u8>,
    Seq<u8>,
);

/// The plaintext that `openssl::symm::decrypt_aead` releases for `ciphertext`
/// under AES-256-GCM with `key`, `iv` and `tag`, without associated data;
/// `None` where it releases none.
pub uninterp spec fn aes_256_gcm_open(
    key: Seq<u8>,
    iv: Seq<u8>,
    tag: Seq<u8>,
    ciphertext: Seq<u8>,
) -> Option<Seq<u8>>;

/// `Sha256::digest` from `sha2`: the digest of `data`. Its type fixes its
/// length at 32 bytes.
#[verifier::external_body]
pub(crate) fn sha256_digest(data: &[u8]) -> (digest: Vec<u8>)
    ensures
        digest@ == sha256(data@),
        digest@.len() == 32,
{
    Sha256::digest(data).to_vec()
}

/// `RngCore::fill_bytes` on `rand::thread_rng()`: overwrites `buf` with random
/// bytes. Nothing is known of the bytes; the length stays.
#[verifier::external_body]
pub(crate) fn fill_random(buf: &mut Vec<u8>)
    ensures
        final(buf)@.len() == old(buf)@.len(),
{
    rand::thread_rng().fill_bytes(buf.as_mut_slice());
}

/// `openssl::symm::encrypt_aead` with the AES-256-GCM cipher and no
/// associated data. The call writes the tag into `tag` and returns the
/// ciphertext, or the backend's error.
///
/// Claimed of a successful call: ciphertext and tag are those that the cipher
/// determines for the key, nonce and plaintext, and they are what
/// `decrypt_aead` accepts and turns back into the plaintext. Nothing is
/// claimed of the length of the ciphertext, nor of when the call succeeds.
///
/// The bounds keep the call away from the conversions to a C `int` on which
/// the bindings panic: of the length of the plaintext, and of that of the
/// buffer for the ciphertext.
#[verifier::external_body]
pub(crate) fn seal(key: &[u8], iv: &[u8], plaintext: &[u8], tag: &mut Vec<u8>) -> (r: Result<
    Vec<u8>,
    ErrorStack,
>)
    requires
        key@.len() == 32,
        iv@.len() == 12,
        plaintext@.len() <= MAX_BACKEND_LEN,
        old(tag)@.len() == 16,
    ensures
        final(tag)@.len() == 16,
        r matches Ok(ciphertext) ==> aes_256_gcm_seal(key@, iv@, plaintext@) == (
            ciphertext@,
            final(tag)@,
        ),
        r matches Ok(ciphertext) ==> aes_256_gcm_open(key@, iv@, final(tag)@, ciphertext@)
            == Some(plaintext@),
{
    encrypt_aead(Cipher::aes_256_gcm(), key, Some(iv), &[], plaintext, tag.as_mut_slice())
}

/// `openssl::symm::decrypt_aead` with the AES-256-GCM cipher and no
/// associated data. The call returns the plaintext only where the tag
/// authenticates the ciphertext under the key and nonce; otherwise, and on any
/// other failure of the backend, it returns the backend's error.
///
/// Claimed of a successful call: the plaintext is the one that the cipher
/// determines for the key, nonce, tag and ciphertext. Nothing is claimed of
/// its length, nor of when the call succeeds.
///
/// The bounds keep the call away from the conversions to a C `int` on which
/// the bindings panic, as in `seal`, and from nonces and tags of other sizes
/// than those that `seal` works with.
#[verifier::external_body]
pub(crate) fn open(key: &[u8], iv: &[u8], tag: &[u8], ciphertext: &[u8]) -> (r: Result<
    Vec<u8>,
    ErrorStack,
>)
    requires
        key@.len() == 32,
        iv@.len() == 12,
        tag@.len() == 16,
        ciphertext@.len() <= MAX_BACKEND_LEN,
    ensures
        r matches Ok(plaintext) ==> aes_256_gcm_open(key@, iv@, tag@, ciphertext@) == Some(
            plaintext@,
        ),
{
    decrypt_aead(Cipher::aes_256_gcm(), key, Some(iv), &[], ciphertext, tag)
}

/// `Crypter::new` for decryption with the AES-256-GCM cipher: a context that
/// holds key and nonce, or the backend's error. The bounds are the sizes that
/// the cipher expects, so that the bindings have nothing to adjust.
#[verifier::external_body]
pub(crate) fn decrypter(key: &[u8], iv: &[u8]) -> (r: Result<Crypter, ErrorStack>)
    requires
        key@.len() == 32,
        iv@.len() == 12,
{
    Crypter::new(Cipher::aes_256_gcm(), Mode::Decrypt, key, Some(iv))
}

/// `Crypter::set_tag`: hands the context the tag that the data is to be
/// authenticated with. The bound keeps the length within a C `int`.
#[verifier::external_body]
pub(crate) fn set_tag(crypter: &mut Crypter, tag: &[u8]) -> (r: Result<(), ErrorStack>)
    requires
        tag@.len() == 16,
{
    crypter.set_tag(tag)
}

/// `Crypter::update`: feeds `input` through the context, which writes into
/// `output` and returns how many bytes it wrote. Nothing is claimed of the
/// bytes or of their number; the buffer keeps its length.
///
/// The bindings panic on an output buffer that is not a block longer than
/// the input, and on lengths beyond a C `int`: the bounds leave both out.
#[verifier::external_body]
pub(crate) fn update(crypter: &mut Crypter, input: &[u8], output: &mut Vec<u8>) -> (r: Result<
    usize,
    ErrorStack,
>)
    requires
        input@.len() + BLOCK_LEN <= old(output)@.len(),
        old(output)@.len() <= 0x7fff_ffff,
    ensures
        final(output)@.len() == old(output)@.len(),
{
    crypter.update(input, output.as_mut_slice())
}

/// `Crypter::finalize`: ends the work of the context, which writes what is
/// left into `output` and returns how many bytes it wrote. For a decryption
/// with a tag this is the step that checks the tag. Nothing is claimed of
/// the outcome; the buffer keeps its length.
///
/// The bindings panic on an output buffer shorter than a block: the bound
/// leaves that out.
#[verifier::external_body]
pub(crate) fn finalize(crypter: &mut Crypter, output: &mut Vec<u8>) -> (r: Result<
    usize,
    ErrorStack,
>)
    requires
        BLOCK_LEN <= old(output)@.len(),
    ensures
        final(output)@.len() == old(output)@.len(),
{
    crypter.finalize(output.as_mut_slice())
}

/// `Utc::now` from `chrono`: the current time, in UTC. Nothing is known of it.
#[verifier::external_body]
pub(crate) fn utc_now() -> NaiveDateTime {
    Utc::now().naive_utc()
}

} // verus!
