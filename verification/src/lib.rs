//! Packaging of a model artifact into an encrypted payload and the manifest
//! that describes how it was protected.
//!
//! - [`crypto`]: AES-256-GCM encryption and decryption of a byte buffer, and
//!   the SHA-256 digest in hexadecimal.
//! - [`manifest`]: the manifest and its assembly.
//! - [`package`]: the pipeline from the bytes of an artifact to ciphertext
//!   and manifest.
//! - [`hex`]: hexadecimal rendering.
//! - [`backend`]: the calls into OpenSSL, `sha2`, `rand` and `chrono`, with
//!   the contracts that the rest is verified against.
//!
//! The library works on bytes and values. Files are the caller's business.

pub mod backend;
pub mod crypto;
pub mod hex;
pub mod manifest;
pub mod package;

pub use crypto::{
    decrypt_aes256_gcm, encrypt_aes256_gcm, encrypt_with_nonce, sha256_bytes,
    Aes256GcmCiphertext, CryptoError,
};
pub use manifest::{
    EncryptionInfo, IntegrityInfo, ModelInfo, ModelPackageManifest, PackagingInfo,
};
pub use package::{package_model_file, ModelPackage};
