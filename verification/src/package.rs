//! The packaging pipeline: encrypt the artifact, take the digests of
//! plaintext and ciphertext, and describe the result in a manifest.
//!
//! The pipeline works on bytes. Reading the artifact and writing ciphertext
//! and manifest to their files is the caller's part.

use crate::backend::{aes_256_gcm_open, utc_now};
use crate::crypto::{
    decrypted, encrypt_aes256_gcm, encrypted, sha256_bytes, sha256_hex, Aes256GcmCiphertext,
    CryptoError,
};
use crate::hex::{hex_bytes, hex_bytes_inverts_hex_lower};
use crate::manifest::{build_manifest, manifest_of, ModelInfo, ModelInfoView, ModelPackageManifest};
use chrono::NaiveDateTime;
use vstd::prelude::*;

verus! {

/// What packaging one artifact yields: the encrypted artifact, whose
/// `ciphertext` goes into the ciphertext file, and the manifest that goes
/// with it.
#[derive(Debug)]
pub struct ModelPackage {
    pub sealed: Aes256GcmCiphertext,
    pub manifest: ModelPackageManifest,
}

impl ModelPackage {
    /// The package holds an encryption of `plaintext` under `key`, and its
    /// manifest describes exactly that encryption, the digests of `plaintext`
    /// and of the ciphertext, `model` and `key_ref`. Each digest has 64
    /// digits. Only the time in the manifest is left open.
    pub open spec fn packs(
        &self,
        key: Seq<u8>,
        plaintext: Seq<u8>,
        model: ModelInfoView,
        key_ref: Seq<char>,
    ) -> bool {
        &&& self.sealed.seals(key, plaintext)
        &&& self.manifest@ == manifest_of(
            model,
            key_ref,
            self.sealed.iv@,
            self.sealed.tag@,
            sha256_hex(plaintext),
            sha256_hex(self.sealed.ciphertext@),
            self.manifest.encryption.created_at,
        )
        &&& sha256_hex(plaintext).len() == 64
        &&& sha256_hex(self.sealed.ciphertext@).len() == 64
    }

    /// Puts the encryption `sealed` of the artifact `plaintext` together with
    /// its manifest: takes the digests of plaintext and ciphertext and
    /// describes the encryption, with `created_at` as the time of packaging.
    pub fn assemble(
        plaintext: &[u8],
        sealed: Aes256GcmCiphertext,
        model_info: ModelInfo,
        key_ref: &str,
        created_at: NaiveDateTime,
    ) -> (package: ModelPackage)
        ensures
            package.sealed == sealed,
            package.manifest@ == manifest_of(
                model_info@,
                key_ref@,
                sealed.iv@,
                sealed.tag@,
                sha256_hex(plaintext@),
                sha256_hex(sealed.ciphertext@),
                created_at,
            ),
            sha256_hex(plaintext@).len() == 64,
            sha256_hex(sealed.ciphertext@).len() == 64,
    {
        let plaintext_sha = sha256_bytes(plaintext);
        let ciphertext_sha = sha256_bytes(sealed.ciphertext.as_slice());
        let manifest = build_manifest(
            model_info,
            key_ref,
            sealed.iv.as_slice(),
            sealed.tag.as_slice(),
            plaintext_sha,
            ciphertext_sha,
            created_at,
        );
        ModelPackage { sealed, manifest }
    }
}

/// What `package_model_file` returns for its arguments: the error with which
/// the encryption refused or failed, and a package of the plaintext
/// otherwise.
pub open spec fn packaged(
    key: Seq<u8>,
    plaintext: Seq<u8>,
    model: ModelInfoView,
    key_ref: Seq<char>,
    r: Result<ModelPackage, CryptoError>,
) -> bool {
    match r {
        Ok(package) => {
            &&& encrypted(key, plaintext, Ok(package.sealed))
            &&& package.packs(key, plaintext, model, key_ref)
        },
        Err(e) => encrypted(key, plaintext, Err(e)),
    }
}

/// Packages the artifact whose bytes are `plaintext`: encrypts it under
/// `key`, takes the digests of plaintext and ciphertext, and builds the
/// manifest with `model_info` and the key's label `key_ref`.
///
/// No manifest is built unless the encryption succeeded. The clock is read
/// once, when the encryption is done.
pub fn package_model_file(
    key: &[u8],
    plaintext: &[u8],
    model_info: ModelInfo,
    key_ref: &str,
) -> (r: Result<ModelPackage, CryptoError>)
    ensures
        packaged(key@, plaintext@, model_info@, key_ref@, r),
{
    match encrypt_aes256_gcm(key, plaintext) {
        Ok(sealed) => Ok(ModelPackage::assemble(plaintext, sealed, model_info, key_ref, utc_now())),
        Err(e) => Err(e),
    }
}

/// The manifest of a package can be checked without the key: its digests are
/// what `sha256_bytes` returns for the bytes that were packaged and for the
/// ciphertext in the package.
pub proof fn manifest_digests_match(
    key: Seq<u8>,
    plaintext: Seq<u8>,
    model: ModelInfoView,
    key_ref: Seq<char>,
    package: ModelPackage,
    plaintext_digest: String,
    ciphertext_digest: String,
)
    requires
        packaged(key, plaintext, model, key_ref, Ok(package)),
        plaintext_digest@ == sha256_hex(plaintext),
        ciphertext_digest@ == sha256_hex(package.sealed.ciphertext@),
    ensures
        package.manifest.integrity.plaintext_sha256@ == plaintext_digest@,
        package.manifest.integrity.ciphertext_sha256@ == ciphertext_digest@,
{
}

/// Manifest, ciphertext and key suffice to recover the artifact. The
/// ciphertext of a package is as long as the plaintext. With the nonce and
/// the tag read back from the hexadecimal in the manifest, the backend opens
/// it to the plaintext, and `decrypt_aes256_gcm` returns the plaintext or a
/// backend error, never other bytes.
pub proof fn manifest_opens_ciphertext(
    key: Seq<u8>,
    plaintext: Seq<u8>,
    model: ModelInfoView,
    key_ref: Seq<char>,
    package: ModelPackage,
    opened: Result<Vec<u8>, CryptoError>,
)
    requires
        packaged(key, plaintext, model, key_ref, Ok(package)),
        decrypted(
            key,
            hex_bytes(package.manifest.encryption.iv_hex@),
            hex_bytes(package.manifest.encryption.tag_hex@),
            package.sealed.ciphertext@,
            opened,
        ),
    ensures
        package.sealed.ciphertext@.len() == plaintext.len(),
        aes_256_gcm_open(
            key,
            hex_bytes(package.manifest.encryption.iv_hex@),
            hex_bytes(package.manifest.encryption.tag_hex@),
            package.sealed.ciphertext@,
        ) == Some(plaintext),
        opened matches Ok(recovered) ==> recovered@ == plaintext,
{
    hex_bytes_inverts_hex_lower(package.sealed.iv@);
    hex_bytes_inverts_hex_lower(package.sealed.tag@);
}

/// In the manifest of a package the nonce has 24 digits, the tag 32, and
/// each digest 64.
pub proof fn manifest_fields_have_their_sizes(
    key: Seq<u8>,
    plaintext: Seq<u8>,
    model: ModelInfoView,
    key_ref: Seq<char>,
    package: ModelPackage,
)
    requires
        packaged(key, plaintext, model, key_ref, Ok(package)),
    ensures
        package.manifest.encryption.iv_hex@.len() == 24,
        package.manifest.encryption.tag_hex@.len() == 32,
        package.manifest.integrity.plaintext_sha256@.len() == 64,
        package.manifest.integrity.ciphertext_sha256@.len() == 64,
{
}

} // verus!
