//! The manifest: the record that binds a ciphertext to the parameters of its
//! encryption, to the digests of plaintext and ciphertext, and to the model
//! it holds. It never holds the key, only a label that says where the key is
//! kept.

use crate::hex::{hex_encode, hex_lower};
use chrono::NaiveDateTime;
use vstd::prelude::*;

verus! {

/// Identifier of the cipher backend.
pub const BACKEND: &'static str = "openssl-3.0";

/// Identifier of the cipher and its mode.
pub const ALGORITHM: &'static str = "AES-256-GCM";

/// Name of the file that holds the ciphertext.
pub const CIPHERTEXT_FILE: &'static str = "model.enc";

/// Version of the manifest's layout.
pub const SCHEMA_VERSION: &'static str = "1.0.0";

/// Name of the tool that writes the manifest.
pub const TOOL: &'static str = "praesago-tmps";

/// Version of the tool that writes the manifest.
pub const TOOL_VERSION: &'static str = "0.1.0";

/// What the caller says of the model. The library does not look into it.
#[derive(Debug)]
pub struct ModelInfo {
    pub id: String,
    pub name: String,
    pub version: String,
    pub format: String,
    pub original_filename: String,
}

/// How the ciphertext was made, and when.
#[derive(Debug)]
pub struct EncryptionInfo {
    pub backend: String,
    pub algorithm: String,
    /// A label for the place where the key is kept; never the key.
    pub key_ref: String,
    pub ciphertext_file: String,
    pub iv_hex: String,
    pub tag_hex: String,
    /// The time of packaging, in UTC.
    pub created_at: NaiveDateTime,
}

/// Digests of the plaintext and of the ciphertext, in hexadecimal.
#[derive(Debug)]
pub struct IntegrityInfo {
    pub plaintext_sha256: String,
    pub ciphertext_sha256: String,
}

/// What wrote the manifest, and in which layout.
#[derive(Debug)]
pub struct PackagingInfo {
    pub schema_version: String,
    pub tool: String,
    pub tool_version: String,
}

#[derive(Debug)]
pub struct ModelPackageManifest {
    pub model: ModelInfo,
    pub encryption: EncryptionInfo,
    pub integrity: IntegrityInfo,
    pub packaging: PackagingInfo,
}

/// The text of each field of a `ModelInfo`.
pub struct ModelInfoView {
    pub id: Seq<char>,
    pub name: Seq<char>,
    pub version: Seq<char>,
    pub format: Seq<char>,
    pub original_filename: Seq<char>,
}

/// The text of each field of an `EncryptionInfo`, and its time.
pub struct EncryptionInfoView {
    pub backend: Seq<char>,
    pub algorithm: Seq<char>,
    pub key_ref: Seq<char>,
    pub ciphertext_file: Seq<char>,
    pub iv_hex: Seq<char>,
    pub tag_hex: Seq<char>,
    pub created_at: NaiveDateTime,
}

/// The text of each field of an `IntegrityInfo`.
pub struct IntegrityInfoView {
    pub plaintext_sha256: Seq<char>,
    pub ciphertext_sha256: Seq<char>,
}

/// The text of each field of a `PackagingInfo`.
pub struct PackagingInfoView {
    pub schema_version: Seq<char>,
    pub tool: Seq<char>,
    pub tool_version: Seq<char>,
}

/// A manifest as the texts of its fields.
pub struct ManifestView {
    pub model: ModelInfoView,
    pub encryption: EncryptionInfoView,
    pub integrity: IntegrityInfoView,
    pub packaging: PackagingInfoView,
}

impl View for ModelInfo {
    type V = ModelInfoView;

    open spec fn view(&self) -> ModelInfoView {
        ModelInfoView {
            id: self.id@,
            name: self.name@,
            version: self.version@,
            format: self.format@,
            original_filename: self.original_filename@,
        }
    }
}

impl View for EncryptionInfo {
    type V = EncryptionInfoView;

    open spec fn view(&self) -> EncryptionInfoView {
        EncryptionInfoView {
            backend: self.backend@,
            algorithm: self.algorithm@,
            key_ref: self.key_ref@,
            ciphertext_file: self.ciphertext_file@,
            iv_hex: self.iv_hex@,
            tag_hex: self.tag_hex@,
            created_at: self.created_at,
        }
    }
}

impl View for IntegrityInfo {
    type V = IntegrityInfoView;

    open spec fn view(&self) -> IntegrityInfoView {
        IntegrityInfoView {
            plaintext_sha256: self.plaintext_sha256@,
            ciphertext_sha256: self.ciphertext_sha256@,
        }
    }
}

impl View for PackagingInfo {
    type V = PackagingInfoView;

    open spec fn view(&self) -> PackagingInfoView {
        PackagingInfoView {
            schema_version: self.schema_version@,
            tool: self.tool@,
            tool_version: self.tool_version@,
        }
    }
}

impl View for ModelPackageManifest {
    type V = ManifestView;

    open spec fn view(&self) -> ManifestView {
        ManifestView {
            model: self.model@,
            encryption: self.encryption@,
            integrity: self.integrity@,
            packaging: self.packaging@,
        }
    }
}

/// The manifest for a model encrypted with nonce `iv` and tag `tag` under the
/// key that `key_ref` points to, with the given digests, made at `created_at`.
pub open spec fn manifest_of(
    model: ModelInfoView,
    key_ref: Seq<char>,
    iv: Seq<u8>,
    tag: Seq<u8>,
    plaintext_sha256: Seq<char>,
    ciphertext_sha256: Seq<char>,
    created_at: NaiveDateTime,
) -> ManifestView {
    ManifestView {
        model,
        encryption: EncryptionInfoView {
            backend: BACKEND@,
            algorithm: ALGORITHM@,
            key_ref,
            ciphertext_file: CIPHERTEXT_FILE@,
            iv_hex: hex_lower(iv),
            tag_hex: hex_lower(tag),
            created_at,
        },
        integrity: IntegrityInfoView { plaintext_sha256, ciphertext_sha256 },
        packaging: PackagingInfoView {
            schema_version: SCHEMA_VERSION@,
            tool: TOOL@,
            tool_version: TOOL_VERSION@,
        },
    }
}

/// Assembles the manifest from the parameters of an encryption, the digests
/// and the model's description, with `created_at` as the time of packaging.
/// The constants that name backend, algorithm, ciphertext file, layout and
/// tool are filled in here.
pub fn build_manifest(
    model_info: ModelInfo,
    key_ref: &str,
    iv: &[u8],
    tag: &[u8],
    plaintext_sha256: String,
    ciphertext_sha256: String,
    created_at: NaiveDateTime,
) -> (manifest: ModelPackageManifest)
    ensures
        manifest@ == manifest_of(
            model_info@,
            key_ref@,
            iv@,
            tag@,
            plaintext_sha256@,
            ciphertext_sha256@,
            created_at,
        ),
{
    let encryption = EncryptionInfo {
        backend: BACKEND.to_owned(),
        algorithm: ALGORITHM.to_owned(),
        key_ref: key_ref.to_owned(),
        ciphertext_file: CIPHERTEXT_FILE.to_owned(),
        iv_hex: hex_encode(iv),
        tag_hex: hex_encode(tag),
        created_at,
    };
    let integrity = IntegrityInfo { plaintext_sha256, ciphertext_sha256 };
    let packaging = PackagingInfo {
        schema_version: SCHEMA_VERSION.to_owned(),
        tool: TOOL.to_owned(),
        tool_version: TOOL_VERSION.to_owned(),
    };
    ModelPackageManifest { model: model_info, encryption, integrity, packaging }
}

} // verus!
