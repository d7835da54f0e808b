use vstd::prelude::*;

verus! {

/// Every failure this library reports.
///
/// The variants fall into four groups: local input validation
/// (`InvalidNameLength`, `ImageTooLarge`, `InvalidImageFormat`), encoding
/// (`SizeMismatch`, `AccountTooSmall`, `SerializationError`), submission
/// (`RpcError` and the fetch/upload variants, which carry an opaque message),
/// and authorization (`NotAuthorized`, `NotDelegated`).
#[derive(Debug, Clone, PartialEq, Eq)]
pub enum WorldError {
    /// An RPC submission failed; the message is opaque to this library.
    RpcError(String),
    /// A value could not be serialized.
    SerializationError,
    /// An image upload failed.
    ImageUploadError(String),
    /// The image bytes do not decode as any supported image format.
    InvalidImageFormat(String),
    /// The image holds more bytes than the bound; carries (actual, bound).
    ImageTooLarge(usize, usize),
    /// An image could not be downloaded.
    ImageDownloadError(String),
    /// An image file could not be read.
    ImageReadError(String),
    /// An asset creation failed.
    NftCreationError(String),
    /// A metadata upload failed.
    MetadataUploadError(String),
    /// No account exists at the requested address.
    AccountNotFound(String),
    /// An asset's on-ledger bytes were malformed.
    InvalidAssetData(String),
    /// Metadata could not be fetched.
    MetadataFetchError(String),
    /// An asset could not be deserialized.
    AssetDeserializationError(String),
    /// The caller does not hold authority over the asset.
    NotAuthorized(String),
    /// The name's encoded length exceeds the derivation bound;
    /// carries (actual, bound).
    InvalidNameLength(usize, usize),
    /// The derivation scheme found no viable address for the seeds.
    DerivationFailure,
    /// A decode was asked on fewer bytes than the fixed size;
    /// carries (actual, needed).
    SizeMismatch(usize, usize),
    /// An account fetch returned fewer bytes than the fixed state size;
    /// carries (actual, needed).
    AccountTooSmall(usize, usize),
    /// A write was applied to an account that was never delegated.
    NotDelegated,
}

impl WorldError {
    /// A short human-readable label for the error, in place of `Display`.
    pub fn label(&self) -> &'static str {
        match self {
            WorldError::RpcError(_) => "rpc error",
            WorldError::SerializationError => "serialization error",
            WorldError::ImageUploadError(_) => "image upload failed",
            WorldError::InvalidImageFormat(_) => "invalid image format",
            WorldError::ImageTooLarge(_, _) => "image too large",
            WorldError::ImageDownloadError(_) => "image download failed",
            WorldError::ImageReadError(_) => "image read failed",
            WorldError::NftCreationError(_) => "nft creation failed",
            WorldError::MetadataUploadError(_) => "metadata upload failed",
            WorldError::AccountNotFound(_) => "account not found",
            WorldError::InvalidAssetData(_) => "invalid asset data",
            WorldError::MetadataFetchError(_) => "metadata fetch failed",
            WorldError::AssetDeserializationError(_) => "asset deserialization failed",
            WorldError::NotAuthorized(_) => "not authorized",
            WorldError::InvalidNameLength(_, _) => "invalid name length",
            WorldError::DerivationFailure => "derivation failure",
            WorldError::SizeMismatch(_, _) => "size mismatch",
            WorldError::AccountTooSmall(_, _) => "account too small",
            WorldError::NotDelegated => "not delegated",
        }
    }
}

} // verus!
