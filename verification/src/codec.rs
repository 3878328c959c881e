//! Compression of stored files: zstd at the best level on upload, and the
//! matching decompression on download.
use vstd::prelude::*;
use async_compression::tokio::write::{ZstdDecoder, ZstdEncoder};
use async_compression::Level;
use futures::executor::block_on;
use tokio::io::AsyncWriteExt;
use crate::errors::{CdnError, CdnErrorView};

verus! {

/// What the zstd encoder of `async_compression`, at `Level::Best`, makes of
/// `data`: the compressed bytes, or the debug text of the I/O error it fails
/// with.
pub uninterp spec fn zstd_compressed(data: Seq<u8>) -> Result<Seq<u8>, Seq<char>>;

/// What the zstd decoder of `async_compression` makes of `data`: the
/// decompressed bytes, or the debug text of the I/O error it fails with where
/// `data` is not a zstd stream it accepts.
pub uninterp spec fn zstd_decompressed(data: Seq<u8>) -> Result<Seq<u8>, Seq<char>>;

/// A successful codec result holding `bytes`.
pub open spec fn decoded_ok(bytes: Seq<u8>) -> Result<Seq<u8>, Seq<char>> {
    Ok(bytes)
}

/// A failed codec result with the error text `text`.
pub open spec fn failed_with(text: Seq<char>) -> Result<Seq<u8>, Seq<char>> {
    Err(text)
}

/// Compresses `data` with `async_compression::tokio::write::ZstdEncoder` at
/// `Level::Best`, written into a `Vec` and shut down, as the storage node
/// does; an I/O error comes back as its debug text.
///
/// Trusted: the result is `zstd_compressed(data)` (the encoder is
/// deterministic), and, zstd being lossless, decoding what it produced gives
/// `data` back. When the encoder fails is not stated.
#[verifier::external_body]
fn zstd_compress(data: &[u8]) -> (res: Result<Vec<u8>, String>)
    ensures
        match res {
            Ok(v) => zstd_compressed(data@) == decoded_ok(v@),
            Err(t) => zstd_compressed(data@) == failed_with(t@),
        },
        res matches Ok(c) ==> zstd_decompressed(c@) == decoded_ok(data@),
{
    let mut encoder = ZstdEncoder::with_quality(Vec::new(), Level::Best);
    if let Err(e) = block_on(encoder.write_all(data)) {
        return Err(format!("{:?}", e));
    }
    if let Err(e) = block_on(encoder.shutdown()) {
        return Err(format!("{:?}", e));
    }
    Ok(encoder.into_inner())
}

/// Decompresses `data` with `async_compression::tokio::write::ZstdDecoder`,
/// written into a `Vec` and shut down, as the user-facing server does; an
/// I/O error comes back as its debug text.
///
/// Trusted: the result is `zstd_decompressed(data)` (the decoder is
/// deterministic).
#[verifier::external_body]
fn zstd_decompress(data: &[u8]) -> (res: Result<Vec<u8>, String>)
    ensures
        match res {
            Ok(v) => zstd_decompressed(data@) == decoded_ok(v@),
            Err(t) => zstd_decompressed(data@) == failed_with(t@),
        },
{
    let mut decoder = ZstdDecoder::new(Vec::new());
    if let Err(e) = block_on(decoder.write_all(data)) {
        return Err(format!("{:?}", e));
    }
    if let Err(e) = block_on(decoder.shutdown()) {
        return Err(format!("{:?}", e));
    }
    Ok(decoder.into_inner())
}

/// Compresses an uploaded file for storage; a failure of the encoder is
/// `FailedToCompress` with the encoder's error text.
pub fn compress_for_storage(data: &[u8]) -> (res: Result<Vec<u8>, CdnError>)
    ensures
        match res {
            Ok(c) => zstd_compressed(data@) == decoded_ok(c@),
            Err(e) => zstd_compressed(data@) matches Err(t) && e@ == CdnErrorView::FailedToCompress(t),
        },
        res matches Ok(c) ==> zstd_decompressed(c@) == decoded_ok(data@),
{
    match zstd_compress(data) {
        Ok(c) => Ok(c),
        Err(e) => Err(CdnError::FailedToCompress(e)),
    }
}

/// Decompresses a file fetched from a storage node; a failure of the decoder
/// is `FailedToDeCompress` with the decoder's error text.
pub fn decompress_stored(data: &[u8]) -> (res: Result<Vec<u8>, CdnError>)
    ensures
        match res {
            Ok(d) => zstd_decompressed(data@) == decoded_ok(d@),
            Err(e) => zstd_decompressed(data@) matches Err(t) && e@ == CdnErrorView::FailedToDeCompress(t),
        },
{
    match zstd_decompress(data) {
        Ok(d) => Ok(d),
        Err(e) => Err(CdnError::FailedToDeCompress(e)),
    }
}

} // verus!
