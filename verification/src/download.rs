//! Serving a download: the user-facing server answers from its cache or from
//! a file fetched (compressed) from a storage node; a storage node answers
//! with the stored bytes as an attachment.
use vstd::prelude::*;
use vstd::utf8::encode_utf8;
use crate::codec::{decoded_ok, decompress_stored, zstd_decompressed};
use crate::errors::{CdnError, CdnErrorView};
use crate::remote::{download_url, node_download_url};

verus! {

/// Whether every byte may stand in an HTTP header value: visible ASCII,
/// space, tab, or any byte from 128 up (`http::HeaderValue::from_str`).
pub open spec fn valid_header_bytes(bytes: Seq<u8>) -> bool {
    forall|i: int| 0 <= i < bytes.len() ==> (bytes[i] >= 32 && bytes[i] != 127) || bytes[i] == 9
}

/// Whether a text may stand as an HTTP header value.
pub open spec fn valid_header_text(s: Seq<char>) -> bool {
    valid_header_bytes(encode_utf8(s))
}

/// The Content-Type sent for a detected media type: the type itself where it
/// is a valid header value, else `application/octet-stream`.
pub open spec fn content_type_for(mime: Seq<char>) -> Seq<char> {
    if valid_header_text(mime) {
        mime
    } else {
        "application/octet-stream"@
    }
}

/// Whether `tree_magic::from_u8` may report `mime` as the media type of
/// `data`. This is a relation, not a function: the detection reads the
/// media-type database of the machine it runs on, so the same bytes may be
/// reported differently elsewhere, and nothing more is known of it than the
/// pairs that detection produced.
pub uninterp spec fn mime_detected_in(data: Seq<u8>, mime: Seq<char>) -> bool;

/// The media type that `tree_magic::from_u8` detects in `data`.
///
/// Trusted: only that the result was detected in `data`
/// (`mime_detected_in`); which type it is depends on the machine and is not
/// stated.
#[verifier::external_body]
fn detect_mime(data: &[u8]) -> (res: String)
    ensures
        mime_detected_in(data@, res@),
{
    tree_magic::from_u8(data)
}

/// Whether `s` can be sent as an HTTP header value.
pub fn is_valid_header_value(s: &str) -> (res: bool)
    ensures
        res == valid_header_text(s@),
{
    let bytes = s.as_bytes();
    let n = bytes.len();
    let mut i: usize = 0;
    while i < n
        invariant
            n == bytes@.len(),
            bytes@ == encode_utf8(s@),
            i <= n,
            forall|j: int| 0 <= j < i ==> (bytes@[j] >= 32 && bytes@[j] != 127) || bytes@[j] == 9,
        decreases n - i,
    {
        let b = bytes[i];
        if !((b >= 32 && b != 127) || b == 9) {
            return false;
        }
        i = i + 1;
    }
    true
}

/// The Content-Type header for a detected media type, falling back to
/// `application/octet-stream` where the type is not a valid header value.
pub fn content_type_header(mime: &str) -> (res: String)
    ensures
        res@ == content_type_for(mime@),
{
    if is_valid_header_value(mime) {
        mime.to_owned()
    } else {
        String::from_str("application/octet-stream")
    }
}

/// A download answered by the user-facing server.
#[derive(Debug)]
pub struct DownloadResponse {
    /// The HTTP status: 302 from the cache, 200 from a storage node.
    pub status: u16,
    /// The Content-Type header.
    pub content_type: String,
    /// The file's bytes.
    pub body: Vec<u8>,
}

/// Answers a download with `body`, its media type detected from its content.
fn file_response(status: u16, body: Vec<u8>) -> (res: DownloadResponse)
    ensures
        res.status == status,
        res.body@ == body@,
        exists|mime: Seq<char>| mime_detected_in(res.body@, mime) && res.content_type@ == content_type_for(mime),
{
    let mime = detect_mime(body.as_slice());
    let content_type = content_type_header(mime.as_str());
    DownloadResponse { status, content_type, body }
}

/// Answers a download from the cache: status 302 (Found) with the cached
/// bytes.
pub fn cached_file_response(file: Vec<u8>) -> (res: DownloadResponse)
    ensures
        res.status == 302,
        res.body@ == file@,
        exists|mime: Seq<char>| mime_detected_in(res.body@, mime) && res.content_type@ == content_type_for(mime),
{
    file_response(302, file)
}

/// Answers a download with a file fetched from a storage node: the stored
/// bytes are decompressed and sent with status 200 (OK). A file that does not
/// decompress is `FailedToDeCompress`.
pub fn stored_file_response(stored: &[u8]) -> (res: Result<DownloadResponse, CdnError>)
    ensures
        match res {
            Ok(r) => {
                &&& zstd_decompressed(stored@) == decoded_ok(r.body@)
                &&& r.status == 200
                &&& exists|mime: Seq<char>| mime_detected_in(r.body@, mime) && r.content_type@ == content_type_for(mime)
            },
            Err(e) => zstd_decompressed(stored@) matches Err(t) && e@ == CdnErrorView::FailedToDeCompress(t),
        },
{
    let decoded = decompress_stored(stored)?;
    Ok(file_response(200, decoded))
}

/// The Content-Disposition header with which a storage node sends a file.
pub fn attachment_disposition(filename: &str) -> (res: String)
    ensures
        res@ == "attachment; filename="@ + filename@,
{
    String::from_str("attachment; filename=").concat(filename)
}

/// A storage node looks a requested file up: a file that is not there is
/// `NotFound`.
pub fn require_stored_file(exists: bool) -> (res: Result<(), CdnError>)
    ensures
        exists <==> res is Ok,
        res matches Err(e) ==> e@ is NotFound,
{
    if exists {
        Ok(())
    } else {
        Err(CdnError::NotFound)
    }
}


/// The cache cost of a decoded file of `len` bytes: its length (a length
/// beyond `i64::MAX`, which no file in memory reaches, counts as `i64::MAX`).
pub open spec fn cache_cost_of(len: nat) -> i64 {
    if len <= i64::MAX {
        len as i64
    } else {
        i64::MAX
    }
}

/// A download handled by the user-facing server:
/// `GET /download/{node}/{filename}`.
#[derive(Debug)]
pub struct DownloadRequest {
    /// The storage node that holds the file.
    pub node: String,
    /// The stored file's name, also its cache key.
    pub filename: String,
    /// Whether the server caches files.
    pub cache_enabled: bool,
}

/// What the server does next for a download.
#[derive(Debug)]
pub enum DownloadAction {
    /// Look the file up in the cache, under its name.
    ReadCache,
    /// Ask Redis for the address of the storage node.
    FindNode,
    /// Fetch the stored file from this URL.
    FetchFile { url: String },
    /// Answer with `response`; where `cache_cost` is given, first put the
    /// response's body into the cache under the file's name, at that cost.
    Respond { response: DownloadResponse, cache_cost: Option<i64> },
    /// Answer with this error.
    Fail(CdnError),
}

impl DownloadRequest {
    /// The first step: the cache where caching is on, else the node lookup.
    pub fn first_action(&self) -> (res: DownloadAction)
        ensures
            self.cache_enabled ==> res is ReadCache,
            !self.cache_enabled ==> res is FindNode,
    {
        if self.cache_enabled {
            DownloadAction::ReadCache
        } else {
            DownloadAction::FindNode
        }
    }

    /// After the cache lookup: a cached file is answered at once with status
    /// 302, without contacting any node; otherwise the node is looked up.
    pub fn after_cache_lookup(&self, cached: Option<Vec<u8>>) -> (res: DownloadAction)
        ensures
            match cached {
                Some(f) => res matches DownloadAction::Respond { response, cache_cost } && {
                    &&& response.status == 302
                    &&& response.body@ == f@
                    &&& exists|mime: Seq<char>| mime_detected_in(response.body@, mime) && response.content_type@ == content_type_for(mime)
                    &&& cache_cost is None
                },
                None => res is FindNode,
            },
    {
        match cached {
            Some(f) => DownloadAction::Respond { response: cached_file_response(f), cache_cost: None },
            None => DownloadAction::FindNode,
        }
    }

    /// After the node lookup: an unknown node is `FailedToGetNode`;
    /// otherwise the file is fetched from
    /// `http://{ip}:8085/download/{filename}`.
    pub fn after_node_lookup(&self, ip: Option<String>) -> (res: DownloadAction)
        ensures
            match ip {
                Some(a) => res matches DownloadAction::FetchFile { url } && url@ == node_download_url(
                    a@,
                    self.filename@,
                ),
                None => res matches DownloadAction::Fail(e) && e@ is FailedToGetNode,
            },
    {
        match ip {
            Some(a) => DownloadAction::FetchFile {
                url: download_url(a.as_str(), self.filename.as_str()),
            },
            None => DownloadAction::Fail(CdnError::FailedToGetNode),
        }
    }

    /// After fetching the stored file: a failed fetch is answered with its
    /// error; the file is decompressed (`FailedToDeCompress` where it does not
    /// decompress) and answered with status 200, entering the cache first,
    /// at the cost of its length, where caching is on.
    pub fn after_fetch(&self, fetched: Result<Vec<u8>, CdnError>) -> (res: DownloadAction)
        ensures
            match fetched {
                Err(e) => res == DownloadAction::Fail(e),
                Ok(stored) => match zstd_decompressed(stored@) {
                    Ok(d) => res matches DownloadAction::Respond { response, cache_cost } && {
                        &&& response.status == 200
                        &&& response.body@ == d
                        &&& exists|mime: Seq<char>| mime_detected_in(response.body@, mime) && response.content_type@ == content_type_for(mime)
                        &&& cache_cost == if self.cache_enabled {
                            Some(cache_cost_of(d.len()))
                        } else {
                            None
                        }
                    },
                    Err(t) => res matches DownloadAction::Fail(e) && e@ == CdnErrorView::FailedToDeCompress(t),
                },
            },
    {
        match fetched {
            Err(e) => DownloadAction::Fail(e),
            Ok(stored) => match stored_file_response(stored.as_slice()) {
                Err(e) => DownloadAction::Fail(e),
                Ok(response) => {
                    let len = response.body.len();
                    let cost = if len as u64 <= i64::MAX as u64 {
                        len as i64
                    } else {
                        i64::MAX
                    };
                    let cache_cost = if self.cache_enabled {
                        Some(cost)
                    } else {
                        None
                    };
                    DownloadAction::Respond { response, cache_cost }
                },
            },
        }
    }
}


/// Exactly the control bytes other than tab, and DEL, are refused in a
/// header value: a byte string made of tab, space, visible ASCII (`!` to `~`,
/// `+` among them) and bytes from 128 up is valid, and one holding any other
/// byte is not.
pub proof fn lemma_valid_header_bytes_exactly(bytes: Seq<u8>)
    ensures
        (forall|i: int| 0 <= i < bytes.len() ==> bytes[i] == 9 || (32 <= bytes[i] <= 126) || bytes[i] >= 128)
            ==> valid_header_bytes(bytes),
        (exists|i: int| 0 <= i < bytes.len() && ((bytes[i] < 32 && bytes[i] != 9) || bytes[i] == 127))
            ==> !valid_header_bytes(bytes),
{
    if exists|i: int| 0 <= i < bytes.len() && ((bytes[i] < 32 && bytes[i] != 9) || bytes[i] == 127) {
        let i = choose|i: int| 0 <= i < bytes.len() && ((bytes[i] < 32 && bytes[i] != 9) || bytes[i] == 127);
        assert(!((bytes[i] >= 32 && bytes[i] != 127) || bytes[i] == 9));
    }
}

/// A detected media type whose UTF-8 bytes are all tab, space, visible ASCII
/// or from 128 up (such as `image/svg+xml`) is sent unchanged as the
/// Content-Type.
pub proof fn lemma_ordinary_media_type_kept(mime: Seq<char>)
    requires
        forall|i: int|
            0 <= i < encode_utf8(mime).len() ==> encode_utf8(mime)[i] == 9 || (32 <= encode_utf8(mime)[i]
                <= 126) || encode_utf8(mime)[i] >= 128,
    ensures
        content_type_for(mime) == mime,
{
    lemma_valid_header_bytes_exactly(encode_utf8(mime));
}

/// A decoded file enters the cache at the cost of its length in bytes.
pub proof fn lemma_cache_cost_is_length(len: nat)
    requires
        len <= i64::MAX,
    ensures
        cache_cost_of(len) as int == len,
{
}

} // verus!
