//! Accepting an upload on a storage node: collecting the file within the size
//! limit, naming it by its SHA-512 digest, and the URL it is served at.
use vstd::prelude::*;
use crate::codec::{compress_for_storage, decoded_ok, zstd_compressed, zstd_decompressed};
use crate::errors::{CdnError, CdnErrorView};
use crate::text::{
    after_last_dot, decimal, hex_char, hex_lower, hex_string, last_dot_segment,
    lemma_hex_injective, lemma_hex_len, push_decimal,
};

verus! {

/// The SHA-512 digest of `data`, as `hmac_sha512::Hash::hash` computes it.
pub uninterp spec fn sha512_digest(data: Seq<u8>) -> Seq<u8>;

/// The SHA-512 digest of `data` (`hmac_sha512::Hash::hash`).
///
/// Trusted: the result is `sha512_digest(data)`, and it has 64 bytes (the
/// function returns a `[u8; 64]`).
#[verifier::external_body]
fn sha512(data: &[u8]) -> (res: Vec<u8>)
    ensures
        res@ == sha512_digest(data@),
        res@.len() == 64,
{
    hmac_sha512::Hash::hash(data).to_vec()
}

/// The bytes of a file being received, chunk by chunk, by a storage node.
#[derive(Debug)]
pub struct UploadBuffer {
    buffer: Vec<u8>,
}

impl View for UploadBuffer {
    type V = Seq<u8>;

    closed spec fn view(&self) -> Seq<u8> {
        self.buffer@
    }
}

impl UploadBuffer {
    /// An empty upload.
    pub fn new() -> (res: UploadBuffer)
        ensures
            res@ == Seq::<u8>::empty(),
    {
        UploadBuffer { buffer: Vec::new() }
    }

    /// The number of bytes received so far.
    pub fn file_size(&self) -> (res: u64)
        ensures
            res == self@.len(),
    {
        self.buffer.len() as u64
    }

    /// The bytes received so far.
    pub fn bytes(&self) -> (res: &[u8])
        ensures
            res@ == self@,
    {
        self.buffer.as_slice()
    }

    /// The bytes received, taking the buffer apart.
    pub fn into_bytes(self) -> (res: Vec<u8>)
        ensures
            res@ == self@,
    {
        self.buffer
    }

    /// Receives the next chunk of the file, given the size limit currently in
    /// force. Where the file would grow beyond the limit, the upload is
    /// refused with `FileSizeExceeded` and nothing is added.
    pub fn push_chunk(&mut self, data: &[u8], max_content_length: u64) -> (res: Result<(), CdnError>)
        ensures
            res is Ok <==> old(self)@.len() + data@.len() <= max_content_length,
            res is Ok ==> final(self)@ == old(self)@ + data@,
            res matches Err(e) ==> e@ is FileSizeExceeded && final(self)@ == old(self)@,
    {
        let size = self.buffer.len() as u64;
        let added = data.len() as u64;
        if size > max_content_length || added > max_content_length - size {
            return Err(CdnError::FileSizeExceeded);
        }
        self.buffer.extend_from_slice(data);
        Ok(())
    }
}

/// The name under which a file is stored: the hexadecimal SHA-512 digest of
/// its content, a dot, and the extension of its upload name.
pub open spec fn storage_name(content: Seq<u8>, upload_name: Seq<char>) -> Seq<char> {
    hex_lower(sha512_digest(content)) + "."@ + after_last_dot(upload_name)
}

/// The path of a stored file under the storage directory.
pub open spec fn storage_path(storage_dir: Seq<char>, name: Seq<char>) -> Seq<char> {
    storage_dir + "/"@ + name
}

/// The public URL of a file stored on a node.
pub open spec fn file_url(host: Seq<char>, node_id: u64, name: Seq<char>) -> Seq<char> {
    host + "/uploads/"@ + decimal(node_id as nat) + "/"@ + name
}

/// The lowercase hexadecimal SHA-512 digest of `content`.
pub fn file_hash(content: &[u8]) -> (res: String)
    ensures
        res@ == hex_lower(sha512_digest(content@)),
        res@.len() == 128,
{
    let digest = sha512(content);
    proof {
        lemma_hex_len(digest@);
    }
    hex_string(digest.as_slice())
}

/// The name under which a file was uploaded; an upload without a name is
/// refused with `NoFileName`.
pub fn uploaded_file_name(file_name: Option<&str>) -> (res: Result<String, CdnError>)
    ensures
        match file_name {
            Some(n) => res matches Ok(s) && s@ == n@,
            None => res matches Err(e) && e@ is NoFileName,
        },
{
    match file_name {
        Some(n) => Ok(n.to_owned()),
        None => Err(CdnError::NoFileName),
    }
}

/// The extension of an uploaded file: what follows the last dot of its name,
/// or the whole name where it has no dot. An upload without a name is
/// refused with `NoFileName`.
pub fn upload_extension(file_name: Option<&str>) -> (res: Result<String, CdnError>)
    ensures
        match file_name {
            Some(n) => res matches Ok(ext) && ext@ == after_last_dot(n@),
            None => res matches Err(e) && e@ is NoFileName,
        },
{
    match file_name {
        Some(n) => Ok(last_dot_segment(n)),
        None => Err(CdnError::NoFileName),
    }
}

/// The path of a file under the storage directory: `storage_dir/name`.
pub fn path_in_storage(storage_dir: &str, name: &str) -> (res: String)
    ensures
        res@ == storage_path(storage_dir@, name@),
{
    String::from_str(storage_dir).concat("/").concat(name)
}

/// The URL at which a stored file is served: `host/uploads/node_id/name`.
pub fn url_of_file(host: &str, node_id: u64, name: &str) -> (res: String)
    ensures
        res@ == file_url(host@, node_id, name@),
{
    let mut url = String::from_str(host).concat("/uploads/");
    push_decimal(&mut url, node_id);
    url.concat("/").concat(name)
}

/// Where an uploaded file is kept and where it is served.
#[derive(Debug)]
pub struct StoredFile {
    /// The file's name: digest, dot, extension.
    pub name: String,
    /// Its path in the storage directory.
    pub path: String,
    /// Its public URL.
    pub url: String,
}

/// Names an uploaded file by its content: its SHA-512 digest in lowercase
/// hexadecimal, a dot and the extension of its upload name; and gives the
/// path where the node stores it and the URL at which it is served. An upload
/// without a name is refused with `NoFileName`.
pub fn plan_storage(
    content: &[u8],
    file_name: Option<&str>,
    storage_dir: &str,
    host: &str,
    node_id: u64,
) -> (res: Result<StoredFile, CdnError>)
    ensures
        match file_name {
            Some(n) => res matches Ok(f) && {
                &&& f.name@ == storage_name(content@, n@)
                &&& hex_lower(sha512_digest(content@)).len() == 128
                &&& f.path@ == storage_path(storage_dir@, storage_name(content@, n@))
                &&& f.url@ == file_url(host@, node_id, storage_name(content@, n@))
            },
            None => res matches Err(e) && e@ is NoFileName,
        },
{
    let hash = file_hash(content);
    let ext = upload_extension(file_name)?;
    let name = hash.concat(".").concat(ext.as_str());
    let path = path_in_storage(storage_dir, name.as_str());
    let url = url_of_file(host, node_id, name.as_str());
    Ok(StoredFile { name, path, url })
}

/// The JSON answer to a successful upload.
#[derive(Debug, Clone)]
pub struct UploadResponse {
    pub url: String,
}

/// What a storage node writes for an upload: nothing where a file of that
/// name is already stored (the same digest, so the same content), else the
/// compressed content. A failure of the encoder is `FailedToCompress`, with
/// the encoder's error text.
pub fn bytes_to_store(already_stored: bool, content: &[u8]) -> (res: Result<Option<Vec<u8>>, CdnError>)
    ensures
        already_stored ==> res matches Ok(None),
        !already_stored ==> match res {
            Ok(Some(c)) => zstd_compressed(content@) == decoded_ok(c@)
                && zstd_decompressed(c@) == decoded_ok(content@),
            Ok(None) => false,
            Err(e) => zstd_compressed(content@) matches Err(t) && e@ == CdnErrorView::FailedToCompress(t),
        },
{
    if already_stored {
        Ok(None)
    } else {
        let compressed = compress_for_storage(content)?;
        Ok(Some(compressed))
    }
}

/// The answer to an upload: the URL of the stored file.
pub fn upload_response(file: StoredFile) -> (res: UploadResponse)
    ensures
        res.url@ == file.url@,
{
    UploadResponse { url: file.url }
}


proof fn lemma_hex_has_no_dot(bytes: Seq<u8>)
    ensures
        !hex_lower(bytes).contains('.'),
    decreases bytes.len(),
{
    if bytes.len() > 0 {
        lemma_hex_has_no_dot(bytes.drop_last());
        let p = hex_lower(bytes.drop_last());
        let b = bytes.last();
        let h = p + seq![hex_char((b / 16) as nat), hex_char((b % 16) as nat)];
        assert forall|i: int| 0 <= i < h.len() implies h[i] != '.' by {
            if i < p.len() {
                assert(p[i] == h[i]);
            }
        }
        assert(hex_lower(bytes) =~= h);
    }
}

proof fn lemma_split_at_dot(a1: Seq<char>, b1: Seq<char>, a2: Seq<char>, b2: Seq<char>)
    requires
        !a1.contains('.'),
        !a2.contains('.'),
        a1 + "."@ + b1 == a2 + "."@ + b2,
    ensures
        a1 == a2,
        b1 == b2,
{
    reveal_strlit(".");
    let s = a1 + "."@ + b1;
    if a1.len() < a2.len() {
        assert(s[a1.len() as int] == '.');
        assert(s[a1.len() as int] == a2[a1.len() as int]);
    } else if a2.len() < a1.len() {
        assert(s[a2.len() as int] == '.');
        assert(s[a2.len() as int] == a1[a2.len() as int]);
    }
    assert(a1 =~= s.subrange(0, a1.len() as int));
    assert(a2 =~= s.subrange(0, a2.len() as int));
    assert(b1 =~= s.subrange(a1.len() as int + 1, s.len() as int));
    assert(b2 =~= s.subrange(a2.len() as int + 1, s.len() as int));
}

/// Files are addressed by their content: two uploads are stored under the
/// same name exactly when their contents have the same SHA-512 digest and
/// their names the same extension.
pub proof fn lemma_storage_name_identifies_content(
    content1: Seq<u8>,
    name1: Seq<char>,
    content2: Seq<u8>,
    name2: Seq<char>,
)
    ensures
        storage_name(content1, name1) == storage_name(content2, name2) <==> (sha512_digest(
            content1,
        ) == sha512_digest(content2) && after_last_dot(name1) == after_last_dot(name2)),
{
    if storage_name(content1, name1) == storage_name(content2, name2) {
        lemma_hex_has_no_dot(sha512_digest(content1));
        lemma_hex_has_no_dot(sha512_digest(content2));
        lemma_split_at_dot(
            hex_lower(sha512_digest(content1)),
            after_last_dot(name1),
            hex_lower(sha512_digest(content2)),
            after_last_dot(name2),
        );
        lemma_hex_injective(sha512_digest(content1), sha512_digest(content2));
    }
}

} // verus!
