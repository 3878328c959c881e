use cdn::download::{attachment_disposition, require_stored_file, DownloadAction, DownloadRequest};
use cdn::errors::CdnError;
use cdn::node::{get_node_id, max_content_length_or_default, NodeIdentity};
use cdn::upload::{
    bytes_to_store, file_hash, path_in_storage, plan_storage, upload_extension, upload_response, url_of_file,
    UploadBuffer,
};

const ABC_SHA512: &str = "ddaf35a193617abacc417349ae20413112e6fa4e89a97ea20a9eeee64b55d39a2192992a274fc1a836ba3c23a3feebbd454d4423643ce80e2a9ac94fa54ca49f";

#[test]
fn file_hash_is_hex_sha512() {
    assert_eq!(file_hash(b"abc"), ABC_SHA512);
    let h = file_hash(b"");
    assert_eq!(h.len(), 128);
    assert_eq!(file_hash(&vec![7u8; 100_000]).len(), 128);
    assert!(h.starts_with("cf83e1357eefb8bd"));
}

#[test]
fn upload_buffer_enforces_the_limit() {
    let mut buf = UploadBuffer::new();
    assert_eq!(buf.file_size(), 0);
    assert!(buf.push_chunk(b"hello", 10).is_ok());
    assert!(buf.push_chunk(b"world", 10).is_ok());
    assert_eq!(buf.file_size(), 10);
    assert!(matches!(buf.push_chunk(b"!", 10), Err(CdnError::FileSizeExceeded)));
    assert_eq!(buf.bytes(), b"helloworld");
    // a higher limit read later admits more
    assert!(buf.push_chunk(b"!", 11).is_ok());
    assert_eq!(buf.into_bytes(), b"helloworld!".to_vec());
}

#[test]
fn upload_buffer_refuses_beyond_any_limit() {
    let mut buf = UploadBuffer::new();
    assert!(matches!(buf.push_chunk(b"x", 0), Err(CdnError::FileSizeExceeded)));
    assert!(buf.push_chunk(b"", 0).is_ok());
    assert!(buf.push_chunk(b"abc", u64::MAX).is_ok());
    assert_eq!(buf.file_size(), 3);
}

#[test]
fn extensions_follow_the_last_dot() {
    assert_eq!(upload_extension(Some("cat.tar.gz")).unwrap(), "gz");
    assert_eq!(upload_extension(Some("README")).unwrap(), "README");
    assert_eq!(upload_extension(Some("trailing.")).unwrap(), "");
    assert_eq!(upload_extension(Some(".hidden")).unwrap(), "hidden");
    assert_eq!(upload_extension(Some("")).unwrap(), "");
    assert_eq!(upload_extension(Some("kép.jpé")).unwrap(), "jpé");
    assert!(matches!(upload_extension(None), Err(CdnError::NoFileName)));
}

#[test]
fn stored_files_are_named_by_content() {
    let plan = plan_storage(b"abc", Some("cat.png"), "/srv/uploads", "https://cdn.example", 42).unwrap();
    let name = format!("{}.png", ABC_SHA512);
    assert_eq!(plan.name, name);
    assert_eq!(plan.name.split('.').next().unwrap().len(), 128);
    assert_eq!(plan.path, format!("/srv/uploads/{}", name));
    assert_eq!(plan.url, format!("https://cdn.example/uploads/42/{}", name));
    assert_eq!(upload_response(plan).url, format!("https://cdn.example/uploads/42/{}", name));
    // the same content under another upload name with the same extension is the same file
    let again = plan_storage(b"abc", Some("other.png"), "/srv/uploads", "https://cdn.example", 42).unwrap();
    assert_eq!(again.name, name);
    // different content, different name
    let other = plan_storage(b"abd", Some("cat.png"), "/srv/uploads", "https://cdn.example", 42).unwrap();
    assert_ne!(other.name, name);
    assert!(matches!(
        plan_storage(b"abc", None, "/srv/uploads", "https://cdn.example", 42),
        Err(CdnError::NoFileName)
    ));
}

#[test]
fn paths_and_urls() {
    assert_eq!(path_in_storage("../../uploads", "a.b"), "../../uploads/a.b");
    assert_eq!(url_of_file("https://cdn.ferris.chat", 0, "x.png"), "https://cdn.ferris.chat/uploads/0/x.png");
    assert_eq!(
        url_of_file("h", u64::MAX, "n"),
        "h/uploads/18446744073709551615/n"
    );
    assert_eq!(attachment_disposition("a.png"), "attachment; filename=a.png");
}

#[test]
fn already_stored_files_are_not_rewritten() {
    assert!(matches!(bytes_to_store(true, b"data"), Ok(None)));
    let stored = bytes_to_store(false, b"data").unwrap().unwrap();
    assert_ne!(stored, b"data".to_vec());
    assert_eq!(&stored[..4], &[0x28, 0xb5, 0x2f, 0xfd]);
}

#[test]
fn download_gives_back_the_upload() {
    let content: Vec<u8> = (0..5000u32).map(|i| (i * 7 % 251) as u8).collect();
    let stored = bytes_to_store(false, &content).unwrap().unwrap();
    assert!(stored.len() < content.len());
    let request = DownloadRequest { node: "1".to_string(), filename: "f.bin".to_string(), cache_enabled: true };
    match request.after_fetch(Ok(stored)) {
        DownloadAction::Respond { response, cache_cost } => {
            assert_eq!(response.status, 200);
            assert_eq!(response.body, content);
            assert_eq!(cache_cost, Some(5000));
        }
        other => panic!("unexpected {:?}", other),
    }
}

#[test]
fn storage_lookup() {
    assert!(require_stored_file(true).is_ok());
    assert!(matches!(require_stored_file(false), Err(CdnError::NotFound)));
}

#[test]
fn node_identity_is_set_once() {
    let mut id = NodeIdentity::new();
    assert!(!id.is_set());
    assert_eq!(id.set_node_id(7), Ok(()));
    assert!(id.is_set());
    assert_eq!(get_node_id(&id), 7);
    assert_eq!(id.set_node_id(9), Err(9));
    assert_eq!(get_node_id(&id), 7);
}

#[test]
fn max_content_length_defaults_to_ten_mebibytes() {
    assert_eq!(max_content_length_or_default(None), 10 * 1024 * 1024);
    assert_eq!(max_content_length_or_default(Some(5)), 5);
}
