use cdn::errors::{Argon2Failure, CdnError, ErrorJson, ErrorResponse, SplitTokenError, VerifyTokenFailure};

fn message(body: &ErrorJson) -> (u16, String) {
    match body {
        ErrorJson::Message { code, message } => (*code, message.clone()),
        other => panic!("expected a message body, got {:?}", other),
    }
}

fn internal(body: &ErrorJson) -> (String, bool, Option<String>) {
    match body {
        ErrorJson::InternalServerError { reason, is_bug, link } => (reason.clone(), *is_bug, link.clone()),
        other => panic!("expected an internal error body, got {:?}", other),
    }
}

fn respond(e: CdnError) -> ErrorResponse {
    e.into_response()
}

#[test]
fn client_errors_get_4xx_and_messages() {
    let r = respond(CdnError::FileSizeExceeded);
    assert_eq!(r.status, 413);
    assert_eq!(
        message(&r.body),
        (400, "File size exceeded. Please try again with a smaller file.".to_string())
    );
    let r = respond(CdnError::NoFileName);
    assert_eq!(r.status, 400);
    assert_eq!(message(&r.body), (400, "No file name provided".to_string()));
    let r = respond(CdnError::NoFileExtension);
    assert_eq!(r.status, 400);
    assert_eq!(message(&r.body), (400, "No file extension provided".to_string()));
    let r = respond(CdnError::NoFile);
    assert_eq!(r.status, 400);
    assert_eq!(message(&r.body), (400, "No file provided".to_string()));
    let r = respond(CdnError::MultipartError("Stream ended".to_string()));
    assert_eq!(r.status, 400);
    assert_eq!(message(&r.body), (400, "Failed to parse multipart: Stream ended".to_string()));
}

#[test]
fn not_found_is_404_with_code_400_body() {
    let r = respond(CdnError::NotFound);
    assert_eq!(r.status, 404);
    assert_eq!(message(&r.body), (400, "File not found".to_string()));
    let b = ErrorJson::new_404("gone".to_string());
    assert_eq!(message(&b), (400, "gone".to_string()));
}

#[test]
fn internal_errors_are_500_and_bugs() {
    let cases = vec![
        (CdnError::Default, "Something went wrong while trying to save the file."),
        (CdnError::FailedToOpenRedisConnection("Timeout".to_string()), "Failed to open redis connection: Timeout"),
        (CdnError::FailedToGetNode, "Failed to get node from redis."),
        (CdnError::FailedToDeCompress("bad".to_string()), "Failed to decompress: bad"),
        (CdnError::FailedToOpen("denied".to_string()), "Failed to open file: denied"),
        (CdnError::ReqwestFailed("refused".to_string()), "Reqwest failed: refused"),
        (CdnError::FailedToCompress("x".to_string()), "Failed to compress the file: x"),
        (CdnError::FailedToSpawnBlock("panic".to_string()), "Task failed to execute to completion: panic"),
        (CdnError::FailedToSave("full".to_string()), "Failed to save the file: full"),
    ];
    for (e, reason) in cases {
        let r = respond(e);
        assert_eq!(r.status, 500);
        assert_eq!(internal(&r.body), (reason.to_string(), true, None));
    }
}

#[test]
fn request_failed_keeps_a_valid_node_status() {
    let r = respond(CdnError::RequestFailed("no such file".to_string(), 503));
    assert_eq!(r.status, 503);
    assert_eq!(internal(&r.body), ("Request failed: no such file".to_string(), true, None));
    let r = respond(CdnError::RequestFailed(String::new(), 42));
    assert_eq!(r.status, 500);
    let r = respond(CdnError::RequestFailed(String::new(), 1000));
    assert_eq!(r.status, 500);
    let r = respond(CdnError::RequestFailed(String::new(), 999));
    assert_eq!(r.status, 999);
    let r = respond(CdnError::RequestFailed(String::new(), 100));
    assert_eq!(r.status, 100);
}

#[test]
fn http_error_keeps_its_body_with_status_400() {
    let body = ErrorJson::new_500("db down".to_string(), false, Some("https://x".to_string()));
    let r = respond(CdnError::from_error_json(body));
    assert_eq!(r.status, 400);
    assert_eq!(internal(&r.body), ("db down".to_string(), false, Some("https://x".to_string())));
}

#[test]
fn token_failures_become_internal_errors() {
    let e = CdnError::from_verify_token_failure(VerifyTokenFailure::MissingDatabase);
    let r = respond(e);
    assert_eq!(r.status, 400);
    assert_eq!(internal(&r.body), ("database pool not found".to_string(), false, None));
    let e = CdnError::from_verify_token_failure(VerifyTokenFailure::VerifierError("boom".to_string()));
    assert_eq!(
        internal(&respond(e).body),
        ("argon2 verifier returned an error: boom".to_string(), false, None)
    );
    let e = CdnError::from_verify_token_failure(VerifyTokenFailure::DbError("closed".to_string()));
    assert_eq!(
        internal(&respond(e).body),
        ("database returned an error: closed".to_string(), false, None)
    );
}

#[test]
fn hashing_failures_become_internal_errors() {
    let expect = vec![
        (
            Argon2Failure::Join("cancelled".to_string()),
            "hashing error: an error was encountered while waiting for a background thread to complete.",
        ),
        (
            Argon2Failure::Argon("bad params".to_string()),
            "hashing error: underlying argon2 algorithm threw an error: bad params",
        ),
        (
            Argon2Failure::PasswordHash("bad hash".to_string()),
            "hashing error: password string handling library threw an error: bad hash",
        ),
        (Argon2Failure::MissingConfig, "hashing error: global configuration unset"),
        (Argon2Failure::Other, "hashing error: unknown error"),
    ];
    for (e, reason) in expect {
        let r = respond(CdnError::from_argon2_failure(e));
        assert_eq!(internal(&r.body), (reason.to_string(), false, None));
    }
}

#[test]
fn malformed_tokens_are_bad_requests() {
    let r = respond(CdnError::from_split_token_error(SplitTokenError::MissingParts(2)));
    assert_eq!(r.status, 400);
    assert_eq!(message(&r.body), (400, "part 2 of token missing".to_string()));
    let r = respond(CdnError::from_split_token_error(SplitTokenError::MissingParts(255)));
    assert_eq!(message(&r.body), (400, "part 255 of token missing".to_string()));
    let r = respond(CdnError::from_split_token_error(SplitTokenError::InvalidUtf8("byte 3".to_string())));
    assert_eq!(message(&r.body), (400, "invalid utf8 found in token: byte 3".to_string()));
    let r = respond(CdnError::from_split_token_error(SplitTokenError::Base64DecodeError("x".to_string())));
    assert_eq!(message(&r.body), (400, "invalid base64 data found in token: x".to_string()));
    let r = respond(CdnError::from_split_token_error(SplitTokenError::InvalidInteger("y".to_string())));
    assert_eq!(message(&r.body), (400, "invalid integer found in token: y".to_string()));
}

#[test]
fn status_code_validity() {
    assert!(!cdn::errors::status_code_is_valid(99));
    assert!(cdn::errors::status_code_is_valid(100));
    assert!(cdn::errors::status_code_is_valid(999));
    assert!(!cdn::errors::status_code_is_valid(1000));
}

#[test]
fn encoded_error_responses() {
    let r = cdn::errors::encoded_error_response(404, Ok(b"{\"message\":\"File not found\"}".to_vec()));
    assert_eq!(r.status, 404);
    assert_eq!(r.content_type, "application/json");
    assert_eq!(r.body, b"{\"message\":\"File not found\"}".to_vec());
    let r = cdn::errors::encoded_error_response(413, Err("cannot encode".to_string()));
    assert_eq!(r.status, 500);
    assert_eq!(r.content_type, "text/plain");
    assert_eq!(r.body, b"cannot encode".to_vec());
}
