//! The error types of the CDN and how each becomes an HTTP error response.
//!
//! Errors that originate in an outside library (a multipart stream, a Redis
//! pool, an I/O call, an HTTP client, a database, a password hasher) carry the
//! text of that error, which is all that the responses read of it.
use vstd::prelude::*;
use vstd::utf8::encode_utf8;
use crate::text::{decimal, decimal_string};

verus! {

/// The JSON body of an error response.
#[derive(Debug, Clone)]
pub enum ErrorJson {
    /// Returned with an HTTP 500.
    InternalServerError { reason: String, is_bug: bool, link: Option<String> },
    /// Returned with an HTTP 429.
    TooManyRequests { count: u32, duration: u32, retry_after: i32 },
    /// Any other error, with its HTTP code (which is not serialized).
    Message { code: u16, message: String },
}

/// The mathematical value of an [`ErrorJson`].
pub enum ErrorJsonView {
    InternalServerError { reason: Seq<char>, is_bug: bool, link: Option<Seq<char>> },
    TooManyRequests { count: u32, duration: u32, retry_after: i32 },
    Message { code: u16, message: Seq<char> },
}

impl View for ErrorJson {
    type V = ErrorJsonView;

    open spec fn view(&self) -> ErrorJsonView {
        match self {
            ErrorJson::InternalServerError { reason, is_bug, link } => ErrorJsonView::InternalServerError {
                reason: reason@,
                is_bug: *is_bug,
                link: link.deep_view(),
            },
            ErrorJson::TooManyRequests { count, duration, retry_after } => ErrorJsonView::TooManyRequests {
                count: *count,
                duration: *duration,
                retry_after: *retry_after,
            },
            ErrorJson::Message { code, message } => ErrorJsonView::Message {
                code: *code,
                message: message@,
            },
        }
    }
}

/// The body of an internal server error.
pub open spec fn internal_error(reason: Seq<char>, is_bug: bool) -> ErrorJsonView {
    ErrorJsonView::InternalServerError { reason, is_bug, link: None }
}

/// A message body with the given code.
pub open spec fn message_error(code: u16, message: Seq<char>) -> ErrorJsonView {
    ErrorJsonView::Message { code, message }
}

impl ErrorJson {
    /// An Internal Server Error body.
    pub fn new_500(reason: String, is_bug: bool, link: Option<String>) -> (res: ErrorJson)
        ensures
            res@ == (ErrorJsonView::InternalServerError {
                reason: reason@,
                is_bug,
                link: link.deep_view(),
            }),
    {
        ErrorJson::InternalServerError { reason, is_bug, link }
    }

    /// A Bad Request body (code 400).
    pub fn new_400(message: String) -> (res: ErrorJson)
        ensures
            res@ == message_error(400, message@),
    {
        ErrorJson::Message { code: 400, message }
    }

    /// A Not Found body. Its code is 400, as in the JSON types this body
    /// follows; the response that carries it has status 404.
    pub fn new_404(message: String) -> (res: ErrorJson)
        ensures
            res@ == message_error(400, message@),
    {
        ErrorJson::Message { code: 400, message }
    }
}

/// Why a user's token could not be verified.
#[derive(Debug)]
pub enum VerifyTokenFailure {
    /// The database pool is not initialized.
    MissingDatabase,
    /// The token does not match, or the user has none.
    InvalidToken,
    /// The database returned an error (its text).
    DbError(String),
    /// The password verifier returned an error (its text).
    VerifierError(String),
}

/// Errors of the password hasher, with the text of the underlying error where
/// there is one.
#[derive(Debug)]
pub enum Argon2Failure {
    /// Waiting for the background thread failed.
    Join(String),
    /// The argon2 algorithm failed.
    Argon(String),
    /// The password-hash string could not be handled.
    PasswordHash(String),
    /// The global hasher configuration is not set.
    MissingConfig,
    /// Any other failure.
    Other,
}

/// Errors returned when splitting a token into its parts.
#[derive(Debug)]
pub enum SplitTokenError {
    /// Invalid UTF-8 was found (the decoder's message).
    InvalidUtf8(String),
    /// Invalid base64 data was found (the decoder's message).
    Base64DecodeError(String),
    /// An invalid integer was found (the parser's message).
    InvalidInteger(String),
    /// A part of the token is missing: its zero-based index.
    MissingParts(u8),
}

/// Every way a CDN request can fail. Variants that wrap an outside error hold
/// its debug text.
#[derive(Debug)]
pub enum CdnError {
    Http(ErrorJson),
    Default,
    FileSizeExceeded,
    NoFileName,
    MultipartError(String),
    FailedToOpenRedisConnection(String),
    FailedToGetNode,
    NotFound,
    FailedToDeCompress(String),
    FailedToOpen(String),
    RequestFailed(String, u16),
    ReqwestFailed(String),
    NoFileExtension,
    FailedToCompress(String),
    FailedToSpawnBlock(String),
    FailedToSave(String),
    NoFile,
}

/// The mathematical value of a [`CdnError`].
pub enum CdnErrorView {
    Http(ErrorJsonView),
    Default,
    FileSizeExceeded,
    NoFileName,
    MultipartError(Seq<char>),
    FailedToOpenRedisConnection(Seq<char>),
    FailedToGetNode,
    NotFound,
    FailedToDeCompress(Seq<char>),
    FailedToOpen(Seq<char>),
    RequestFailed(Seq<char>, u16),
    ReqwestFailed(Seq<char>),
    NoFileExtension,
    FailedToCompress(Seq<char>),
    FailedToSpawnBlock(Seq<char>),
    FailedToSave(Seq<char>),
    NoFile,
}

impl View for CdnError {
    type V = CdnErrorView;

    open spec fn view(&self) -> CdnErrorView {
        match self {
            CdnError::Http(e) => CdnErrorView::Http(e@),
            CdnError::Default => CdnErrorView::Default,
            CdnError::FileSizeExceeded => CdnErrorView::FileSizeExceeded,
            CdnError::NoFileName => CdnErrorView::NoFileName,
            CdnError::MultipartError(e) => CdnErrorView::MultipartError(e@),
            CdnError::FailedToOpenRedisConnection(e) => CdnErrorView::FailedToOpenRedisConnection(e@),
            CdnError::FailedToGetNode => CdnErrorView::FailedToGetNode,
            CdnError::NotFound => CdnErrorView::NotFound,
            CdnError::FailedToDeCompress(e) => CdnErrorView::FailedToDeCompress(e@),
            CdnError::FailedToOpen(e) => CdnErrorView::FailedToOpen(e@),
            CdnError::RequestFailed(e, code) => CdnErrorView::RequestFailed(e@, *code),
            CdnError::ReqwestFailed(e) => CdnErrorView::ReqwestFailed(e@),
            CdnError::NoFileExtension => CdnErrorView::NoFileExtension,
            CdnError::FailedToCompress(e) => CdnErrorView::FailedToCompress(e@),
            CdnError::FailedToSpawnBlock(e) => CdnErrorView::FailedToSpawnBlock(e@),
            CdnError::FailedToSave(e) => CdnErrorView::FailedToSave(e@),
            CdnError::NoFile => CdnErrorView::NoFile,
        }
    }
}

/// The HTTP status code of the response to `e`.
pub open spec fn error_status(e: CdnErrorView) -> u16 {
    match e {
        CdnErrorView::Http(_) => 400,
        CdnErrorView::Default => 500,
        CdnErrorView::FileSizeExceeded => 413,
        CdnErrorView::NoFileName => 400,
        CdnErrorView::MultipartError(_) => 400,
        CdnErrorView::FailedToOpenRedisConnection(_) => 500,
        CdnErrorView::FailedToGetNode => 500,
        CdnErrorView::NotFound => 404,
        CdnErrorView::FailedToDeCompress(_) => 500,
        CdnErrorView::FailedToOpen(_) => 500,
        CdnErrorView::RequestFailed(_, code) => if is_status_code(code) { code } else { 500 },
        CdnErrorView::ReqwestFailed(_) => 500,
        CdnErrorView::NoFileExtension => 400,
        CdnErrorView::FailedToCompress(_) => 500,
        CdnErrorView::FailedToSpawnBlock(_) => 500,
        CdnErrorView::FailedToSave(_) => 500,
        CdnErrorView::NoFile => 400,
    }
}

/// The JSON body of the response to `e`.
pub open spec fn error_body(e: CdnErrorView) -> ErrorJsonView {
    match e {
        CdnErrorView::Http(body) => body,
        CdnErrorView::Default => internal_error(
            "Something went wrong while trying to save the file."@,
            true,
        ),
        CdnErrorView::FileSizeExceeded => message_error(
            400,
            "File size exceeded. Please try again with a smaller file."@,
        ),
        CdnErrorView::NoFileName => message_error(400, "No file name provided"@),
        CdnErrorView::MultipartError(d) => message_error(400, "Failed to parse multipart: "@ + d),
        CdnErrorView::FailedToOpenRedisConnection(d) => internal_error(
            "Failed to open redis connection: "@ + d,
            true,
        ),
        CdnErrorView::FailedToGetNode => internal_error("Failed to get node from redis."@, true),
        CdnErrorView::NotFound => message_error(400, "File not found"@),
        CdnErrorView::FailedToDeCompress(d) => internal_error("Failed to decompress: "@ + d, true),
        CdnErrorView::FailedToOpen(d) => internal_error("Failed to open file: "@ + d, true),
        CdnErrorView::RequestFailed(d, _) => internal_error("Request failed: "@ + d, true),
        CdnErrorView::ReqwestFailed(d) => internal_error("Reqwest failed: "@ + d, true),
        CdnErrorView::NoFileExtension => message_error(400, "No file extension provided"@),
        CdnErrorView::FailedToCompress(d) => internal_error(
            "Failed to compress the file: "@ + d,
            true,
        ),
        CdnErrorView::FailedToSpawnBlock(d) => internal_error(
            "Task failed to execute to completion: "@ + d,
            true,
        ),
        CdnErrorView::FailedToSave(d) => internal_error("Failed to save the file: "@ + d, true),
        CdnErrorView::NoFile => message_error(400, "No file provided"@),
    }
}

/// Whether `code` is accepted as an HTTP status code (three digits).
pub open spec fn is_status_code(code: u16) -> bool {
    100 <= code <= 999
}

/// Whether `code` can be an HTTP status code: it has three digits.
pub fn status_code_is_valid(code: u16) -> (res: bool)
    ensures
        res == is_status_code(code),
{
    100 <= code && code <= 999
}

/// An HTTP error response: its status code and JSON body.
#[derive(Debug)]
pub struct ErrorResponse {
    pub status: u16,
    pub body: ErrorJson,
}

/// An error response as sent: status, Content-Type and body bytes.
#[derive(Debug)]
pub struct EncodedErrorResponse {
    pub status: u16,
    pub content_type: String,
    pub body: Vec<u8>,
}

/// Frames an error response once its body has been encoded as JSON: the
/// encoded body is sent with the response's status as `application/json`;
/// where encoding failed, the encoder's error text is sent as `text/plain`
/// with status 500.
pub fn encoded_error_response(status: u16, encoded: Result<Vec<u8>, String>) -> (res: EncodedErrorResponse)
    ensures
        match encoded {
            Ok(b) => {
                &&& res.status == status
                &&& res.content_type@ == "application/json"@
                &&& res.body@ == b@
            },
            Err(t) => {
                &&& res.status == 500
                &&& res.content_type@ == "text/plain"@
                &&& res.body@ == encode_utf8(t@)
            },
        },
{
    match encoded {
        Ok(body) => EncodedErrorResponse {
            status,
            content_type: String::from_str("application/json"),
            body,
        },
        Err(text) => EncodedErrorResponse {
            status: 500,
            content_type: String::from_str("text/plain"),
            body: text.as_str().as_bytes_vec(),
        },
    }
}

fn prefixed(prefix: &str, detail: &str) -> (res: String)
    ensures
        res@ == prefix@ + detail@,
{
    String::from_str(prefix).concat(detail)
}

fn literal(s: &str) -> (res: String)
    ensures
        res@ == s@,
{
    String::from_str(s)
}

impl CdnError {
    /// An error that carries the given JSON body.
    pub fn from_error_json(err: ErrorJson) -> (res: CdnError)
        ensures
            res@ == CdnErrorView::Http(err@),
    {
        CdnError::Http(err)
    }

    /// The response to this error: its status code and JSON body.
    pub fn into_response(self) -> (res: ErrorResponse)
        ensures
            res.status == error_status(self@),
            res.body@ == error_body(self@),
    {
        match self {
            CdnError::Http(err) => ErrorResponse { status: 400, body: err },
            CdnError::Default => ErrorResponse {
                status: 500,
                body: ErrorJson::new_500(
                    literal("Something went wrong while trying to save the file."),
                    true,
                    None,
                ),
            },
            CdnError::FileSizeExceeded => ErrorResponse {
                status: 413,
                body: ErrorJson::new_400(
                    literal("File size exceeded. Please try again with a smaller file."),
                ),
            },
            CdnError::NoFileName => ErrorResponse {
                status: 400,
                body: ErrorJson::new_400(literal("No file name provided")),
            },
            CdnError::MultipartError(e) => ErrorResponse {
                status: 400,
                body: ErrorJson::new_400(prefixed("Failed to parse multipart: ", e.as_str())),
            },
            CdnError::FailedToOpenRedisConnection(e) => ErrorResponse {
                status: 500,
                body: ErrorJson::new_500(
                    prefixed("Failed to open redis connection: ", e.as_str()),
                    true,
                    None,
                ),
            },
            CdnError::FailedToGetNode => ErrorResponse {
                status: 500,
                body: ErrorJson::new_500(literal("Failed to get node from redis."), true, None),
            },
            CdnError::NotFound => ErrorResponse {
                status: 404,
                body: ErrorJson::new_404(literal("File not found")),
            },
            CdnError::FailedToDeCompress(e) => ErrorResponse {
                status: 500,
                body: ErrorJson::new_500(prefixed("Failed to decompress: ", e.as_str()), true, None),
            },
            CdnError::FailedToOpen(e) => ErrorResponse {
                status: 500,
                body: ErrorJson::new_500(prefixed("Failed to open file: ", e.as_str()), true, None),
            },
            CdnError::RequestFailed(e, code) => ErrorResponse {
                status: if status_code_is_valid(code) { code } else { 500 },
                body: ErrorJson::new_500(prefixed("Request failed: ", e.as_str()), true, None),
            },
            CdnError::ReqwestFailed(e) => ErrorResponse {
                status: 500,
                body: ErrorJson::new_500(prefixed("Reqwest failed: ", e.as_str()), true, None),
            },
            CdnError::NoFileExtension => ErrorResponse {
                status: 400,
                body: ErrorJson::new_400(literal("No file extension provided")),
            },
            CdnError::FailedToCompress(e) => ErrorResponse {
                status: 500,
                body: ErrorJson::new_500(
                    prefixed("Failed to compress the file: ", e.as_str()),
                    true,
                    None,
                ),
            },
            CdnError::FailedToSpawnBlock(e) => ErrorResponse {
                status: 500,
                body: ErrorJson::new_500(
                    prefixed("Task failed to execute to completion: ", e.as_str()),
                    true,
                    None,
                ),
            },
            CdnError::FailedToSave(e) => ErrorResponse {
                status: 500,
                body: ErrorJson::new_500(prefixed("Failed to save the file: ", e.as_str()), true, None),
            },
            CdnError::NoFile => ErrorResponse {
                status: 400,
                body: ErrorJson::new_400(literal("No file provided")),
            },
        }
    }
}


/// The mathematical value of a [`VerifyTokenFailure`].
pub enum VerifyTokenFailureView {
    MissingDatabase,
    InvalidToken,
    DbError(Seq<char>),
    VerifierError(Seq<char>),
}

impl View for VerifyTokenFailure {
    type V = VerifyTokenFailureView;

    open spec fn view(&self) -> VerifyTokenFailureView {
        match self {
            VerifyTokenFailure::MissingDatabase => VerifyTokenFailureView::MissingDatabase,
            VerifyTokenFailure::InvalidToken => VerifyTokenFailureView::InvalidToken,
            VerifyTokenFailure::DbError(e) => VerifyTokenFailureView::DbError(e@),
            VerifyTokenFailure::VerifierError(e) => VerifyTokenFailureView::VerifierError(e@),
        }
    }
}

/// The mathematical value of an [`Argon2Failure`].
pub enum Argon2FailureView {
    Join(Seq<char>),
    Argon(Seq<char>),
    PasswordHash(Seq<char>),
    MissingConfig,
    Other,
}

impl View for Argon2Failure {
    type V = Argon2FailureView;

    open spec fn view(&self) -> Argon2FailureView {
        match self {
            Argon2Failure::Join(e) => Argon2FailureView::Join(e@),
            Argon2Failure::Argon(e) => Argon2FailureView::Argon(e@),
            Argon2Failure::PasswordHash(e) => Argon2FailureView::PasswordHash(e@),
            Argon2Failure::MissingConfig => Argon2FailureView::MissingConfig,
            Argon2Failure::Other => Argon2FailureView::Other,
        }
    }
}

/// The mathematical value of a [`SplitTokenError`].
pub enum SplitTokenErrorView {
    InvalidUtf8(Seq<char>),
    Base64DecodeError(Seq<char>),
    InvalidInteger(Seq<char>),
    MissingParts(u8),
}

impl View for SplitTokenError {
    type V = SplitTokenErrorView;

    open spec fn view(&self) -> SplitTokenErrorView {
        match self {
            SplitTokenError::InvalidUtf8(e) => SplitTokenErrorView::InvalidUtf8(e@),
            SplitTokenError::Base64DecodeError(e) => SplitTokenErrorView::Base64DecodeError(e@),
            SplitTokenError::InvalidInteger(e) => SplitTokenErrorView::InvalidInteger(e@),
            SplitTokenError::MissingParts(i) => SplitTokenErrorView::MissingParts(*i),
        }
    }
}

/// The reason given for a token-verification failure other than an invalid
/// token.
pub open spec fn verify_failure_reason(e: VerifyTokenFailureView) -> Seq<char> {
    match e {
        VerifyTokenFailureView::MissingDatabase => "database pool not found"@,
        VerifyTokenFailureView::DbError(d) => "database returned an error: "@ + d,
        VerifyTokenFailureView::VerifierError(d) => "argon2 verifier returned an error: "@ + d,
        VerifyTokenFailureView::InvalidToken => Seq::empty(),
    }
}

/// What a hashing failure is reported as, after the words "hashing error: ".
pub open spec fn argon2_failure_text(e: Argon2FailureView) -> Seq<char> {
    match e {
        Argon2FailureView::Join(_) => "an error was encountered while waiting for a background thread to complete."@,
        Argon2FailureView::Argon(d) => "underlying argon2 algorithm threw an error: "@ + d,
        Argon2FailureView::PasswordHash(d) => "password string handling library threw an error: "@ + d,
        Argon2FailureView::MissingConfig => "global configuration unset"@,
        Argon2FailureView::Other => "unknown error"@,
    }
}

/// The message of the Bad Request body reporting a malformed token.
pub open spec fn split_token_message(e: SplitTokenErrorView) -> Seq<char> {
    match e {
        SplitTokenErrorView::InvalidUtf8(d) => "invalid utf8 found in token: "@ + d,
        SplitTokenErrorView::Base64DecodeError(d) => "invalid base64 data found in token: "@ + d,
        SplitTokenErrorView::InvalidInteger(d) => "invalid integer found in token: "@ + d,
        SplitTokenErrorView::MissingParts(i) => "part "@ + decimal(i as nat) + " of token missing"@,
    }
}

impl CdnError {
    /// The error for a failed token verification. An invalid token is
    /// answered before any conversion, so it is not accepted here. The reason
    /// given for a database failure ("database returned an error: " and the
    /// database's text) is this library's own wording: nothing else fixes how
    /// a database error is reported.
    pub fn from_verify_token_failure(e: VerifyTokenFailure) -> (res: CdnError)
        requires
            !(e is InvalidToken),
        ensures
            res@ == CdnErrorView::Http(internal_error(verify_failure_reason(e@), false)),
    {
        let reason = match e {
            VerifyTokenFailure::MissingDatabase => literal("database pool not found"),
            VerifyTokenFailure::DbError(d) => prefixed("database returned an error: ", d.as_str()),
            VerifyTokenFailure::VerifierError(d) => prefixed(
                "argon2 verifier returned an error: ",
                d.as_str(),
            ),
            VerifyTokenFailure::InvalidToken => literal(""),
        };
        CdnError::Http(ErrorJson::new_500(reason, false, None))
    }

    /// The error for a failure of the password hasher.
    pub fn from_argon2_failure(e: Argon2Failure) -> (res: CdnError)
        ensures
            res@ == CdnErrorView::Http(
                internal_error("hashing error: "@ + argon2_failure_text(e@), false),
            ),
    {
        let text = match e {
            Argon2Failure::Join(_) => literal(
                "an error was encountered while waiting for a background thread to complete.",
            ),
            Argon2Failure::Argon(d) => prefixed(
                "underlying argon2 algorithm threw an error: ",
                d.as_str(),
            ),
            Argon2Failure::PasswordHash(d) => prefixed(
                "password string handling library threw an error: ",
                d.as_str(),
            ),
            Argon2Failure::MissingConfig => literal("global configuration unset"),
            Argon2Failure::Other => literal("unknown error"),
        };
        let reason = prefixed("hashing error: ", text.as_str());
        CdnError::Http(ErrorJson::new_500(reason, false, None))
    }

    /// The error for a token that could not be split into its parts.
    pub fn from_split_token_error(e: SplitTokenError) -> (res: CdnError)
        ensures
            res@ == CdnErrorView::Http(message_error(400, split_token_message(e@))),
    {
        let message = match e {
            SplitTokenError::InvalidUtf8(d) => prefixed("invalid utf8 found in token: ", d.as_str()),
            SplitTokenError::Base64DecodeError(d) => prefixed(
                "invalid base64 data found in token: ",
                d.as_str(),
            ),
            SplitTokenError::InvalidInteger(d) => prefixed(
                "invalid integer found in token: ",
                d.as_str(),
            ),
            SplitTokenError::MissingParts(i) => {
                let idx = decimal_string(i as u64);
                let head = prefixed("part ", idx.as_str());
                head.concat(" of token missing")
            },
        };
        CdnError::Http(ErrorJson::new_400(message))
    }
}


/// Whether a body reports an internal server error flagged as a bug.
pub open spec fn reported_as_bug(body: ErrorJsonView) -> bool {
    match body {
        ErrorJsonView::InternalServerError { is_bug, .. } => is_bug,
        _ => false,
    }
}

/// Every error is answered with a valid (three-digit) HTTP status code.
pub proof fn lemma_error_status_is_valid(e: CdnErrorView)
    ensures
        is_status_code(error_status(e)),
{
}

/// Errors caused by the request itself are answered with a 4xx status and a
/// message body; failures of the CDN or of the services it relies on are
/// answered with status 500 and a body that reports them as bugs, except a
/// failed request to a storage node, which keeps the node's status where it
/// is valid.
pub proof fn lemma_error_status_classes(e: CdnErrorView)
    ensures
        (e is FileSizeExceeded || e is NoFileName || e is MultipartError || e is NotFound
            || e is NoFileExtension || e is NoFile || e is Http) ==> 400 <= error_status(e) < 500,
        (e is FileSizeExceeded || e is NoFileName || e is MultipartError || e is NotFound
            || e is NoFileExtension || e is NoFile) ==> error_body(e) is Message,
        (e is Default || e is FailedToOpenRedisConnection || e is FailedToGetNode
            || e is FailedToDeCompress || e is FailedToOpen || e is ReqwestFailed
            || e is FailedToCompress || e is FailedToSpawnBlock || e is FailedToSave)
            ==> error_status(e) == 500 && reported_as_bug(error_body(e)),
        e is RequestFailed ==> reported_as_bug(error_body(e)),
{
}


/// A failed request to a storage node is answered with the node's own status
/// whenever that status has three digits (4xx and 5xx alike, e.g. a node's
/// 404 stays 404), and with 500 otherwise.
pub proof fn lemma_request_failed_keeps_node_status(text: Seq<char>, code: u16)
    ensures
        100 <= code <= 999 ==> error_status(CdnErrorView::RequestFailed(text, code)) == code,
        !(100 <= code <= 999) ==> error_status(CdnErrorView::RequestFailed(text, code)) == 500,
{
}

} // verus!
