//! How the user-facing server reaches storage nodes: picking a node, the URLs
//! of a node's endpoints, and judging a node's answer.
use vstd::prelude::*;
use rand::seq::IndexedRandom;
use crate::errors::{CdnError, CdnErrorView};

verus! {

/// Picks one of `nodes` at random (`rand::seq::IndexedRandom::choose` with
/// `rand::rng()`), as an owned copy.
///
/// Trusted: the result is `None` exactly when `nodes` is empty, and otherwise
/// one of its items. Which one is left open: it is random.
#[verifier::external_body]
fn random_item(nodes: &Vec<String>) -> (res: Option<String>)
    ensures
        res is None <==> nodes@.len() == 0,
        res matches Some(n) ==> exists|i: int| 0 <= i < nodes@.len() && nodes@[i]@ == n@,
{
    nodes.choose(&mut rand::rng()).cloned()
}

/// Picks the storage node that receives an upload, at random among the
/// registered ones; with none registered the upload fails with
/// `FailedToGetNode`.
pub fn choose_node(nodes: &Vec<String>) -> (res: Result<String, CdnError>)
    ensures
        res is Err <==> nodes@.len() == 0,
        res matches Ok(n) ==> exists|i: int| 0 <= i < nodes@.len() && nodes@[i]@ == n@,
        res matches Err(e) ==> e@ is FailedToGetNode,
{
    match random_item(nodes) {
        Some(n) => Ok(n),
        None => Err(CdnError::FailedToGetNode),
    }
}

/// A node lookup that found nothing is `FailedToGetNode`.
pub fn found_node<T>(lookup: Option<T>) -> (res: Result<T, CdnError>)
    ensures
        match lookup {
            Some(v) => res == Ok::<T, CdnError>(v),
            None => res matches Err(e) && e@ is FailedToGetNode,
        },
{
    match lookup {
        Some(v) => Ok(v),
        None => Err(CdnError::FailedToGetNode),
    }
}

/// The URL from which a node's file is fetched.
pub open spec fn node_download_url(ip: Seq<char>, file: Seq<char>) -> Seq<char> {
    "http://"@ + ip + ":8085/download/"@ + file
}

/// The URL to which a file is uploaded on a node.
pub open spec fn node_upload_url(ip: Seq<char>) -> Seq<char> {
    "http://"@ + ip + ":8085/upload"@
}

/// The URL at which a node's file is deleted.
pub open spec fn node_delete_url(ip: Seq<char>, file: Seq<char>) -> Seq<char> {
    "http://"@ + ip + ":8085/uploads/"@ + file
}

/// `http://{ip}:8085/download/{file}`.
pub fn download_url(ip: &str, file: &str) -> (res: String)
    ensures
        res@ == node_download_url(ip@, file@),
{
    String::from_str("http://").concat(ip).concat(":8085/download/").concat(file)
}

/// `http://{ip}:8085/upload`.
pub fn upload_url(ip: &str) -> (res: String)
    ensures
        res@ == node_upload_url(ip@),
{
    String::from_str("http://").concat(ip).concat(":8085/upload")
}

/// `http://{ip}:8085/uploads/{file}`.
pub fn delete_url(ip: &str, file: &str) -> (res: String)
    ensures
        res@ == node_delete_url(ip@, file@),
{
    String::from_str("http://").concat(ip).concat(":8085/uploads/").concat(file)
}

/// Whether a node's answer succeeded: its status is in 200..=299.
pub fn is_success_status(status: u16) -> (res: bool)
    ensures
        res == (200 <= status < 300),
{
    200 <= status && status < 300
}

/// Judges a node's answer: a status outside 200..=299 is `RequestFailed`
/// with the answer's text (empty where it could not be read) and status.
pub fn check_node_answer(status: u16, text: Option<String>) -> (res: Result<(), CdnError>)
    ensures
        res is Ok <==> 200 <= status < 300,
        res matches Err(e) ==> e@ == CdnErrorView::RequestFailed(
            match text {
                Some(t) => t@,
                None => Seq::empty(),
            },
            status,
        ),
{
    if is_success_status(status) {
        Ok(())
    } else {
        let message = match text {
            Some(t) => t,
            None => String::new(),
        };
        Err(CdnError::RequestFailed(message, status))
    }
}

} // verus!
