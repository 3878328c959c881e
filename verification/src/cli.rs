//! The command line: the mode the CDN runs in and a storage node's identifier.
use vstd::prelude::*;
use crate::text::{parse_u64, parsed_u64, str_equal};

verus! {

/// The two roles a CDN process can take.
#[derive(Debug, Clone, Copy, PartialEq, Eq, Structural)]
pub enum Mode {
    /// A storage node, keeping files.
    Storage,
    /// The user-facing server.
    Server,
}

/// Reads the `--mode` argument: `storage` or `server`.
pub fn validate_mode(arg: &str) -> (res: Result<Mode, String>)
    ensures
        arg@ == "storage"@ ==> res == Ok::<Mode, String>(Mode::Storage),
        arg@ == "server"@ ==> res == Ok::<Mode, String>(Mode::Server),
        arg@ != "storage"@ && arg@ != "server"@ ==> (res matches Err(m)
            && m@ == "Invalid mode, must be either storage or server"@),
{
    proof {
        reveal_strlit("storage");
        reveal_strlit("server");
        assert("storage"@[1] != "server"@[1]);
    }
    if str_equal(arg, "storage") {
        Ok(Mode::Storage)
    } else if str_equal(arg, "server") {
        Ok(Mode::Server)
    } else {
        Err(String::from_str("Invalid mode, must be either storage or server"))
    }
}

/// Reads the `--node-id` argument: a decimal `u64`.
pub fn validate_node_id(arg: &str) -> (res: Result<u64, String>)
    ensures
        match parsed_u64(arg@) {
            Some(n) => res == Ok::<u64, String>(n),
            None => res matches Err(m) && m@ == "Invalid node id, must be a valid number"@,
        },
{
    match parse_u64(arg) {
        Some(n) => Ok(n),
        None => Err(String::from_str("Invalid node id, must be a valid number")),
    }
}

} // verus!
