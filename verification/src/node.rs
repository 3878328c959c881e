//! The identity of a storage node and the upload limit it applies.
use vstd::prelude::*;

verus! {

/// The identifier of this storage node, set once at start-up.
#[derive(Debug)]
pub struct NodeIdentity {
    node_id: Option<u64>,
}

impl View for NodeIdentity {
    type V = Option<u64>;

    closed spec fn view(&self) -> Option<u64> {
        self.node_id
    }
}

impl NodeIdentity {
    /// A node whose identifier is not set yet.
    pub fn new() -> (res: NodeIdentity)
        ensures
            res@ is None,
    {
        NodeIdentity { node_id: None }
    }

    /// Sets the identifier. It can be set only once: a second attempt is
    /// refused with the rejected identifier and changes nothing.
    pub fn set_node_id(&mut self, node_id: u64) -> (res: Result<(), u64>)
        ensures
            old(self)@ is None ==> res is Ok && final(self)@ == Some(node_id),
            old(self)@ is Some ==> res == Err::<(), u64>(node_id) && final(self)@ == old(self)@,
    {
        if self.node_id.is_some() {
            Err(node_id)
        } else {
            self.node_id = Some(node_id);
            Ok(())
        }
    }

    /// Whether the identifier is set.
    pub fn is_set(&self) -> (res: bool)
        ensures
            res == self@ is Some,
    {
        self.node_id.is_some()
    }
}

/// The identifier of this storage node; it must have been set.
pub fn get_node_id(identity: &NodeIdentity) -> (res: u64)
    requires
        identity@ is Some,
    ensures
        identity@ == Some(res),
{
    match identity.node_id {
        Some(id) => id,
        None => 0,
    }
}

/// The upload limit used where none is stored: 10 MiB.
pub open spec fn default_max_content_length() -> u64 {
    10485760
}

/// The upload limit: the stored `max_content_length` where one could be
/// read, else 10 MiB.
pub fn max_content_length_or_default(stored: Option<u64>) -> (res: u64)
    ensures
        res == match stored {
            Some(n) => n,
            None => default_max_content_length(),
        },
{
    match stored {
        Some(n) => n,
        None => 1024 * 1024 * 10,
    }
}

} // verus!
