//! Requests for the message topics of an entity, and their results.

use vstd::prelude::*;

use crate::execution_kind::EntityAddr;
use crate::hash32::Digest;

verus! {

/// A request for the message topics of an entity at a state root.
#[derive(Copy, Clone, Debug, PartialEq, Eq)]
pub struct MessageTopicsRequest {
    state_hash: Digest,
    entity_addr: EntityAddr,
}

impl MessageTopicsRequest {
    /// The state root.
    pub closed spec fn spec_state_hash(self) -> Digest {
        self.state_hash
    }

    /// The entity.
    pub closed spec fn spec_entity_addr(self) -> EntityAddr {
        self.entity_addr
    }

    /// A request for the entity's topics at the state root.
    pub fn new(state_hash: Digest, entity_addr: EntityAddr) -> (r: Self)
        ensures
            r.spec_state_hash() == state_hash,
            r.spec_entity_addr() == entity_addr,
    {
        MessageTopicsRequest { state_hash, entity_addr }
    }

    /// The state root.
    pub fn state_hash(&self) -> (r: Digest)
        ensures
            r == self.spec_state_hash(),
    {
        self.state_hash
    }

    /// The entity.
    pub fn entity_addr(&self) -> (r: EntityAddr)
        ensures
            r == self.spec_entity_addr(),
    {
        self.entity_addr
    }
}

/// The result of a request for message topics.
#[derive(Clone, Debug, PartialEq, Eq)]
pub enum MessageTopicsResult {
    /// The state root is unknown.
    RootNotFound,
    /// The entity's topics: each topic's name and the hash of its name.
    Success { message_topics: Vec<(String, Digest)> },
    /// Reading global state failed, with the error's message.
    Failure(String),
}

/// Why a contract's request to the host is refused before the host is
/// asked.
#[derive(Copy, Clone, Debug, PartialEq, Eq, Structural)]
pub enum ApiError {
    /// An argument of the request is invalid.
    InvalidArgument,
}

/// Checks a request to manage a message topic before the host is asked: a
/// topic must have a name. `Ok` means the host is then asked to manage the
/// topic by that name, and its answer is the request's result.
pub fn manage_message_topic(topic_name: &str) -> (r: Result<(), ApiError>)
    ensures
        r == if topic_name@.len() == 0 {
            Err(ApiError::InvalidArgument)
        } else {
            Ok::<(), ApiError>(())
        },
{
    if topic_name.unicode_len() == 0 {
        Err(ApiError::InvalidArgument)
    } else {
        Ok(())
    }
}

} // verus!
