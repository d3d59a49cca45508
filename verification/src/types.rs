//! The data the log is made of: payloads, actions, addresses, edges,
//! errors and validation verdicts.

use vstd::prelude::*;

verus! {

/// The versioned payload: a record with a single text field. It is immutable
/// once created and replaced wholesale on update.
#[derive(Debug, PartialEq, Eq)]
pub struct TextEntry {
    pub content: String,
}

impl Clone for TextEntry {
    fn clone(&self) -> (res: Self)
        ensures
            res == *self,
    {
        TextEntry { content: self.content.clone() }
    }
}

/// What one action records: a fresh payload, a replacement payload, or the
/// deletion of the action at a given address.
#[derive(Debug, PartialEq, Eq)]
pub enum ActionContent {
    Create { entry: TextEntry },
    Update { entry: TextEntry },
    Delete { deletes_address: usize },
}

impl Clone for ActionContent {
    fn clone(&self) -> (res: Self)
        ensures
            res == *self,
    {
        match self {
            ActionContent::Create { entry } => ActionContent::Create { entry: entry.clone() },
            ActionContent::Update { entry } => ActionContent::Update { entry: entry.clone() },
            ActionContent::Delete { deletes_address } => ActionContent::Delete {
                deletes_address: *deletes_address,
            },
        }
    }
}

/// An immutable, content-addressed record of one mutation event. Its address,
/// timestamp and content never change once the store has committed it.
#[derive(Debug, PartialEq, Eq)]
pub struct Action {
    /// The unique address the store assigned at commit time.
    pub address: usize,
    /// The commit-time clock reading, assigned by the store, not the client.
    pub timestamp: u64,
    pub content: ActionContent,
}

impl Clone for Action {
    fn clone(&self) -> (res: Self)
        ensures
            res == *self,
    {
        Action { address: self.address, timestamp: self.timestamp, content: self.content.clone() }
    }
}

impl Action {
    /// The payload this action carries: `Create` and `Update` actions carry
    /// one, `Delete` actions carry none.
    pub open spec fn spec_payload(&self) -> Option<TextEntry> {
        match self.content {
            ActionContent::Create { entry } => Some(entry),
            ActionContent::Update { entry } => Some(entry),
            ActionContent::Delete { .. } => None,
        }
    }

    pub fn payload(&self) -> (r: Option<&TextEntry>)
        ensures
            match r {
                Some(e) => self.spec_payload() == Some(*e),
                None => self.spec_payload() is None,
            },
    {
        match &self.content {
            ActionContent::Create { entry } => Some(entry),
            ActionContent::Update { entry } => Some(entry),
            ActionContent::Delete { .. } => None,
        }
    }
}

/// An address as it may appear at the end of an edge. Only action addresses
/// can be dereferenced into actions; any other shape makes the edge malformed
/// for revision resolution.
#[derive(Clone, Copy, Debug, PartialEq, Eq)]
pub enum LinkableAddress {
    ActionAddr(usize),
    EntryAddr(usize),
}

/// One "updates" edge as the link index hands it out: the target it points at
/// and the timestamp it was created with.
#[derive(Clone, Copy, Debug, PartialEq, Eq)]
pub struct Edge {
    pub target: LinkableAddress,
    pub timestamp: u64,
}

/// The failure taxonomy of every operation.
#[derive(Clone, Copy, Debug, PartialEq, Eq)]
pub enum ErrorKind {
    /// An address was absent, or a forward reference inside a result dangled.
    NotFound,
    /// A detail or edge shape was structurally inconsistent with what the
    /// operation expected.
    Malformed,
    /// A validation predicate rejected the mutation; the message carries the
    /// predicate's reason.
    ValidationRejected,
}

/// A failure, with a descriptive message suitable for direct display.
#[derive(Debug)]
pub struct Error {
    pub kind: ErrorKind,
    pub message: String,
}

impl Error {
    pub fn not_found(message: &str) -> (r: Error)
        ensures
            r.kind == ErrorKind::NotFound,
            r.message@ == message@,
    {
        Error { kind: ErrorKind::NotFound, message: message.to_owned() }
    }

    pub fn malformed(message: &str) -> (r: Error)
        ensures
            r.kind == ErrorKind::Malformed,
            r.message@ == message@,
    {
        Error { kind: ErrorKind::Malformed, message: message.to_owned() }
    }

    pub fn validation_rejected(reason: String) -> (r: Error)
        ensures
            r.kind == ErrorKind::ValidationRejected,
            r.message == reason,
    {
        Error { kind: ErrorKind::ValidationRejected, message: reason }
    }
}

/// What a validation predicate decides: accept, or reject with a
/// human-readable reason.
#[derive(Debug, PartialEq, Eq)]
pub enum ValidationOutcome {
    Valid,
    Invalid(String),
}

} // verus!
