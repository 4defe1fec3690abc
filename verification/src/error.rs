//! What can go wrong, and how each failure reads on a terminal.

use vstd::prelude::*;

verus! {

/// Why the storage underneath could not do what was asked of it.
#[derive(Clone, Debug, PartialEq, Eq)]
pub struct IoFailure {
    /// The thing asked for is not there.
    pub not_found: bool,
    /// The storage's own description of the failure.
    pub detail: String,
}

/// A failed operation.
#[derive(Clone, Debug, PartialEq, Eq)]
pub enum BriefcaseError {
    /// The storage underneath failed.
    Io(IoFailure),
    /// The name is not well-formed.
    InvalidEntry(String),
    /// The store has no entry of that name.
    EntryNotFound(String),
    /// There is no store to destroy.
    StoreNotFound,
}

/// A failure as contracts speak of it.
pub enum Fault {
    Io { not_found: bool, detail: Seq<char> },
    InvalidEntry(Seq<char>),
    EntryNotFound(Seq<char>),
    StoreNotFound,
}

impl View for BriefcaseError {
    type V = Fault;

    open spec fn view(&self) -> Fault {
        match self {
            BriefcaseError::Io(failure) => Fault::Io {
                not_found: failure.not_found,
                detail: failure.detail@,
            },
            BriefcaseError::InvalidEntry(name) => Fault::InvalidEntry(name@),
            BriefcaseError::EntryNotFound(name) => Fault::EntryNotFound(name@),
            BriefcaseError::StoreNotFound => Fault::StoreNotFound,
        }
    }
}

/// The one-line message of a failure.
pub open spec fn message_of(fault: Fault) -> Seq<char> {
    match fault {
        Fault::Io { not_found, detail } => "IO error: "@ + detail,
        Fault::InvalidEntry(name) => "Invalid entry name: "@ + name,
        Fault::EntryNotFound(name) => "Entry not found: "@ + name,
        Fault::StoreNotFound => "Store not found"@,
    }
}

impl From<IoFailure> for BriefcaseError {
    fn from(error: IoFailure) -> (wrapped: BriefcaseError) {
        BriefcaseError::Io(error)
    }
}

impl vstd::std_specs::convert::FromSpecImpl<IoFailure> for BriefcaseError {
    open spec fn obeys_from_spec() -> bool {
        true
    }

    open spec fn from_spec(error: IoFailure) -> BriefcaseError {
        BriefcaseError::Io(error)
    }
}

impl BriefcaseError {
    /// The message to show for this failure.
    pub fn message(&self) -> (text: String)
        ensures
            text@ == message_of(self@),
    {
        match self {
            BriefcaseError::Io(failure) => "IO error: ".to_owned().concat(failure.detail.as_str()),
            BriefcaseError::InvalidEntry(name) => "Invalid entry name: ".to_owned().concat(
                name.as_str(),
            ),
            BriefcaseError::EntryNotFound(name) => "Entry not found: ".to_owned().concat(
                name.as_str(),
            ),
            BriefcaseError::StoreNotFound => "Store not found".to_owned(),
        }
    }
}

} // verus!
