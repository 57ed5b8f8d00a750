use vstd::prelude::*;
use vstd::string::*;
use crate::entity::Entity;
use crate::time::Timestamp;

verus! {

/// Where a page of a repository starts and how long it is.
///
/// A page holds the items created before `before_timestamp`; among items
/// created at that very instant, `before_key` tells which come first, so
/// that no item is listed twice or skipped across pages.
pub struct Pagination<'a, E: Entity> {
    /// The key before which to get items.
    pub before_key: &'a E::Key,
    /// The creation time before which to get items.
    pub before_timestamp: &'a Timestamp,
    /// The number of items in a page.
    pub page_size: usize,
}

/// What can go wrong in a repository operation.
#[derive(Clone, Debug, PartialEq, Eq)]
pub enum RepoError {
    /// The storage failed to read or write.
    Io(String),
    /// An item that was referred to does not exist.
    NotFound(String),
    /// An item with the same data as the one being added or updated exists.
    DuplicateValue(String),
    /// Invalid data was provided.
    InvalidParameter(String),
    /// Any other failure, described by its message.
    Other(String),
}

/// The result of a repository operation.
pub type RepoResult<T> = Result<T, RepoError>;

impl RepoError {
    pub open spec fn spec_message(&self) -> Seq<char> {
        match self {
            RepoError::Io(s) => "i/o error: "@ + s@,
            RepoError::NotFound(s) => "not found: "@ + s@,
            RepoError::DuplicateValue(s) => "duplicate item: "@ + s@,
            RepoError::InvalidParameter(s) => "invalid parameter: "@ + s@,
            RepoError::Other(s) => s@,
        }
    }

    /// A human-readable description of the error.
    pub fn message(&self) -> (r: String)
        ensures
            r@ == self.spec_message(),
    {
        match self {
            RepoError::Io(s) => "i/o error: ".to_owned().concat(s.as_str()),
            RepoError::NotFound(s) => "not found: ".to_owned().concat(s.as_str()),
            RepoError::DuplicateValue(s) => "duplicate item: ".to_owned().concat(s.as_str()),
            RepoError::InvalidParameter(s) => "invalid parameter: ".to_owned().concat(s.as_str()),
            RepoError::Other(s) => s.clone(),
        }
    }
}

} // verus!
