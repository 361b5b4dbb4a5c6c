//! Document-to-document references.
//!
//! The document layer consumes identifiers as opaque keys; the reference type
//! here is the one piece of it that carries no outside baggage: a wrapper
//! around the identifier of the document pointed at.

use vstd::prelude::*;

use crate::snowflake::Snowflake;

verus! {

/// A reference to a document: the identifier of the document it points at.
#[derive(Debug, Clone, Copy, PartialEq, Eq, PartialOrd, Ord, Hash, Structural)]
pub struct DocumentRef(pub Snowflake);

impl DocumentRef {
    /// The identifier of the document referred to.
    pub fn id(&self) -> (r: Snowflake)
        ensures
            r == self.0,
    {
        self.0
    }
}

} // verus!
