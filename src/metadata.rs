//! Commit metadata: what the repository gives cheaply, before any parsing.

use vstd::prelude::*;

verus! {

/// The metadata of a commit, as values.
pub ghost struct MetadataModel {
    pub id: Seq<char>,
    pub author: Seq<char>,
    pub parents: nat,
}

/// A commit's metadata, which is easy to obtain from the repository
/// without any heavy processing.
pub struct CommitMetadata {
    id: String,
    author: String,
    parents: usize,
}

impl View for CommitMetadata {
    type V = MetadataModel;

    closed spec fn view(&self) -> MetadataModel {
        MetadataModel { id: self.id@, author: self.author@, parents: self.parents as nat }
    }
}

impl CommitMetadata {
    pub fn new(id: String, author: String, parents: usize) -> (r: CommitMetadata)
        ensures
            r@ == (MetadataModel { id: id@, author: author@, parents: parents as nat }),
    {
        CommitMetadata { id, author, parents }
    }

    pub fn id(&self) -> (r: &str)
        ensures
            r@ == self@.id,
    {
        self.id.as_str()
    }

    pub fn author(&self) -> (r: &str)
        ensures
            r@ == self@.author,
    {
        self.author.as_str()
    }

    pub fn parents(&self) -> (r: usize)
        ensures
            r == self@.parents,
    {
        self.parents
    }
}

} // verus!
