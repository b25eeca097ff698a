//! A parsed and classified commit.

use vstd::prelude::*;

use crate::class::{classify, CommitClass, CommitClasses};
use crate::diff::{DiffInfo, DiffModel};
use crate::message::{MessageInfo, MessageModel};
use crate::metadata::{CommitMetadata, MetadataModel};

verus! {

/// A commit, as values.
pub ghost struct CommitModel {
    pub metadata: MetadataModel,
    pub diff: Option<DiffModel>,
    pub msg: MessageModel,
    pub classes: Set<CommitClass>,
}

/// A parsed and classified commit with all the data required for scoring.
pub struct CommitInfo {
    metadata: CommitMetadata,
    diff_info: Option<DiffInfo>,
    msg_info: MessageInfo,
    classes: CommitClasses,
}

impl View for CommitInfo {
    type V = CommitModel;

    closed spec fn view(&self) -> CommitModel {
        CommitModel {
            metadata: self.metadata@,
            diff: match self.diff_info {
                Some(d) => Some(d@),
                None => None,
            },
            msg: self.msg_info@,
            classes: self.classes@,
        }
    }
}

impl CommitInfo {
    /// A commit with a diff, classified from its metadata, diff and message.
    pub fn new(metadata: CommitMetadata, diff_info: DiffInfo, msg_info: MessageInfo) -> (r:
        CommitInfo)
        ensures
            r@.metadata == metadata@,
            r@.diff == Some(diff_info@),
            r@.msg == msg_info@,
            r@.classes == classify(metadata@, diff_info@, msg_info@),
    {
        let classes = CommitClasses::classify_commit(&metadata, &diff_info, &msg_info);
        CommitInfo { metadata, diff_info: Some(diff_info), msg_info, classes }
    }

    /// A merge commit: it has no diff and is of the merge class alone.
    pub fn new_from_merge(metadata: CommitMetadata, msg_info: MessageInfo) -> (r: CommitInfo)
        ensures
            r@.metadata == metadata@,
            r@.diff is None,
            r@.msg == msg_info@,
            r@.classes == set![CommitClass::MergeCommit],
    {
        let mut classes = CommitClasses::new();
        classes.insert(CommitClass::MergeCommit);
        assert(classes@ =~= set![CommitClass::MergeCommit]);
        CommitInfo { metadata, diff_info: None, msg_info, classes }
    }

    pub fn metadata(&self) -> (r: &CommitMetadata)
        ensures
            r@ == self@.metadata,
    {
        &self.metadata
    }

    pub fn diff_info(&self) -> (r: &Option<DiffInfo>)
        ensures
            match r {
                Some(d) => self@.diff == Some(d@),
                None => self@.diff is None,
            },
    {
        &self.diff_info
    }

    pub fn msg_info(&self) -> (r: &MessageInfo)
        ensures
            r@ == self@.msg,
    {
        &self.msg_info
    }

    pub fn classes(&self) -> (r: CommitClasses)
        ensures
            r@ == self@.classes,
    {
        self.classes
    }
}

/// Builds a commit from its parts: without a diff it is a merge commit.
pub fn build_commit(metadata: CommitMetadata, diff_info: Option<DiffInfo>, msg_info: MessageInfo) -> (r:
    CommitInfo)
    ensures
        r@.metadata == metadata@,
        r@.msg == msg_info@,
        match diff_info {
            Some(d) => r@.diff == Some(d@) && r@.classes == classify(metadata@, d@, msg_info@),
            None => r@.diff is None && r@.classes == set![CommitClass::MergeCommit],
        },
{
    match diff_info {
        Some(d) => CommitInfo::new(metadata, d, msg_info),
        None => CommitInfo::new_from_merge(metadata, msg_info),
    }
}

} // verus!
