//! The persisted records. Every record carries an `is_initialized` flag
//! that tells a created record from storage that was merely allocated.

use crate::address::Address;
use vstd::prelude::*;
use vstd::string::{StrSliceExecFns, StringExecFns};

verus! {

/// The root of the ownership hierarchy, one per organization slug.
#[derive(Debug, Clone, Copy, PartialEq, Eq)]
pub struct Organization {
    pub is_initialized: bool,
    pub owner: Address,
    pub created_at: i64,
    pub workspace_count: u64,
}

impl Organization {
    /// Stored size: flag, owner, timestamp, counter.
    pub const LEN: usize = 1 + 32 + 8 + 8;
}

/// A line of versions inside an organization; a fork also records the
/// workspace and version it was taken from.
#[derive(Debug, Clone, Copy, PartialEq, Eq)]
pub struct Workspace {
    pub is_initialized: bool,
    pub organization: Address,
    pub creator: Address,
    pub current_version: u64,
    /// The content hash of the latest committed version.
    pub current_state_root: [u8; 32],
    /// `None` for a main workspace, the origin for a fork.
    pub parent_workspace: Option<Address>,
    pub fork_at_version: Option<u64>,
    pub created_at: i64,
}

impl Workspace {
    /// Stored size: the optional fields keep a presence byte and their
    /// full width whether or not they are present.
    pub const LEN: usize = 1 + 32 + 32 + 8 + 32 + (1 + 32) + (1 + 8) + 8;
}

/// An immutable committed version; its `parent_hash` links it to the
/// version before it.
#[derive(Debug, Clone, PartialEq, Eq)]
pub struct VersionCommit {
    pub is_initialized: bool,
    pub workspace: Address,
    pub version_number: u64,
    pub content_hash: [u8; 32],
    pub parent_hash: [u8; 32],
    pub author: Address,
    pub timestamp: i64,
    /// At most `MAX_MESSAGE_LEN` characters.
    pub message: String,
}

impl VersionCommit {
    pub const MAX_MESSAGE_LEN: usize = 64;

    /// Stored size, with room for a message of `MAX_MESSAGE_LEN` bytes.
    pub const LEN: usize = 1 + 32 + 8 + 32 + 32 + 32 + 8 + 4 + 64;
}

/// Where a pull request stands: open, approved, merged or rejected.
#[derive(Debug, Clone, Copy, PartialEq, Eq, Structural)]
pub enum PRStatus {
    Open,
    Approved,
    Merged,
    Rejected,
}

/// A proposal to merge a source workspace into a target workspace, with
/// snapshots of both sides' hashes taken when it was proposed.
#[derive(Debug, Clone, Copy, PartialEq, Eq)]
pub struct PullRequest {
    pub is_initialized: bool,
    pub source_workspace: Address,
    pub target_workspace: Address,
    pub source_version_hash: [u8; 32],
    pub target_version_hash: [u8; 32],
    pub proposer: Address,
    pub reviewer: Option<Address>,
    pub status: PRStatus,
    pub created_at: i64,
    pub reviewed_at: Option<i64>,
}

impl PullRequest {
    pub const LEN: usize = 1 + 32 + 32 + 32 + 32 + 32 + (1 + 32) + 1 + 8 + (1 + 8);
}

/// The record of one workflow run against a workspace.
#[derive(Debug, Clone, Copy, PartialEq, Eq)]
pub struct ExecutionLog {
    pub is_initialized: bool,
    pub workspace: Address,
    pub executor: Address,
    pub version_hash: [u8; 32],
    pub result_hash: [u8; 32],
    pub timestamp: i64,
}

impl ExecutionLog {
    pub const LEN: usize = 1 + 32 + 32 + 32 + 32 + 8;
}

/// A commit message cut to its first 64 characters.
pub open spec fn truncated_message(m: Seq<char>) -> Seq<char> {
    if m.len() <= 64 {
        m
    } else {
        m.subrange(0, 64)
    }
}

/// Cuts a commit message to its first `VersionCommit::MAX_MESSAGE_LEN`
/// characters.
pub fn truncate_message(m: &String) -> (r: String)
    ensures
        r@ == truncated_message(m@),
{
    let s = m.as_str();
    let n = s.unicode_len();
    let keep: usize = if n <= VersionCommit::MAX_MESSAGE_LEN {
        n
    } else {
        VersionCommit::MAX_MESSAGE_LEN
    };
    let r = String::from_str(s.substring_char(0, keep));
    assert(r@ =~= truncated_message(m@));
    r
}

} // verus!
