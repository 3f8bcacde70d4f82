//! The operations a caller can submit, each with its own payload.

use vstd::prelude::*;

verus! {

/// One operation. The accounts it takes, in order, are listed under each
/// variant; `process_instruction` checks their count and kinds.
#[derive(Debug, Clone)]
pub enum VeriflowInstruction {
    /// Accounts: payer (signer), organization, system program.
    InitializeOrganization { org_slug: String },
    /// Accounts: creator (signer, organization owner), workspace,
    /// organization, system program.
    InitializeWorkspace { workspace_id: String, name: String },
    /// Accounts: author (signer), workspace, new version commit, system
    /// program.
    CommitVersion { content_hash: [u8; 32], message: String },
    /// Accounts: creator (signer), parent workspace, fork workspace,
    /// organization, system program.
    CreateFork { fork_workspace_id: String, fork_at_version: u64, name: String },
    /// Accounts: proposer (signer), source workspace, target workspace,
    /// pull request, system program.
    CreatePullRequest {
        title: String,
        source_version_hash: [u8; 32],
        target_version_hash: [u8; 32],
    },
    /// Accounts: approver (signer), pull request, organization.
    ApprovePullRequest,
    /// Accounts: merger (signer), pull request, target workspace, new
    /// version commit, organization, system program.
    MergePullRequest { merge_commit_hash: [u8; 32], message: String },
    /// Accounts: executor (signer), workspace, execution log, system
    /// program.
    RecordExecution { version_hash: [u8; 32], result_hash: [u8; 32] },
}

impl VeriflowInstruction {
    /// How many accounts the operation takes.
    pub open spec fn spec_account_count(&self) -> nat {
        match self {
            VeriflowInstruction::InitializeOrganization { .. } => 3,
            VeriflowInstruction::InitializeWorkspace { .. } => 4,
            VeriflowInstruction::CommitVersion { .. } => 4,
            VeriflowInstruction::CreateFork { .. } => 5,
            VeriflowInstruction::CreatePullRequest { .. } => 5,
            VeriflowInstruction::ApprovePullRequest => 3,
            VeriflowInstruction::MergePullRequest { .. } => 6,
            VeriflowInstruction::RecordExecution { .. } => 4,
        }
    }

    /// How many accounts the operation takes.
    pub fn account_count(&self) -> (r: usize)
        ensures
            r as nat == self.spec_account_count(),
    {
        match self {
            VeriflowInstruction::InitializeOrganization { .. } => 3,
            VeriflowInstruction::InitializeWorkspace { .. } => 4,
            VeriflowInstruction::CommitVersion { .. } => 4,
            VeriflowInstruction::CreateFork { .. } => 5,
            VeriflowInstruction::CreatePullRequest { .. } => 5,
            VeriflowInstruction::ApprovePullRequest => 3,
            VeriflowInstruction::MergePullRequest { .. } => 6,
            VeriflowInstruction::RecordExecution { .. } => 4,
        }
    }
}

} // verus!
