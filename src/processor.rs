//! The state-transition engine: one handler per operation. Each handler
//! checks the caller's signature, validates the records it reads, checks
//! that the accounts it is handed are the ones those records name, verifies
//! the address of every record it creates against the address derived from
//! the claimed identifiers, and returns the records to persist. A handler
//! that fails leaves every record it was given unchanged.

use crate::address::{
    same_address, string_bytes, execution_seeds, org_seeds, pr_seeds, derived_key, version_seeds, workspace_seeds,
    Address, RecordSeeds,
};
use crate::error::{ProcessError, VeriflowError};
use crate::instruction::VeriflowInstruction;
use crate::state::{
    truncate_message, truncated_message, ExecutionLog, Organization, PRStatus, PullRequest,
    VersionCommit, Workspace,
};
use vstd::prelude::*;
use vstd::utf8::encode_utf8;

verus! {

/// An account taking part in an operation: its key, and whether it signed.
#[derive(Debug, Clone, Copy, PartialEq, Eq)]
pub struct Caller {
    pub key: Address,
    pub is_signer: bool,
}

/// Whether `key` is the address the ledger derives from `seeds`.
pub open spec fn derives(seeds: Seq<Seq<u8>>, program_id: Address, key: Address) -> bool {
    derived_key(seeds, program_id@) == Some(key@)
}

// ---------------------------------------------------------------------------
// InitializeOrganization

pub open spec fn initialize_organization_outcome(
    program_id: Address,
    payer: Caller,
    org_key: Address,
    org_slug: Seq<char>,
    now: i64,
) -> Result<Organization, ProcessError> {
    if !payer.is_signer {
        Err(ProcessError::MissingRequiredSignature)
    } else if !derives(org_seeds(org_slug), program_id, org_key) {
        Err(ProcessError::InvalidSeeds)
    } else {
        Ok(Organization { is_initialized: true, owner: payer.key, created_at: now, workspace_count: 0 })
    }
}

/// Creates the organization `org_slug`, owned by the payer, to be stored at
/// `org_key`.
pub fn process_initialize_organization(
    program_id: &Address,
    payer: &Caller,
    org_key: &Address,
    org_slug: &String,
    now: i64,
) -> (r: Result<Organization, ProcessError>)
    ensures
        r == initialize_organization_outcome(*program_id, *payer, *org_key, org_slug@, now),
{
    if !payer.is_signer {
        return Err(ProcessError::MissingRequiredSignature);
    }
    let seeds = RecordSeeds::Organization { org_slug: org_slug.clone() };
    if !seeds.matches_address(program_id, org_key) {
        return Err(ProcessError::InvalidSeeds);
    }
    Ok(Organization { is_initialized: true, owner: payer.key, created_at: now, workspace_count: 0 })
}

// ---------------------------------------------------------------------------
// InitializeWorkspace

/// Whether `h` is the all-zero hash, the state root of a workspace with
/// no commits.
pub open spec fn is_zero_root(h: [u8; 32]) -> bool {
    h@ == Seq::new(32, |i: int| 0u8)
}

/// The first check that InitializeWorkspace fails, if any.
pub open spec fn initialize_workspace_error(
    program_id: Address,
    creator: Caller,
    workspace_key: Address,
    org_key: Address,
    org: Organization,
    workspace_id: Seq<char>,
) -> Option<ProcessError> {
    if !creator.is_signer {
        Some(ProcessError::MissingRequiredSignature)
    } else if !org.is_initialized {
        Some(ProcessError::Custom(VeriflowError::InvalidWorkspaceState))
    } else if org.owner@ != creator.key@ {
        Some(ProcessError::Custom(VeriflowError::NotAuthorized))
    } else if !derives(workspace_seeds(org_key@, workspace_id), program_id, workspace_key) {
        Some(ProcessError::InvalidSeeds)
    } else {
        None
    }
}

/// A fresh main workspace of the organization at `org_key`: version 0, an
/// all-zero state root, no parent.
pub open spec fn is_new_workspace(w: Workspace, org_key: Address, creator: Address, now: i64) -> bool {
    &&& w.is_initialized
    &&& w.organization == org_key
    &&& w.creator == creator
    &&& w.current_version == 0
    &&& is_zero_root(w.current_state_root)
    &&& w.parent_workspace is None
    &&& w.fork_at_version is None
    &&& w.created_at == now
}

pub open spec fn initialize_workspace_result(
    program_id: Address,
    creator: Caller,
    workspace_key: Address,
    org_key: Address,
    org: Organization,
    workspace_id: Seq<char>,
    now: i64,
    r: Result<Workspace, ProcessError>,
) -> bool {
    match initialize_workspace_error(program_id, creator, workspace_key, org_key, org, workspace_id) {
        Some(e) => r == Err::<Workspace, ProcessError>(e),
        None => r matches Ok(w) && is_new_workspace(w, org_key, creator.key, now),
    }
}

/// Creates the workspace `workspace_id` of the organization at `org_key`,
/// at version 0 with an all-zero state root, to be stored at
/// `workspace_key`. Only the organization's owner may do so. The display
/// `name` is not stored.
pub fn process_initialize_workspace(
    program_id: &Address,
    creator: &Caller,
    workspace_key: &Address,
    org_key: &Address,
    org: &Organization,
    workspace_id: &String,
    name: &String,
    now: i64,
) -> (r: Result<Workspace, ProcessError>)
    ensures
        initialize_workspace_result(
            *program_id,
            *creator,
            *workspace_key,
            *org_key,
            *org,
            workspace_id@,
            now,
            r,
        ),
{
    if !creator.is_signer {
        return Err(ProcessError::MissingRequiredSignature);
    }
    if !org.is_initialized {
        return Err(ProcessError::Custom(VeriflowError::InvalidWorkspaceState));
    }
    if !same_address(&org.owner, &creator.key) {
        return Err(ProcessError::Custom(VeriflowError::NotAuthorized));
    }
    let seeds = RecordSeeds::Workspace { organization: *org_key, workspace_id: workspace_id.clone() };
    if !seeds.matches_address(program_id, workspace_key) {
        return Err(ProcessError::InvalidSeeds);
    }
    let zero_root: [u8; 32] = [0u8; 32];
    assert(zero_root@ =~= Seq::new(32, |i: int| 0u8));
    Ok(
        Workspace {
            is_initialized: true,
            organization: *org_key,
            creator: creator.key,
            current_version: 0,
            current_state_root: zero_root,
            parent_workspace: None,
            fork_at_version: None,
            created_at: now,
        },
    )
}

// ---------------------------------------------------------------------------
// Appending a version (shared by CommitVersion and MergePullRequest)

/// `w` after one more version whose content hash is `content_hash`: the
/// counter advances by one and the state root becomes that hash.
pub open spec fn advanced(w: Workspace, content_hash: [u8; 32]) -> Workspace {
    Workspace { current_version: (w.current_version + 1) as u64, current_state_root: content_hash, ..w }
}

/// The first check that appending a version to `w` fails, if any.
pub open spec fn append_version_error(
    program_id: Address,
    workspace_key: Address,
    w: Workspace,
    version_key: Address,
    message: Seq<char>,
) -> Option<ProcessError> {
    if w.current_version == u64::MAX {
        Some(ProcessError::Custom(VeriflowError::InvalidVersion))
    } else if !derives(
        version_seeds(workspace_key@, (w.current_version + 1) as u64),
        program_id,
        version_key,
    ) {
        Some(ProcessError::InvalidSeeds)
    } else if encode_utf8(truncated_message(message)).len() > 64 {
        Some(ProcessError::AccountDataTooSmall)
    } else {
        None
    }
}

/// Whether `c` is the commit that appends `content_hash` to the workspace
/// at `workspace_key` whose state before the commit is `w`: numbered one
/// past `w`'s version, chained to `w`'s state root.
pub open spec fn is_appended_commit(
    c: VersionCommit,
    workspace_key: Address,
    w: Workspace,
    content_hash: [u8; 32],
    author: Address,
    message: Seq<char>,
    now: i64,
) -> bool {
    &&& c.is_initialized
    &&& c.workspace == workspace_key
    &&& c.version_number == w.current_version + 1
    &&& c.content_hash == content_hash
    &&& c.parent_hash == w.current_state_root
    &&& c.author == author
    &&& c.timestamp == now
    &&& c.message@ == truncated_message(message)
}

fn append_version(
    program_id: &Address,
    workspace_key: &Address,
    workspace: &mut Workspace,
    version_key: &Address,
    author: &Address,
    content_hash: [u8; 32],
    message: &String,
    now: i64,
) -> (r: Result<VersionCommit, ProcessError>)
    ensures
        match append_version_error(
            *program_id,
            *workspace_key,
            *old(workspace),
            *version_key,
            message@,
        ) {
            Some(e) => r == Err::<VersionCommit, ProcessError>(e) && *final(workspace) == *old(
                workspace,
            ),
            None => r matches Ok(c) && *final(workspace) == advanced(*old(workspace), content_hash)
                && is_appended_commit(
                c,
                *workspace_key,
                *old(workspace),
                content_hash,
                *author,
                message@,
                now,
            ),
        },
{
    if workspace.current_version == u64::MAX {
        return Err(ProcessError::Custom(VeriflowError::InvalidVersion));
    }
    let new_version: u64 = workspace.current_version + 1;
    let seeds = RecordSeeds::VersionCommit { workspace: *workspace_key, version_number: new_version };
    if !seeds.matches_address(program_id, version_key) {
        return Err(ProcessError::InvalidSeeds);
    }
    let kept = truncate_message(message);
    if string_bytes(&kept).len() > VersionCommit::MAX_MESSAGE_LEN {
        return Err(ProcessError::AccountDataTooSmall);
    }
    let commit = VersionCommit {
        is_initialized: true,
        workspace: *workspace_key,
        version_number: new_version,
        content_hash,
        parent_hash: workspace.current_state_root,
        author: *author,
        timestamp: now,
        message: kept,
    };
    workspace.current_version = new_version;
    workspace.current_state_root = content_hash;
    Ok(commit)
}

// ---------------------------------------------------------------------------
// CommitVersion

/// The first check that CommitVersion fails, if any.
pub open spec fn commit_version_error(
    program_id: Address,
    author: Caller,
    workspace_key: Address,
    workspace: Workspace,
    version_key: Address,
    message: Seq<char>,
) -> Option<ProcessError> {
    if !author.is_signer {
        Some(ProcessError::MissingRequiredSignature)
    } else if !workspace.is_initialized {
        Some(ProcessError::Custom(VeriflowError::InvalidWorkspaceState))
    } else {
        append_version_error(program_id, workspace_key, workspace, version_key, message)
    }
}

/// Commits the version `content_hash` to the workspace at `workspace_key`:
/// its version counter advances by one, its state root becomes
/// `content_hash`, and the returned commit, to be stored at `version_key`,
/// carries the previous state root as its parent hash.
pub fn process_commit_version(
    program_id: &Address,
    author: &Caller,
    workspace_key: &Address,
    workspace: &mut Workspace,
    version_key: &Address,
    content_hash: [u8; 32],
    message: &String,
    now: i64,
) -> (r: Result<VersionCommit, ProcessError>)
    ensures
        match commit_version_error(
            *program_id,
            *author,
            *workspace_key,
            *old(workspace),
            *version_key,
            message@,
        ) {
            Some(e) => r == Err::<VersionCommit, ProcessError>(e) && *final(workspace) == *old(
                workspace,
            ),
            None => r matches Ok(c) && *final(workspace) == advanced(*old(workspace), content_hash)
                && is_appended_commit(
                c,
                *workspace_key,
                *old(workspace),
                content_hash,
                author.key,
                message@,
                now,
            ),
        },
{
    if !author.is_signer {
        return Err(ProcessError::MissingRequiredSignature);
    }
    if !workspace.is_initialized {
        return Err(ProcessError::Custom(VeriflowError::InvalidWorkspaceState));
    }
    append_version(
        program_id,
        workspace_key,
        workspace,
        version_key,
        &author.key,
        content_hash,
        message,
        now,
    )
}

// ---------------------------------------------------------------------------
// CreateFork

pub open spec fn create_fork_outcome(
    program_id: Address,
    creator: Caller,
    parent_key: Address,
    parent: Workspace,
    fork_key: Address,
    org_key: Address,
    fork_workspace_id: Seq<char>,
    fork_at_version: u64,
    now: i64,
) -> Result<Workspace, ProcessError> {
    if !creator.is_signer {
        Err(ProcessError::MissingRequiredSignature)
    } else if !parent.is_initialized {
        Err(ProcessError::Custom(VeriflowError::InvalidWorkspaceState))
    } else if fork_at_version > parent.current_version {
        Err(ProcessError::Custom(VeriflowError::InvalidVersion))
    } else if org_key@ != parent.organization@ {
        Err(ProcessError::InvalidSeeds)
    } else if !derives(workspace_seeds(org_key@, fork_workspace_id), program_id, fork_key) {
        Err(ProcessError::InvalidSeeds)
    } else {
        Ok(
            Workspace {
                is_initialized: true,
                organization: parent.organization,
                creator: creator.key,
                current_version: fork_at_version,
                current_state_root: parent.current_state_root,
                parent_workspace: Some(parent_key),
                fork_at_version: Some(fork_at_version),
                created_at: now,
            },
        )
    }
}

/// Forks the workspace at `parent_key` at version `fork_at_version` into a
/// new workspace `fork_workspace_id`, to be stored at `fork_key`. The fork
/// starts at version `fork_at_version` with the parent's current state root
/// (not the root the parent had at that version). The fork belongs to the
/// parent's organization, which must be the one at `org_key`, the
/// organization its address is derived from. The display `name` is not
/// stored.
pub fn process_create_fork(
    program_id: &Address,
    creator: &Caller,
    parent_key: &Address,
    parent: &Workspace,
    fork_key: &Address,
    org_key: &Address,
    fork_workspace_id: &String,
    fork_at_version: u64,
    name: &String,
    now: i64,
) -> (r: Result<Workspace, ProcessError>)
    ensures
        r == create_fork_outcome(
            *program_id,
            *creator,
            *parent_key,
            *parent,
            *fork_key,
            *org_key,
            fork_workspace_id@,
            fork_at_version,
            now,
        ),
{
    if !creator.is_signer {
        return Err(ProcessError::MissingRequiredSignature);
    }
    if !parent.is_initialized {
        return Err(ProcessError::Custom(VeriflowError::InvalidWorkspaceState));
    }
    if fork_at_version > parent.current_version {
        return Err(ProcessError::Custom(VeriflowError::InvalidVersion));
    }
    if !same_address(org_key, &parent.organization) {
        return Err(ProcessError::InvalidSeeds);
    }
    let seeds = RecordSeeds::Workspace {
        organization: *org_key,
        workspace_id: fork_workspace_id.clone(),
    };
    if !seeds.matches_address(program_id, fork_key) {
        return Err(ProcessError::InvalidSeeds);
    }
    Ok(
        Workspace {
            is_initialized: true,
            organization: parent.organization,
            creator: creator.key,
            current_version: fork_at_version,
            current_state_root: parent.current_state_root,
            parent_workspace: Some(*parent_key),
            fork_at_version: Some(fork_at_version),
            created_at: now,
        },
    )
}

// ---------------------------------------------------------------------------
// CreatePullRequest

pub open spec fn create_pull_request_outcome(
    program_id: Address,
    proposer: Caller,
    source_key: Address,
    source: Workspace,
    target_key: Address,
    target: Workspace,
    pr_key: Address,
    source_version_hash: [u8; 32],
    target_version_hash: [u8; 32],
    now: i64,
) -> Result<PullRequest, ProcessError> {
    if !proposer.is_signer {
        Err(ProcessError::MissingRequiredSignature)
    } else if !source.is_initialized || !target.is_initialized {
        Err(ProcessError::Custom(VeriflowError::InvalidWorkspaceState))
    } else if !derives(pr_seeds(source_key@, target_key@), program_id, pr_key) {
        Err(ProcessError::InvalidSeeds)
    } else {
        Ok(
            PullRequest {
                is_initialized: true,
                source_workspace: source_key,
                target_workspace: target_key,
                source_version_hash,
                target_version_hash,
                proposer: proposer.key,
                reviewer: None,
                status: PRStatus::Open,
                created_at: now,
                reviewed_at: None,
            },
        )
    }
}

/// Proposes merging the workspace at `source_key` into the one at
/// `target_key`: an open pull request not yet approved, to be stored at
/// `pr_key`, which is derived from the ordered pair of workspaces, so that
/// a pair of workspaces has at most one pull request. The `title` is not
/// stored.
pub fn process_create_pull_request(
    program_id: &Address,
    proposer: &Caller,
    source_key: &Address,
    source: &Workspace,
    target_key: &Address,
    target: &Workspace,
    pr_key: &Address,
    title: &String,
    source_version_hash: [u8; 32],
    target_version_hash: [u8; 32],
    now: i64,
) -> (r: Result<PullRequest, ProcessError>)
    ensures
        r == create_pull_request_outcome(
            *program_id,
            *proposer,
            *source_key,
            *source,
            *target_key,
            *target,
            *pr_key,
            source_version_hash,
            target_version_hash,
            now,
        ),
{
    if !proposer.is_signer {
        return Err(ProcessError::MissingRequiredSignature);
    }
    if !source.is_initialized || !target.is_initialized {
        return Err(ProcessError::Custom(VeriflowError::InvalidWorkspaceState));
    }
    let seeds = RecordSeeds::PullRequest {
        source_workspace: *source_key,
        target_workspace: *target_key,
    };
    if !seeds.matches_address(program_id, pr_key) {
        return Err(ProcessError::InvalidSeeds);
    }
    Ok(
        PullRequest {
            is_initialized: true,
            source_workspace: *source_key,
            target_workspace: *target_key,
            source_version_hash,
            target_version_hash,
            proposer: proposer.key,
            reviewer: None,
            status: PRStatus::Open,
            created_at: now,
            reviewed_at: None,
        },
    )
}

// ---------------------------------------------------------------------------
// ApprovePullRequest

pub open spec fn approve_pull_request_outcome(
    reviewer: Caller,
    pr: PullRequest,
    now: i64,
) -> Result<PullRequest, ProcessError> {
    if !reviewer.is_signer {
        Err(ProcessError::MissingRequiredSignature)
    } else if !pr.is_initialized {
        Err(ProcessError::Custom(VeriflowError::InvalidPRState))
    } else if pr.status != PRStatus::Open {
        Err(ProcessError::Custom(VeriflowError::InvalidPRState))
    } else {
        Ok(
            PullRequest {
                status: PRStatus::Approved,
                reviewer: Some(reviewer.key),
                reviewed_at: Some(now),
                ..pr
            },
        )
    }
}

/// Approves an open pull request: it becomes approved, with the signer as
/// the one who approved it. Any signer may approve.
pub fn process_approve_pull_request(
    reviewer: &Caller,
    pr: &mut PullRequest,
    now: i64,
) -> (r: Result<(), ProcessError>)
    ensures
        match approve_pull_request_outcome(*reviewer, *old(pr), now) {
            Ok(p) => r is Ok && *final(pr) == p,
            Err(e) => r == Err::<(), ProcessError>(e) && *final(pr) == *old(pr),
        },
{
    if !reviewer.is_signer {
        return Err(ProcessError::MissingRequiredSignature);
    }
    if !pr.is_initialized {
        return Err(ProcessError::Custom(VeriflowError::InvalidPRState));
    }
    if pr.status != PRStatus::Open {
        return Err(ProcessError::Custom(VeriflowError::InvalidPRState));
    }
    pr.status = PRStatus::Approved;
    pr.reviewer = Some(reviewer.key);
    pr.reviewed_at = Some(now);
    Ok(())
}

// ---------------------------------------------------------------------------
// MergePullRequest

/// The first check that MergePullRequest fails, if any.
pub open spec fn merge_pull_request_error(
    program_id: Address,
    merger: Caller,
    pr: PullRequest,
    target_key: Address,
    workspace: Workspace,
    version_key: Address,
    message: Seq<char>,
) -> Option<ProcessError> {
    if !merger.is_signer {
        Some(ProcessError::MissingRequiredSignature)
    } else if !pr.is_initialized {
        Some(ProcessError::Custom(VeriflowError::InvalidPRState))
    } else if pr.status != PRStatus::Approved {
        Some(ProcessError::Custom(VeriflowError::PRNotApproved))
    } else if target_key@ != pr.target_workspace@ {
        Some(ProcessError::InvalidSeeds)
    } else if !workspace.is_initialized {
        Some(ProcessError::Custom(VeriflowError::InvalidWorkspaceState))
    } else {
        append_version_error(program_id, target_key, workspace, version_key, message)
    }
}

/// Merges an approved pull request into its target workspace, which must
/// be the one at `target_key`: a merge commit with content `merge_commit_hash`, to be
/// stored at `version_key`, is appended to the target exactly as a commit
/// would be, and the pull request becomes merged.
pub fn process_merge_pull_request(
    program_id: &Address,
    merger: &Caller,
    pr: &mut PullRequest,
    target_key: &Address,
    workspace: &mut Workspace,
    version_key: &Address,
    merge_commit_hash: [u8; 32],
    message: &String,
    now: i64,
) -> (r: Result<VersionCommit, ProcessError>)
    ensures
        match merge_pull_request_error(
            *program_id,
            *merger,
            *old(pr),
            *target_key,
            *old(workspace),
            *version_key,
            message@,
        ) {
            Some(e) => r == Err::<VersionCommit, ProcessError>(e) && *final(pr) == *old(pr)
                && *final(workspace) == *old(workspace),
            None => r matches Ok(c) && *final(pr) == (PullRequest {
                status: PRStatus::Merged,
                ..*old(pr)
            }) && *final(workspace) == advanced(*old(workspace), merge_commit_hash)
                && is_appended_commit(
                c,
                *target_key,
                *old(workspace),
                merge_commit_hash,
                merger.key,
                message@,
                now,
            ),
        },
{
    if !merger.is_signer {
        return Err(ProcessError::MissingRequiredSignature);
    }
    if !pr.is_initialized {
        return Err(ProcessError::Custom(VeriflowError::InvalidPRState));
    }
    if pr.status != PRStatus::Approved {
        return Err(ProcessError::Custom(VeriflowError::PRNotApproved));
    }
    if !same_address(target_key, &pr.target_workspace) {
        return Err(ProcessError::InvalidSeeds);
    }
    if !workspace.is_initialized {
        return Err(ProcessError::Custom(VeriflowError::InvalidWorkspaceState));
    }
    let commit = append_version(
        program_id,
        target_key,
        workspace,
        version_key,
        &merger.key,
        merge_commit_hash,
        message,
        now,
    )?;
    pr.status = PRStatus::Merged;
    Ok(commit)
}

// ---------------------------------------------------------------------------
// RecordExecution

pub open spec fn record_execution_outcome(
    program_id: Address,
    executor: Caller,
    workspace_key: Address,
    workspace: Workspace,
    execution_key: Address,
    version_hash: [u8; 32],
    result_hash: [u8; 32],
    now: i64,
) -> Result<ExecutionLog, ProcessError> {
    if !executor.is_signer {
        Err(ProcessError::MissingRequiredSignature)
    } else if !workspace.is_initialized {
        Err(ProcessError::Custom(VeriflowError::InvalidWorkspaceState))
    } else if !derives(execution_seeds(workspace_key@, now as u64), program_id, execution_key) {
        Err(ProcessError::InvalidSeeds)
    } else {
        Ok(
            ExecutionLog {
                is_initialized: true,
                workspace: workspace_key,
                executor: executor.key,
                version_hash,
                result_hash,
                timestamp: now,
            },
        )
    }
}

/// Records a workflow run against the workspace at `workspace_key`. The
/// log is stored at `execution_key`, derived from the workspace and from
/// the timestamp `now`, which serves as the execution id.
pub fn process_record_execution(
    program_id: &Address,
    executor: &Caller,
    workspace_key: &Address,
    workspace: &Workspace,
    execution_key: &Address,
    version_hash: [u8; 32],
    result_hash: [u8; 32],
    now: i64,
) -> (r: Result<ExecutionLog, ProcessError>)
    ensures
        r == record_execution_outcome(
            *program_id,
            *executor,
            *workspace_key,
            *workspace,
            *execution_key,
            version_hash,
            result_hash,
            now,
        ),
{
    if !executor.is_signer {
        return Err(ProcessError::MissingRequiredSignature);
    }
    if !workspace.is_initialized {
        return Err(ProcessError::Custom(VeriflowError::InvalidWorkspaceState));
    }
    let execution_id: u64 = now as u64;
    let seeds = RecordSeeds::ExecutionLog { workspace: *workspace_key, execution_id };
    if !seeds.matches_address(program_id, execution_key) {
        return Err(ProcessError::InvalidSeeds);
    }
    Ok(
        ExecutionLog {
            is_initialized: true,
            workspace: *workspace_key,
            executor: executor.key,
            version_hash,
            result_hash,
            timestamp: now,
        },
    )
}

// ---------------------------------------------------------------------------
// Accounts and dispatch

/// What an account holds: nothing yet, or one record.
#[derive(Debug, Clone)]
pub enum AccountData {
    Empty,
    Organization(Organization),
    Workspace(Workspace),
    VersionCommit(VersionCommit),
    PullRequest(PullRequest),
    ExecutionLog(ExecutionLog),
}

/// An account handed to an operation by the host: its key, whether it
/// signed, and what it holds.
#[derive(Debug, Clone)]
pub struct Account {
    pub key: Address,
    pub is_signer: bool,
    pub data: AccountData,
}

pub open spec fn caller_of(a: Account) -> Caller {
    Caller { key: a.key, is_signer: a.is_signer }
}

pub open spec fn holding(a: Account, data: AccountData) -> Account {
    Account { data, ..a }
}

/// `post` is `pre` with account `i` now holding `data`.
pub open spec fn stored(pre: Seq<Account>, i: int, data: AccountData) -> Seq<Account> {
    pre.update(i, holding(pre[i], data))
}

/// Whether `post` is `pre` with the fresh commit appended to the workspace
/// at role `w` stored at role `v`: the workspace advanced to
/// `content_hash`, the commit chained to its previous state.
pub open spec fn appended(
    pre: Seq<Account>,
    post: Seq<Account>,
    w: int,
    v: int,
    ws: Workspace,
    content_hash: [u8; 32],
    author: Address,
    message: Seq<char>,
    now: i64,
) -> bool {
    &&& post == stored(stored(pre, w, AccountData::Workspace(advanced(ws, content_hash))), v, post[v].data)
    &&& post[v].data matches AccountData::VersionCommit(c)
        && is_appended_commit(c, pre[w].key, ws, content_hash, author, message, now)
}

/// Outcome of an operation that creates one record at role `i`: a handler
/// error, a failure to allocate occupied storage, or the record stored.
pub open spec fn created(
    pre: Seq<Account>,
    post: Seq<Account>,
    r: Result<(), ProcessError>,
    i: int,
    outcome: Result<AccountData, ProcessError>,
) -> bool {
    match outcome {
        Err(e) => r == Err::<(), ProcessError>(e) && post == pre,
        Ok(d) => if !(pre[i].data is Empty) {
            r == Err::<(), ProcessError>(ProcessError::AccountAlreadyInitialized) && post == pre
        } else {
            r is Ok && post == stored(pre, i, d)
        },
    }
}

pub open spec fn org_data(r: Result<Organization, ProcessError>) -> Result<AccountData, ProcessError> {
    match r {
        Ok(o) => Ok(AccountData::Organization(o)),
        Err(e) => Err(e),
    }
}

pub open spec fn workspace_data(r: Result<Workspace, ProcessError>) -> Result<AccountData, ProcessError> {
    match r {
        Ok(w) => Ok(AccountData::Workspace(w)),
        Err(e) => Err(e),
    }
}

pub open spec fn pr_data(r: Result<PullRequest, ProcessError>) -> Result<AccountData, ProcessError> {
    match r {
        Ok(p) => Ok(AccountData::PullRequest(p)),
        Err(e) => Err(e),
    }
}

pub open spec fn log_data(r: Result<ExecutionLog, ProcessError>) -> Result<AccountData, ProcessError> {
    match r {
        Ok(l) => Ok(AccountData::ExecutionLog(l)),
        Err(e) => Err(e),
    }
}

/// What `process_instruction` does, for accounts that number at least the
/// operation's roles: `r` is its result and `post` the accounts after it.
pub open spec fn instruction_result(
    program_id: Address,
    pre: Seq<Account>,
    instruction: VeriflowInstruction,
    now: i64,
    r: Result<(), ProcessError>,
    post: Seq<Account>,
) -> bool {
    match instruction {
        VeriflowInstruction::InitializeOrganization { org_slug } => created(
            pre,
            post,
            r,
            1,
            org_data(
                initialize_organization_outcome(program_id, caller_of(pre[0]), pre[1].key, org_slug@, now),
            ),
        ),
        VeriflowInstruction::InitializeWorkspace { workspace_id, name } => match pre[2].data {
            AccountData::Organization(org) => match initialize_workspace_error(
                program_id,
                caller_of(pre[0]),
                pre[1].key,
                pre[2].key,
                org,
                workspace_id@,
            ) {
                Some(e) => r == Err::<(), ProcessError>(e) && post == pre,
                None => if !(pre[1].data is Empty) {
                    r == Err::<(), ProcessError>(ProcessError::AccountAlreadyInitialized) && post
                        == pre
                } else {
                    &&& r is Ok
                    &&& post == stored(pre, 1, post[1].data)
                    &&& post[1].data matches AccountData::Workspace(w) && is_new_workspace(
                        w,
                        pre[2].key,
                        pre[0].key,
                        now,
                    )
                },
            },
            _ => r == Err::<(), ProcessError>(ProcessError::InvalidAccountData) && post == pre,
        },
        VeriflowInstruction::CommitVersion { content_hash, message } => match pre[1].data {
            AccountData::Workspace(ws) => match commit_version_error(
                program_id,
                caller_of(pre[0]),
                pre[1].key,
                ws,
                pre[2].key,
                message@,
            ) {
                Some(e) => r == Err::<(), ProcessError>(e) && post == pre,
                None => if !(pre[2].data is Empty) {
                    r == Err::<(), ProcessError>(ProcessError::AccountAlreadyInitialized) && post
                        == pre
                } else {
                    r is Ok && appended(
                        pre,
                        post,
                        1,
                        2,
                        ws,
                        content_hash,
                        pre[0].key,
                        message@,
                        now,
                    )
                },
            },
            _ => r == Err::<(), ProcessError>(ProcessError::InvalidAccountData) && post == pre,
        },
        VeriflowInstruction::CreateFork { fork_workspace_id, fork_at_version, name } => match pre[1].data {
            AccountData::Workspace(parent) => created(
                pre,
                post,
                r,
                2,
                workspace_data(
                    create_fork_outcome(
                        program_id,
                        caller_of(pre[0]),
                        pre[1].key,
                        parent,
                        pre[2].key,
                        pre[3].key,
                        fork_workspace_id@,
                        fork_at_version,
                        now,
                    ),
                ),
            ),
            _ => r == Err::<(), ProcessError>(ProcessError::InvalidAccountData) && post == pre,
        },
        VeriflowInstruction::CreatePullRequest { title, source_version_hash, target_version_hash } => {
            match (pre[1].data, pre[2].data) {
                (AccountData::Workspace(source), AccountData::Workspace(target)) => created(
                    pre,
                    post,
                    r,
                    3,
                    pr_data(
                        create_pull_request_outcome(
                            program_id,
                            caller_of(pre[0]),
                            pre[1].key,
                            source,
                            pre[2].key,
                            target,
                            pre[3].key,
                            source_version_hash,
                            target_version_hash,
                            now,
                        ),
                    ),
                ),
                _ => r == Err::<(), ProcessError>(ProcessError::InvalidAccountData) && post == pre,
            }
        },
        VeriflowInstruction::ApprovePullRequest => match pre[1].data {
            AccountData::PullRequest(pr) => match approve_pull_request_outcome(caller_of(pre[0]), pr, now) {
                Ok(p) => r is Ok && post == stored(pre, 1, AccountData::PullRequest(p)),
                Err(e) => r == Err::<(), ProcessError>(e) && post == pre,
            },
            _ => r == Err::<(), ProcessError>(ProcessError::InvalidAccountData) && post == pre,
        },
        VeriflowInstruction::MergePullRequest { merge_commit_hash, message } => {
            match (pre[1].data, pre[2].data) {
                (AccountData::PullRequest(pr), AccountData::Workspace(ws)) => match merge_pull_request_error(
                    program_id,
                    caller_of(pre[0]),
                    pr,
                    pre[2].key,
                    ws,
                    pre[3].key,
                    message@,
                ) {
                    Some(e) => r == Err::<(), ProcessError>(e) && post == pre,
                    None => if !(pre[3].data is Empty) {
                        r == Err::<(), ProcessError>(ProcessError::AccountAlreadyInitialized) && post
                            == pre
                    } else {
                        r is Ok && appended(
                            stored(pre, 1, AccountData::PullRequest(PullRequest { status: PRStatus::Merged, ..pr })),
                            post,
                            2,
                            3,
                            ws,
                            merge_commit_hash,
                            pre[0].key,
                            message@,
                            now,
                        )
                    },
                },
                _ => r == Err::<(), ProcessError>(ProcessError::InvalidAccountData) && post == pre,
            }
        },
        VeriflowInstruction::RecordExecution { version_hash, result_hash } => match pre[1].data {
            AccountData::Workspace(ws) => created(
                pre,
                post,
                r,
                2,
                log_data(
                    record_execution_outcome(
                        program_id,
                        caller_of(pre[0]),
                        pre[1].key,
                        ws,
                        pre[2].key,
                        version_hash,
                        result_hash,
                        now,
                    ),
                ),
            ),
            _ => r == Err::<(), ProcessError>(ProcessError::InvalidAccountData) && post == pre,
        },
    }
}

/// What `process_instruction` does: too few accounts fail with
/// `NotEnoughAccountKeys`; otherwise as `instruction_result` says.
pub open spec fn process_result(
    program_id: Address,
    pre: Seq<Account>,
    instruction: VeriflowInstruction,
    now: i64,
    r: Result<(), ProcessError>,
    post: Seq<Account>,
) -> bool {
    if pre.len() < instruction.spec_account_count() {
        r == Err::<(), ProcessError>(ProcessError::NotEnoughAccountKeys) && post == pre
    } else {
        instruction_result(program_id, pre, instruction, now, r, post)
    }
}

fn caller(a: &Account) -> (c: Caller)
    ensures
        c == caller_of(*a),
{
    Caller { key: a.key, is_signer: a.is_signer }
}

fn store(accounts: &mut Vec<Account>, i: usize, data: AccountData)
    requires
        i < old(accounts).len(),
    ensures
        final(accounts)@ == stored(old(accounts)@, i as int, data),
{
    let a = Account { key: accounts[i].key, is_signer: accounts[i].is_signer, data };
    accounts.set(i, a);
}

fn is_empty(a: &Account) -> (r: bool)
    ensures
        r == (a.data is Empty),
{
    match a.data {
        AccountData::Empty => true,
        _ => false,
    }
}

/// Applies one operation to the accounts supplied for its roles. A failed
/// operation leaves every account unchanged; a successful one stores the
/// records it created or updated in their accounts.
pub fn process_instruction(
    program_id: &Address,
    accounts: &mut Vec<Account>,
    instruction: &VeriflowInstruction,
    now: i64,
) -> (r: Result<(), ProcessError>)
    ensures
        process_result(*program_id, old(accounts)@, *instruction, now, r, final(accounts)@),
{
    if accounts.len() < instruction.account_count() {
        return Err(ProcessError::NotEnoughAccountKeys);
    }
    match instruction {
        VeriflowInstruction::InitializeOrganization { org_slug } => {
            let org = process_initialize_organization(
                program_id,
                &caller(&accounts[0]),
                &accounts[1].key,
                org_slug,
                now,
            )?;
            if !is_empty(&accounts[1]) {
                return Err(ProcessError::AccountAlreadyInitialized);
            }
            store(accounts, 1, AccountData::Organization(org));
        },
        VeriflowInstruction::InitializeWorkspace { workspace_id, name } => {
            let org = match &accounts[2].data {
                AccountData::Organization(o) => *o,
                _ => return Err(ProcessError::InvalidAccountData),
            };
            let ws = process_initialize_workspace(
                program_id,
                &caller(&accounts[0]),
                &accounts[1].key,
                &accounts[2].key,
                &org,
                workspace_id,
                name,
                now,
            )?;
            if !is_empty(&accounts[1]) {
                return Err(ProcessError::AccountAlreadyInitialized);
            }
            store(accounts, 1, AccountData::Workspace(ws));
        },
        VeriflowInstruction::CommitVersion { content_hash, message } => {
            let mut ws = match &accounts[1].data {
                AccountData::Workspace(w) => *w,
                _ => return Err(ProcessError::InvalidAccountData),
            };
            let commit = process_commit_version(
                program_id,
                &caller(&accounts[0]),
                &accounts[1].key,
                &mut ws,
                &accounts[2].key,
                *content_hash,
                message,
                now,
            )?;
            if !is_empty(&accounts[2]) {
                return Err(ProcessError::AccountAlreadyInitialized);
            }
            store(accounts, 1, AccountData::Workspace(ws));
            store(accounts, 2, AccountData::VersionCommit(commit));
        },
        VeriflowInstruction::CreateFork { fork_workspace_id, fork_at_version, name } => {
            let parent = match &accounts[1].data {
                AccountData::Workspace(w) => *w,
                _ => return Err(ProcessError::InvalidAccountData),
            };
            let fork = process_create_fork(
                program_id,
                &caller(&accounts[0]),
                &accounts[1].key,
                &parent,
                &accounts[2].key,
                &accounts[3].key,
                fork_workspace_id,
                *fork_at_version,
                name,
                now,
            )?;
            if !is_empty(&accounts[2]) {
                return Err(ProcessError::AccountAlreadyInitialized);
            }
            store(accounts, 2, AccountData::Workspace(fork));
        },
        VeriflowInstruction::CreatePullRequest { title, source_version_hash, target_version_hash } => {
            let source = match &accounts[1].data {
                AccountData::Workspace(w) => *w,
                _ => return Err(ProcessError::InvalidAccountData),
            };
            let target = match &accounts[2].data {
                AccountData::Workspace(w) => *w,
                _ => return Err(ProcessError::InvalidAccountData),
            };
            let pr = process_create_pull_request(
                program_id,
                &caller(&accounts[0]),
                &accounts[1].key,
                &source,
                &accounts[2].key,
                &target,
                &accounts[3].key,
                title,
                *source_version_hash,
                *target_version_hash,
                now,
            )?;
            if !is_empty(&accounts[3]) {
                return Err(ProcessError::AccountAlreadyInitialized);
            }
            store(accounts, 3, AccountData::PullRequest(pr));
        },
        VeriflowInstruction::ApprovePullRequest => {
            let mut pr = match &accounts[1].data {
                AccountData::PullRequest(p) => *p,
                _ => return Err(ProcessError::InvalidAccountData),
            };
            process_approve_pull_request(&caller(&accounts[0]), &mut pr, now)?;
            store(accounts, 1, AccountData::PullRequest(pr));
        },
        VeriflowInstruction::MergePullRequest { merge_commit_hash, message } => {
            let mut pr = match &accounts[1].data {
                AccountData::PullRequest(p) => *p,
                _ => return Err(ProcessError::InvalidAccountData),
            };
            let mut ws = match &accounts[2].data {
                AccountData::Workspace(w) => *w,
                _ => return Err(ProcessError::InvalidAccountData),
            };
            let commit = process_merge_pull_request(
                program_id,
                &caller(&accounts[0]),
                &mut pr,
                &accounts[2].key,
                &mut ws,
                &accounts[3].key,
                *merge_commit_hash,
                message,
                now,
            )?;
            if !is_empty(&accounts[3]) {
                return Err(ProcessError::AccountAlreadyInitialized);
            }
            store(accounts, 1, AccountData::PullRequest(pr));
            store(accounts, 2, AccountData::Workspace(ws));
            store(accounts, 3, AccountData::VersionCommit(commit));
        },
        VeriflowInstruction::RecordExecution { version_hash, result_hash } => {
            let ws = match &accounts[1].data {
                AccountData::Workspace(w) => *w,
                _ => return Err(ProcessError::InvalidAccountData),
            };
            let log = process_record_execution(
                program_id,
                &caller(&accounts[0]),
                &accounts[1].key,
                &ws,
                &accounts[2].key,
                *version_hash,
                *result_hash,
                now,
            )?;
            if !is_empty(&accounts[2]) {
                return Err(ProcessError::AccountAlreadyInitialized);
            }
            store(accounts, 2, AccountData::ExecutionLog(log));
        },
    }
    Ok(())
}

} // verus!
