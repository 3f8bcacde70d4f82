//! Properties of the engine that relate several operations or hold of
//! every input, proved from the handlers' contracts.

use crate::address::{
    execution_seeds, org_seeds, pr_seeds, version_seeds, workspace_seeds, Address, RecordSeeds,
};
use crate::error::{ProcessError, VeriflowError};
use crate::instruction::VeriflowInstruction;
use crate::processor::{
    advanced, approve_pull_request_outcome, create_fork_outcome, derives, instruction_result,
    is_appended_commit, is_new_workspace, is_zero_root, process_result, Account, AccountData, Caller,
};
use crate::state::{PRStatus, PullRequest, VersionCommit, Workspace};
use vstd::prelude::*;

verus! {

/// Whether `ws` and `commits` record `commits.len()` successful commits of
/// `hashes` to the workspace at `workspace_key`: workspace `ws[i + 1]` and
/// commit `commits[i]` are what committing `hashes[i]` to `ws[i]` yields.
pub open spec fn is_commit_run(
    workspace_key: Address,
    ws: Seq<Workspace>,
    commits: Seq<VersionCommit>,
    hashes: Seq<[u8; 32]>,
    authors: Seq<Address>,
    messages: Seq<Seq<char>>,
    times: Seq<i64>,
) -> bool {
    &&& ws.len() == commits.len() + 1
    &&& hashes.len() == commits.len()
    &&& authors.len() == commits.len()
    &&& messages.len() == commits.len()
    &&& times.len() == commits.len()
    &&& forall|i: int|
        0 <= i < commits.len() ==> {
            &&& #[trigger] ws[i + 1] == advanced(ws[i], hashes[i])
            &&& is_appended_commit(
                commits[i],
                workspace_key,
                ws[i],
                hashes[i],
                authors[i],
                messages[i],
                times[i],
            )
        }
}

proof fn lemma_run_versions(
    workspace_key: Address,
    ws: Seq<Workspace>,
    commits: Seq<VersionCommit>,
    hashes: Seq<[u8; 32]>,
    authors: Seq<Address>,
    messages: Seq<Seq<char>>,
    times: Seq<i64>,
    n: int,
)
    requires
        is_commit_run(workspace_key, ws, commits, hashes, authors, messages, times),
        0 <= n <= commits.len(),
    ensures
        ws[n].current_version == ws[0].current_version + n,
        ws[n].current_state_root == if n == 0 {
            ws[0].current_state_root
        } else {
            hashes[n - 1]
        },
    decreases n,
{
    if n > 0 {
        lemma_run_versions(workspace_key, ws, commits, hashes, authors, messages, times, n - 1);
        assert(ws[(n - 1) + 1] == advanced(ws[n - 1], hashes[n - 1]));
        assert(is_appended_commit(
            commits[n - 1],
            workspace_key,
            ws[n - 1],
            hashes[n - 1],
            authors[n - 1],
            messages[n - 1],
            times[n - 1],
        ));
    }
}

/// A freshly initialized workspace followed by N commits holds a hash chain
/// of N commits: the first commit's parent hash is the all-zero root the
/// workspace was created with, every later commit's parent hash is the
/// content hash of the commit before it, commit i carries version i, and the
/// workspace ends at version N with the last commit's content hash as its
/// state root.
pub proof fn lemma_commit_chain(
    org_key: Address,
    creator: Address,
    created_at: i64,
    workspace_key: Address,
    ws: Seq<Workspace>,
    commits: Seq<VersionCommit>,
    hashes: Seq<[u8; 32]>,
    authors: Seq<Address>,
    messages: Seq<Seq<char>>,
    times: Seq<i64>,
)
    requires
        is_new_workspace(ws[0], org_key, creator, created_at),
        is_commit_run(workspace_key, ws, commits, hashes, authors, messages, times),
    ensures
        commits.len() > 0 ==> is_zero_root(commits[0].parent_hash),
        forall|i: int|
            0 < i < commits.len() ==> #[trigger] commits[i].parent_hash == commits[i - 1].content_hash,
        forall|i: int|
            0 <= i < commits.len() ==> #[trigger] commits[i].version_number == i + 1,
        ws[commits.len() as int].current_version == commits.len(),
        commits.len() > 0 ==> ws[commits.len() as int].current_state_root == commits[commits.len()
            - 1].content_hash,
{
    let n = commits.len() as int;
    assert forall|i: int| 0 <= i < n implies #[trigger] commits[i].version_number == i + 1
        && commits[i].parent_hash == ws[i].current_state_root
        && commits[i].content_hash == hashes[i] by {
        lemma_run_versions(workspace_key, ws, commits, hashes, authors, messages, times, i);
        assert(ws[i + 1] == advanced(ws[i], hashes[i]));
    }
    assert forall|i: int| 0 < i < n implies #[trigger] commits[i].parent_hash == commits[i
        - 1].content_hash by {
        assert(ws[i + 1] == advanced(ws[i], hashes[i]));
        assert(ws[(i - 1) + 1] == advanced(ws[i - 1], hashes[i - 1]));
    }
    lemma_run_versions(workspace_key, ws, commits, hashes, authors, messages, times, n);
    if n > 0 {
        assert(ws[(n - 1) + 1] == advanced(ws[n - 1], hashes[n - 1]));
        assert(ws[0int + 1] == advanced(ws[0], hashes[0]));
    }
}

/// Forking a workspace at any version up to its current one yields a
/// workspace at exactly that version whose state root is the parent's
/// current state root, whatever root the parent had at that version.
pub proof fn lemma_fork_takes_current_root(
    program_id: Address,
    creator: Caller,
    parent_key: Address,
    parent: Workspace,
    fork_key: Address,
    org_key: Address,
    fork_workspace_id: Seq<char>,
    fork_at_version: u64,
    now: i64,
)
    requires
        creator.is_signer,
        parent.is_initialized,
        fork_at_version <= parent.current_version,
        org_key == parent.organization,
        derives(workspace_seeds(org_key@, fork_workspace_id), program_id, fork_key),
    ensures
        create_fork_outcome(
            program_id,
            creator,
            parent_key,
            parent,
            fork_key,
            org_key,
            fork_workspace_id,
            fork_at_version,
            now,
        ) matches Ok(w) && w.current_version == fork_at_version && w.current_state_root
            == parent.current_state_root && w.parent_workspace == Some(parent_key)
            && w.fork_at_version == Some(fork_at_version),
{
}

/// A pull request only moves Open to Approved (by approval) and Approved to
/// Merged (by merging). Approving one that is not open fails with
/// `InvalidPRState`, merging one that is not approved fails with
/// `PRNotApproved` (given a target workspace), and either failure leaves
/// every account unchanged.
pub proof fn lemma_pull_request_status(
    program_id: Address,
    pre: Seq<Account>,
    instruction: VeriflowInstruction,
    now: i64,
    r: Result<(), ProcessError>,
    post: Seq<Account>,
)
    requires
        pre.len() >= instruction.spec_account_count(),
        instruction_result(program_id, pre, instruction, now, r, post),
        pre[0].is_signer,
        pre[1].data matches AccountData::PullRequest(pr) && pr.is_initialized,
    ensures
        ({
            let pr = pre[1].data->PullRequest_0;
            &&& instruction is ApprovePullRequest ==> {
                &&& pr.status != PRStatus::Open ==> r == Err::<(), ProcessError>(
                    ProcessError::Custom(VeriflowError::InvalidPRState),
                ) && post == pre
                &&& r is Ok ==> pr.status == PRStatus::Open && (post[1].data matches AccountData::PullRequest(p)
                    && p.status == PRStatus::Approved)
            }
            &&& instruction is MergePullRequest && pre[2].data is Workspace ==> {
                &&& pr.status != PRStatus::Approved ==> r == Err::<(), ProcessError>(
                    ProcessError::Custom(VeriflowError::PRNotApproved),
                ) && post == pre
                &&& r is Ok ==> pr.status == PRStatus::Approved && (post[1].data matches AccountData::PullRequest(p)
                    && p.status == PRStatus::Merged)
            }
        }),
{
    let pr = pre[1].data->PullRequest_0;
    let reviewer = crate::processor::caller_of(pre[0]);
    if instruction is ApprovePullRequest {
        if r is Ok {
            let p = approve_pull_request_outcome(reviewer, pr, now)->Ok_0;
            assert(post[1].data == AccountData::PullRequest(p));
        }
    }
    if instruction is MergePullRequest {
        if r is Ok {
            let merged = PullRequest { status: PRStatus::Merged, ..pr };
            assert(post[1].data == AccountData::PullRequest(merged));
        }
    }
}

/// The seeds of the record an operation creates, and the role that must
/// hold its address; `None` for an operation that creates none.
pub open spec fn created_record(pre: Seq<Account>, instruction: VeriflowInstruction, now: i64) -> Option<(Seq<Seq<u8>>, int)> {
    match instruction {
        VeriflowInstruction::InitializeOrganization { org_slug } => Some((org_seeds(org_slug@), 1)),
        VeriflowInstruction::InitializeWorkspace { workspace_id, .. } => Some(
            (workspace_seeds(pre[2].key@, workspace_id@), 1),
        ),
        VeriflowInstruction::CommitVersion { .. } => match pre[1].data {
            AccountData::Workspace(w) => Some(
                (version_seeds(pre[1].key@, (w.current_version + 1) as u64), 2),
            ),
            _ => None,
        },
        VeriflowInstruction::CreateFork { fork_workspace_id, .. } => Some(
            (workspace_seeds(pre[3].key@, fork_workspace_id@), 2),
        ),
        VeriflowInstruction::CreatePullRequest { .. } => Some((pr_seeds(pre[1].key@, pre[2].key@), 3)),
        VeriflowInstruction::ApprovePullRequest => None,
        VeriflowInstruction::MergePullRequest { .. } => match pre[2].data {
            AccountData::Workspace(w) => Some(
                (version_seeds(pre[2].key@, (w.current_version + 1) as u64), 3),
            ),
            _ => None,
        },
        VeriflowInstruction::RecordExecution { .. } => Some(
            (execution_seeds(pre[1].key@, now as u64), 2),
        ),
    }
}

/// An operation whose new record would be stored at an address other than
/// the one derived from its identifiers fails and changes no account.
pub proof fn lemma_tampered_address_rejected(
    program_id: Address,
    pre: Seq<Account>,
    instruction: VeriflowInstruction,
    now: i64,
    r: Result<(), ProcessError>,
    post: Seq<Account>,
)
    requires
        pre.len() >= instruction.spec_account_count(),
        instruction_result(program_id, pre, instruction, now, r, post),
        created_record(pre, instruction, now) matches Some((seeds, role)) && !derives(
            seeds,
            program_id,
            pre[role].key,
        ),
    ensures
        r is Err,
        post == pre,
{
}

/// Deriving the address of the same identifiers twice gives the same
/// address.
pub proof fn lemma_derivation_deterministic(a: RecordSeeds, b: RecordSeeds, program_id: Seq<u8>)
    requires
        a.spec_seeds() == b.spec_seeds(),
    ensures
        a.spec_address(program_id) == b.spec_address(program_id),
{
}

/// Whether a role that names an existing record disagrees with the record
/// the operation relies on: a merge whose target account is not the pull
/// request's target workspace, or a fork whose organization account is not
/// the parent's organization.
pub open spec fn foreign_role(pre: Seq<Account>, instruction: VeriflowInstruction) -> bool {
    match instruction {
        VeriflowInstruction::MergePullRequest { .. } => pre[1].data matches AccountData::PullRequest(
            pr,
        ) && pre[2].key@ != pr.target_workspace@,
        VeriflowInstruction::CreateFork { .. } => pre[1].data matches AccountData::Workspace(parent)
            && pre[3].key@ != parent.organization@,
        _ => false,
    }
}

/// An operation handed a foreign record for one of its roles fails and
/// changes no account; once the caller has signed and the records it reads
/// are valid, it fails with `InvalidSeeds`.
pub proof fn lemma_foreign_role_rejected(
    program_id: Address,
    pre: Seq<Account>,
    instruction: VeriflowInstruction,
    now: i64,
    r: Result<(), ProcessError>,
    post: Seq<Account>,
)
    requires
        pre.len() >= instruction.spec_account_count(),
        instruction_result(program_id, pre, instruction, now, r, post),
        foreign_role(pre, instruction),
    ensures
        r is Err,
        post == pre,
        instruction is MergePullRequest && pre[0].is_signer && pre[2].data is Workspace && (
        pre[1].data matches AccountData::PullRequest(pr) && pr.is_initialized && pr.status
            == PRStatus::Approved) ==> r == Err::<(), ProcessError>(ProcessError::InvalidSeeds),
        instruction is CreateFork && pre[0].is_signer && (pre[1].data matches AccountData::Workspace(
            parent,
        ) && parent.is_initialized && instruction->fork_at_version <= parent.current_version) ==> r
            == Err::<(), ProcessError>(ProcessError::InvalidSeeds),
{
}

/// Two commits that agree in every field, their messages character for
/// character.
pub open spec fn same_commit(a: VersionCommit, b: VersionCommit) -> bool {
    &&& a.is_initialized == b.is_initialized
    &&& a.workspace == b.workspace
    &&& a.version_number == b.version_number
    &&& a.content_hash == b.content_hash
    &&& a.parent_hash == b.parent_hash
    &&& a.author == b.author
    &&& a.timestamp == b.timestamp
    &&& a.message@ == b.message@
}

pub open spec fn same_data(a: AccountData, b: AccountData) -> bool {
    match (a, b) {
        (AccountData::VersionCommit(x), AccountData::VersionCommit(y)) => same_commit(x, y),
        _ => a == b,
    }
}

/// Two account lists that hold the same accounts with the same contents.
pub open spec fn accounts_agree(a: Seq<Account>, b: Seq<Account>) -> bool {
    &&& a.len() == b.len()
    &&& forall|i: int|
        0 <= i < a.len() ==> {
            &&& #[trigger] a[i].key == b[i].key
            &&& a[i].is_signer == b[i].is_signer
            &&& same_data(a[i].data, b[i].data)
        }
}

proof fn lemma_same_data_refl(d: AccountData)
    ensures
        same_data(d, d),
{
}

/// Processing is deterministic: the same operation on the same accounts at
/// the same time gives the same result and leaves the accounts with the
/// same contents, every address it checks being derived the same way each
/// time.
pub proof fn lemma_processing_deterministic(
    program_id: Address,
    pre: Seq<Account>,
    instruction: VeriflowInstruction,
    now: i64,
    r1: Result<(), ProcessError>,
    post1: Seq<Account>,
    r2: Result<(), ProcessError>,
    post2: Seq<Account>,
)
    requires
        process_result(program_id, pre, instruction, now, r1, post1),
        process_result(program_id, pre, instruction, now, r2, post2),
    ensures
        r1 == r2,
        accounts_agree(post1, post2),
{
    assert forall|d: AccountData| #[trigger] same_data(d, d) by {
        lemma_same_data_refl(d);
    }
    if r1 is Ok && r2 is Ok {
        assert(r1->Ok_0 == ());
        assert(r2->Ok_0 == ());
        assert(r1 == r2);
    }
    if pre.len() >= instruction.spec_account_count() {
        match instruction {
            VeriflowInstruction::InitializeWorkspace { .. } => {
                if r1 is Ok {
                    let w1 = post1[1].data->Workspace_0;
                    let w2 = post2[1].data->Workspace_0;
                    assert(w1.current_state_root =~= w2.current_state_root);
                    assert(w1 == w2);
                    assert(post1 == post2);
                }
            },
            _ => {},
        }
    }
    assert forall|i: int| 0 <= i < post1.len() implies {
        &&& #[trigger] post1[i].key == post2[i].key
        &&& post1[i].is_signer == post2[i].is_signer
        &&& same_data(post1[i].data, post2[i].data)
    } by {
        if post1 == post2 {
            assert(same_data(post1[i].data, post1[i].data));
        }
    }
}

} // verus!
