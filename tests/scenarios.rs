use veriflow::address::RecordSeeds;
use veriflow::processor::{process_instruction, Account, AccountData};
use veriflow::{PRStatus, ProcessError, VeriflowError, VeriflowInstruction};

const PROGRAM: [u8; 32] = [7u8; 32];
const OWNER: [u8; 32] = [1u8; 32];
const H1: [u8; 32] = [0x11u8; 32];
const H2: [u8; 32] = [0x22u8; 32];
const H3: [u8; 32] = [0x33u8; 32];

fn addr(seeds: RecordSeeds) -> [u8; 32] {
    seeds.derive_address(&PROGRAM).expect("derivable seeds").0
}

fn signer() -> Account {
    Account { key: OWNER, is_signer: true, data: AccountData::Empty }
}

fn empty(key: [u8; 32]) -> Account {
    Account { key, is_signer: false, data: AccountData::Empty }
}

fn system() -> Account {
    empty([0u8; 32])
}

fn org_key() -> [u8; 32] {
    addr(RecordSeeds::Organization { org_slug: "acme".to_string() })
}

fn ws_key(id: &str) -> [u8; 32] {
    addr(RecordSeeds::Workspace { organization: org_key(), workspace_id: id.to_string() })
}

fn version_key(ws: [u8; 32], n: u64) -> [u8; 32] {
    addr(RecordSeeds::VersionCommit { workspace: ws, version_number: n })
}

/// The ledger of the scenario: a list of accounts, looked up by key.
struct Ledger {
    accounts: Vec<Account>,
}

impl Ledger {
    fn new() -> Ledger {
        Ledger { accounts: Vec::new() }
    }

    fn get(&self, key: [u8; 32]) -> Account {
        self.accounts
            .iter()
            .find(|a| a.key == key)
            .cloned()
            .unwrap_or_else(|| empty(key))
    }

    fn put(&mut self, a: Account) {
        self.accounts.retain(|b| b.key != a.key);
        if !a.is_signer {
            self.accounts.push(a);
        }
    }

    fn run(&mut self, roles: Vec<Account>, ix: VeriflowInstruction, now: i64) -> Result<(), ProcessError> {
        let mut accounts = roles;
        let r = process_instruction(&PROGRAM, &mut accounts, &ix, now);
        for a in accounts {
            if a.key != OWNER && a.key != [0u8; 32] {
                self.put(a);
            }
        }
        r
    }

    fn workspace(&self, key: [u8; 32]) -> veriflow::Workspace {
        match self.get(key).data {
            AccountData::Workspace(w) => w,
            other => panic!("not a workspace: {:?}", other),
        }
    }

    fn commit(&self, key: [u8; 32]) -> veriflow::VersionCommit {
        match self.get(key).data {
            AccountData::VersionCommit(c) => c,
            other => panic!("not a commit: {:?}", other),
        }
    }

    fn pull_request(&self, key: [u8; 32]) -> veriflow::PullRequest {
        match self.get(key).data {
            AccountData::PullRequest(p) => p,
            other => panic!("not a pull request: {:?}", other),
        }
    }

    fn init_org(&mut self) {
        let roles = vec![signer(), self.get(org_key()), system()];
        let r = self.run(roles, VeriflowInstruction::InitializeOrganization { org_slug: "acme".to_string() }, 100);
        assert_eq!(r, Ok(()));
    }

    fn init_workspace(&mut self, id: &str) {
        let roles = vec![signer(), self.get(ws_key(id)), self.get(org_key()), system()];
        let ix = VeriflowInstruction::InitializeWorkspace { workspace_id: id.to_string(), name: id.to_string() };
        assert_eq!(self.run(roles, ix, 101), Ok(()));
    }

    fn commit_version(&mut self, ws: [u8; 32], hash: [u8; 32], msg: &str, now: i64) -> Result<(), ProcessError> {
        let next = self.workspace(ws).current_version + 1;
        let roles = vec![signer(), self.get(ws), self.get(version_key(ws, next)), system()];
        let ix = VeriflowInstruction::CommitVersion { content_hash: hash, message: msg.to_string() };
        self.run(roles, ix, now)
    }

    fn fork(&mut self, parent: [u8; 32], id: &str, at: u64) -> Result<(), ProcessError> {
        let roles = vec![signer(), self.get(parent), self.get(ws_key(id)), self.get(org_key()), system()];
        let ix = VeriflowInstruction::CreateFork { fork_workspace_id: id.to_string(), fork_at_version: at, name: id.to_string() };
        self.run(roles, ix, 200)
    }
}

fn pr_key(source: [u8; 32], target: [u8; 32]) -> [u8; 32] {
    addr(RecordSeeds::PullRequest { source_workspace: source, target_workspace: target })
}

/// Organization "acme", workspace "main" with commits H1 and H2, and the
/// fork "feature" taken at version 1.
fn acme_with_fork() -> Ledger {
    let mut l = Ledger::new();
    l.init_org();
    l.init_workspace("main");
    let main = ws_key("main");
    assert_eq!(l.commit_version(main, H1, "first", 102), Ok(()));
    assert_eq!(l.commit_version(main, H2, "second", 103), Ok(()));
    assert_eq!(l.fork(main, "feature", 1), Ok(()));
    l
}

#[test]
fn acme_commit_and_fork_scenario() {
    let mut l = Ledger::new();
    l.init_org();
    l.init_workspace("main");
    let main = ws_key("main");
    let w = l.workspace(main);
    assert_eq!(w.current_version, 0);
    assert_eq!(w.current_state_root, [0u8; 32]);
    assert_eq!(w.parent_workspace, None);

    assert_eq!(l.commit_version(main, H1, "first", 102), Ok(()));
    let w = l.workspace(main);
    assert_eq!(w.current_version, 1);
    assert_eq!(w.current_state_root, H1);
    let c1 = l.commit(version_key(main, 1));
    assert_eq!(c1.parent_hash, [0u8; 32]);
    assert_eq!(c1.content_hash, H1);

    assert_eq!(l.commit_version(main, H2, "second", 103), Ok(()));
    let w = l.workspace(main);
    assert_eq!(w.current_version, 2);
    assert_eq!(w.current_state_root, H2);
    let c2 = l.commit(version_key(main, 2));
    assert_eq!(c2.parent_hash, H1);
    assert_eq!(c2.version_number, 2);
    assert_eq!(c2.message, "second");

    assert_eq!(l.fork(main, "feature", 1), Ok(()));
    let f = l.workspace(ws_key("feature"));
    assert_eq!(f.current_version, 1);
    // The fork takes the parent's current root, not the root at version 1.
    assert_eq!(f.current_state_root, H2);
    assert_eq!(f.parent_workspace, Some(main));
    assert_eq!(f.fork_at_version, Some(1));
}

#[test]
fn commit_chain_links_every_version() {
    let mut l = Ledger::new();
    l.init_org();
    l.init_workspace("main");
    let main = ws_key("main");
    let hashes: Vec<[u8; 32]> = (1u8..=5).map(|i| [i; 32]).collect();
    for (i, h) in hashes.iter().enumerate() {
        assert_eq!(l.commit_version(main, *h, "step", 110 + i as i64), Ok(()));
    }
    for n in 1..=5u64 {
        let c = l.commit(version_key(main, n));
        assert_eq!(c.version_number, n);
        assert_eq!(c.content_hash, hashes[(n - 1) as usize]);
        let expected_parent = if n == 1 { [0u8; 32] } else { hashes[(n - 2) as usize] };
        assert_eq!(c.parent_hash, expected_parent);
    }
    let w = l.workspace(main);
    assert_eq!(w.current_version, 5);
    assert_eq!(w.current_state_root, hashes[4]);
}

#[test]
fn pull_request_approve_merge_scenario() {
    let mut l = acme_with_fork();
    let main = ws_key("main");
    let feature = ws_key("feature");
    let pr = pr_key(feature, main);
    let roles = vec![signer(), l.get(feature), l.get(main), l.get(pr), system()];
    let ix = VeriflowInstruction::CreatePullRequest { title: "t".to_string(), source_version_hash: H2, target_version_hash: H2 };
    assert_eq!(l.run(roles, ix, 300), Ok(()));
    assert_eq!(l.pull_request(pr).status, PRStatus::Open);
    assert_eq!(l.pull_request(pr).reviewer, None);

    let roles = vec![signer(), l.get(pr), l.get(org_key())];
    assert_eq!(l.run(roles, VeriflowInstruction::ApprovePullRequest, 301), Ok(()));
    let p = l.pull_request(pr);
    assert_eq!(p.status, PRStatus::Approved);
    assert_eq!(p.reviewer, Some(OWNER));
    assert_eq!(p.reviewed_at, Some(301));

    let before = l.workspace(main);
    let vkey = version_key(main, before.current_version + 1);
    let roles = vec![signer(), l.get(pr), l.get(main), l.get(vkey), l.get(org_key()), system()];
    let ix = VeriflowInstruction::MergePullRequest { merge_commit_hash: H3, message: "merge".to_string() };
    assert_eq!(l.run(roles, ix, 302), Ok(()));
    let after = l.workspace(main);
    assert_eq!(after.current_version, before.current_version + 1);
    assert_eq!(after.current_state_root, H3);
    let mc = l.commit(vkey);
    assert_eq!(mc.parent_hash, before.current_state_root);
    assert_eq!(mc.content_hash, H3);
    assert_eq!(l.pull_request(pr).status, PRStatus::Merged);
}

#[test]
fn approve_twice_fails_and_keeps_record() {
    let mut l = acme_with_fork();
    let main = ws_key("main");
    let feature = ws_key("feature");
    let pr = pr_key(feature, main);
    let roles = vec![signer(), l.get(feature), l.get(main), l.get(pr), system()];
    let ix = VeriflowInstruction::CreatePullRequest { title: "t".to_string(), source_version_hash: H2, target_version_hash: H1 };
    assert_eq!(l.run(roles, ix, 300), Ok(()));
    let roles = vec![signer(), l.get(pr), l.get(org_key())];
    assert_eq!(l.run(roles, VeriflowInstruction::ApprovePullRequest, 301), Ok(()));
    let approved = l.pull_request(pr);
    let roles = vec![signer(), l.get(pr), l.get(org_key())];
    assert_eq!(
        l.run(roles, VeriflowInstruction::ApprovePullRequest, 999),
        Err(ProcessError::Custom(VeriflowError::InvalidPRState))
    );
    assert_eq!(l.pull_request(pr), approved);
}

#[test]
fn merge_open_pull_request_fails_unchanged() {
    let mut l = acme_with_fork();
    let main = ws_key("main");
    let feature = ws_key("feature");
    let pr = pr_key(feature, main);
    let roles = vec![signer(), l.get(feature), l.get(main), l.get(pr), system()];
    let ix = VeriflowInstruction::CreatePullRequest { title: "t".to_string(), source_version_hash: H2, target_version_hash: H1 };
    assert_eq!(l.run(roles, ix, 300), Ok(()));
    let before_pr = l.pull_request(pr);
    let before_ws = l.workspace(main);
    let vkey = version_key(main, before_ws.current_version + 1);
    let roles = vec![signer(), l.get(pr), l.get(main), l.get(vkey), l.get(org_key()), system()];
    let ix = VeriflowInstruction::MergePullRequest { merge_commit_hash: H3, message: "m".to_string() };
    assert_eq!(l.run(roles, ix, 301), Err(ProcessError::Custom(VeriflowError::PRNotApproved)));
    assert_eq!(l.pull_request(pr), before_pr);
    assert_eq!(l.workspace(main), before_ws);
    assert!(matches!(l.get(vkey).data, AccountData::Empty));
}

#[test]
fn fork_beyond_current_version_fails() {
    let mut l = acme_with_fork();
    let main = ws_key("main");
    assert_eq!(l.fork(main, "late", 3), Err(ProcessError::Custom(VeriflowError::InvalidVersion)));
    assert!(matches!(l.get(ws_key("late")).data, AccountData::Empty));
    assert_eq!(l.fork(main, "late", 2), Ok(()));
    assert_eq!(l.workspace(ws_key("late")).current_version, 2);
}

#[test]
fn tampered_workspace_address_is_rejected() {
    let mut l = Ledger::new();
    l.init_org();
    let wrong = ws_key("other");
    let roles = vec![signer(), l.get(wrong), l.get(org_key()), system()];
    let ix = VeriflowInstruction::InitializeWorkspace { workspace_id: "main".to_string(), name: "main".to_string() };
    assert_eq!(l.run(roles, ix, 101), Err(ProcessError::InvalidSeeds));
    assert!(matches!(l.get(wrong).data, AccountData::Empty));
}

#[test]
fn tampered_version_address_is_rejected() {
    let mut l = Ledger::new();
    l.init_org();
    l.init_workspace("main");
    let main = ws_key("main");
    let before = l.workspace(main);
    let skipped = version_key(main, 2);
    let roles = vec![signer(), l.get(main), l.get(skipped), system()];
    let ix = VeriflowInstruction::CommitVersion { content_hash: H1, message: "m".to_string() };
    assert_eq!(l.run(roles, ix, 102), Err(ProcessError::InvalidSeeds));
    assert_eq!(l.workspace(main), before);
}

#[test]
fn unsigned_caller_is_rejected() {
    let mut l = Ledger::new();
    let mut payer = signer();
    payer.is_signer = false;
    let roles = vec![payer, l.get(org_key()), system()];
    let r = l.run(roles, VeriflowInstruction::InitializeOrganization { org_slug: "acme".to_string() }, 1);
    assert_eq!(r, Err(ProcessError::MissingRequiredSignature));
}

#[test]
fn non_owner_cannot_create_workspace() {
    let mut l = Ledger::new();
    l.init_org();
    let stranger = Account { key: [9u8; 32], is_signer: true, data: AccountData::Empty };
    let roles = vec![stranger, l.get(ws_key("main")), l.get(org_key()), system()];
    let ix = VeriflowInstruction::InitializeWorkspace { workspace_id: "main".to_string(), name: "main".to_string() };
    assert_eq!(l.run(roles, ix, 101), Err(ProcessError::Custom(VeriflowError::NotAuthorized)));
}

#[test]
fn uninitialized_organization_is_rejected() {
    let mut l = Ledger::new();
    let org = Account {
        key: org_key(),
        is_signer: false,
        data: AccountData::Organization(veriflow::Organization {
            is_initialized: false,
            owner: OWNER,
            created_at: 0,
            workspace_count: 0,
        }),
    };
    let roles = vec![signer(), l.get(ws_key("main")), org, system()];
    let ix = VeriflowInstruction::InitializeWorkspace { workspace_id: "main".to_string(), name: "main".to_string() };
    assert_eq!(l.run(roles, ix, 101), Err(ProcessError::Custom(VeriflowError::InvalidWorkspaceState)));
}

#[test]
fn missing_accounts_are_rejected() {
    let mut l = Ledger::new();
    let roles = vec![signer()];
    assert_eq!(l.run(roles, VeriflowInstruction::ApprovePullRequest, 1), Err(ProcessError::NotEnoughAccountKeys));
}

#[test]
fn wrong_record_kind_is_rejected() {
    let mut l = Ledger::new();
    l.init_org();
    let roles = vec![signer(), l.get(org_key()), empty([5u8; 32]), system()];
    let ix = VeriflowInstruction::CommitVersion { content_hash: H1, message: "m".to_string() };
    assert_eq!(l.run(roles, ix, 1), Err(ProcessError::InvalidAccountData));
}

#[test]
fn organization_created_twice_is_refused() {
    let mut l = Ledger::new();
    l.init_org();
    let roles = vec![signer(), l.get(org_key()), system()];
    let r = l.run(roles, VeriflowInstruction::InitializeOrganization { org_slug: "acme".to_string() }, 5);
    assert_eq!(r, Err(ProcessError::AccountAlreadyInitialized));
}

#[test]
fn execution_is_recorded_at_timestamp_address() {
    let mut l = Ledger::new();
    l.init_org();
    l.init_workspace("main");
    let main = ws_key("main");
    let key = addr(RecordSeeds::ExecutionLog { workspace: main, execution_id: 500 });
    let roles = vec![signer(), l.get(main), l.get(key), system()];
    let ix = VeriflowInstruction::RecordExecution { version_hash: H1, result_hash: H2 };
    assert_eq!(l.run(roles, ix.clone(), 500), Ok(()));
    match l.get(key).data {
        AccountData::ExecutionLog(log) => {
            assert_eq!(log.workspace, main);
            assert_eq!(log.executor, OWNER);
            assert_eq!(log.version_hash, H1);
            assert_eq!(log.result_hash, H2);
            assert_eq!(log.timestamp, 500);
        }
        other => panic!("not a log: {:?}", other),
    }
    // A second run in the same second collides with the first.
    let roles = vec![signer(), l.get(main), l.get(key), system()];
    assert_eq!(l.run(roles, ix.clone(), 500), Err(ProcessError::AccountAlreadyInitialized));
    // At another time the same address no longer matches.
    let roles = vec![signer(), l.get(main), l.get(key), system()];
    assert_eq!(l.run(roles, ix, 501), Err(ProcessError::InvalidSeeds));
}

#[test]
fn derivation_is_deterministic() {
    let a = RecordSeeds::PullRequest { source_workspace: [1u8; 32], target_workspace: [2u8; 32] };
    let b = RecordSeeds::PullRequest { source_workspace: [2u8; 32], target_workspace: [1u8; 32] };
    assert_eq!(a.derive_address(&PROGRAM), a.derive_address(&PROGRAM));
    assert_ne!(a.derive_address(&PROGRAM), b.derive_address(&PROGRAM));
    assert_ne!(a.derive_address(&PROGRAM).map(|d| d.0), Some(PROGRAM));
}

#[test]
fn derivation_agrees_with_the_ledger() {
    let program = solana_pubkey::Pubkey::new_from_array(PROGRAM);
    let (expected, bump) = solana_pubkey::Pubkey::find_program_address(&[b"org", b"acme"], &program);
    assert_eq!(org_key(), expected.to_bytes());
    let seeds = RecordSeeds::Organization { org_slug: "acme".to_string() };
    assert_eq!(seeds.derive_address(&PROGRAM), Some((expected.to_bytes(), bump)));
    let ws = [3u8; 32];
    let (expected, _bump) = solana_pubkey::Pubkey::find_program_address(&[b"version", &ws, &5u64.to_le_bytes()], &program);
    assert_eq!(version_key(ws, 5), expected.to_bytes());
}

#[test]
fn overlong_slug_derives_no_address() {
    let long = "x".repeat(33);
    let seeds = RecordSeeds::Organization { org_slug: long.clone() };
    assert_eq!(seeds.derive_address(&PROGRAM), None);
    let mut accounts = vec![signer(), empty([4u8; 32]), system()];
    let r = process_instruction(&PROGRAM, &mut accounts, &VeriflowInstruction::InitializeOrganization { org_slug: long }, 1);
    assert_eq!(r, Err(ProcessError::InvalidSeeds));
}

#[test]
fn seeds_are_tag_then_identifiers() {
    let s = RecordSeeds::ExecutionLog { workspace: [9u8; 32], execution_id: 0x0102 };
    let v = s.seeds();
    assert_eq!(v.len(), 3);
    assert_eq!(v[0], b"execution".to_vec());
    assert_eq!(v[1], vec![9u8; 32]);
    assert_eq!(v[2], vec![2u8, 1, 0, 0, 0, 0, 0, 0]);
    let s = RecordSeeds::Workspace { organization: [8u8; 32], workspace_id: "main".to_string() };
    let v = s.seeds();
    assert_eq!(v[0], b"workspace".to_vec());
    assert_eq!(v[2], b"main".to_vec());
}

#[test]
fn merge_into_another_workspace_is_rejected() {
    let mut l = acme_with_fork();
    let main = ws_key("main");
    let feature = ws_key("feature");
    let pr = pr_key(feature, main);
    let roles = vec![signer(), l.get(feature), l.get(main), l.get(pr), system()];
    let ix = VeriflowInstruction::CreatePullRequest { title: "t".to_string(), source_version_hash: H2, target_version_hash: H2 };
    assert_eq!(l.run(roles, ix, 300), Ok(()));
    let roles = vec![signer(), l.get(pr), l.get(org_key())];
    assert_eq!(l.run(roles, VeriflowInstruction::ApprovePullRequest, 301), Ok(()));
    let before_pr = l.pull_request(pr);
    let before_feature = l.workspace(feature);
    // The pull request targets `main`; hand it `feature` instead.
    let vkey = version_key(feature, before_feature.current_version + 1);
    let roles = vec![signer(), l.get(pr), l.get(feature), l.get(vkey), l.get(org_key()), system()];
    let ix = VeriflowInstruction::MergePullRequest { merge_commit_hash: H3, message: "m".to_string() };
    assert_eq!(l.run(roles, ix, 302), Err(ProcessError::InvalidSeeds));
    assert_eq!(l.pull_request(pr), before_pr);
    assert_eq!(l.workspace(feature), before_feature);
    assert!(matches!(l.get(vkey).data, AccountData::Empty));
}

#[test]
fn fork_under_another_organization_is_rejected() {
    let mut l = acme_with_fork();
    let main = ws_key("main");
    let beta = addr(RecordSeeds::Organization { org_slug: "beta".to_string() });
    let roles = vec![signer(), l.get(beta), system()];
    let r = l.run(roles, VeriflowInstruction::InitializeOrganization { org_slug: "beta".to_string() }, 150);
    assert_eq!(r, Ok(()));
    let fork_key = addr(RecordSeeds::Workspace { organization: beta, workspace_id: "stolen".to_string() });
    let roles = vec![signer(), l.get(main), l.get(fork_key), l.get(beta), system()];
    let ix = VeriflowInstruction::CreateFork { fork_workspace_id: "stolen".to_string(), fork_at_version: 1, name: "s".to_string() };
    assert_eq!(l.run(roles, ix, 200), Err(ProcessError::InvalidSeeds));
    assert!(matches!(l.get(fork_key).data, AccountData::Empty));
}

#[test]
fn commit_message_too_wide_to_store_is_rejected() {
    let mut l = Ledger::new();
    l.init_org();
    l.init_workspace("main");
    let main = ws_key("main");
    let before = l.workspace(main);
    let wide = "é".repeat(40);
    assert_eq!(l.commit_version(main, H1, &wide, 102), Err(ProcessError::AccountDataTooSmall));
    assert_eq!(l.workspace(main), before);
    assert!(matches!(l.get(version_key(main, 1)).data, AccountData::Empty));
    // Sixty-four one-byte characters still fit.
    let ascii = "a".repeat(80);
    assert_eq!(l.commit_version(main, H1, &ascii, 103), Ok(()));
    assert_eq!(l.commit(version_key(main, 1)).message, "a".repeat(64));
}
