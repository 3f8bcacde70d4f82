use veriflow::layout::{
    decode_organization, decode_pull_request, decode_workspace, encode_execution_log,
    encode_organization, encode_pull_request, encode_version_commit, encode_workspace,
};
use veriflow::{ExecutionLog, Organization, PRStatus, PullRequest, VersionCommit, Workspace};

fn fork() -> Workspace {
    Workspace {
        is_initialized: true,
        organization: [1u8; 32],
        creator: [2u8; 32],
        current_version: 0x0102,
        current_state_root: [3u8; 32],
        parent_workspace: Some([4u8; 32]),
        fork_at_version: Some(7),
        created_at: -2,
    }
}

fn approved() -> PullRequest {
    PullRequest {
        is_initialized: true,
        source_workspace: [1u8; 32],
        target_workspace: [2u8; 32],
        source_version_hash: [3u8; 32],
        target_version_hash: [4u8; 32],
        proposer: [5u8; 32],
        reviewer: Some([6u8; 32]),
        status: PRStatus::Approved,
        created_at: 100,
        reviewed_at: Some(200),
    }
}

#[test]
fn organization_bytes_are_flag_owner_time_count() {
    let o = Organization { is_initialized: true, owner: [9u8; 32], created_at: 1, workspace_count: 2 };
    let b = encode_organization(&o);
    assert_eq!(b.len(), Organization::LEN);
    assert_eq!(b[0], 1);
    assert_eq!(&b[1..33], &[9u8; 32]);
    assert_eq!(&b[33..41], &1i64.to_le_bytes());
    assert_eq!(&b[41..49], &2u64.to_le_bytes());
    assert_eq!(decode_organization(&b), Some(o));
}

#[test]
fn workspace_round_trip_and_fixed_size() {
    let w = fork();
    let b = encode_workspace(&w);
    assert_eq!(b.len(), Workspace::LEN);
    assert_eq!(b[105], 1);
    assert_eq!(b[138], 1);
    assert_eq!(&b[147..155], &(-2i64).to_le_bytes());
    assert_eq!(decode_workspace(&b), Some(w));

    let main = Workspace { parent_workspace: None, fork_at_version: None, ..fork() };
    let b = encode_workspace(&main);
    assert_eq!(b.len(), Workspace::LEN);
    assert_eq!(b[105], 0);
    assert!(b[106..138].iter().all(|x| *x == 0));
    assert_eq!(decode_workspace(&b), Some(main));
}

#[test]
fn workspace_with_dirty_absent_field_is_refused() {
    let main = Workspace { parent_workspace: None, ..fork() };
    let mut b = encode_workspace(&main);
    b[110] = 5;
    assert_eq!(decode_workspace(&b), None);
}

#[test]
fn truncated_or_bad_flag_bytes_are_refused() {
    let o = Organization { is_initialized: false, owner: [0u8; 32], created_at: 0, workspace_count: 0 };
    let b = encode_organization(&o);
    assert_eq!(decode_organization(&b[..48]), None);
    let mut bad = b.clone();
    bad[0] = 2;
    assert_eq!(decode_organization(&bad), None);
    assert_eq!(decode_organization(&b), Some(o));
}

#[test]
fn pull_request_round_trip() {
    let p = approved();
    let b = encode_pull_request(&p);
    assert_eq!(b.len(), PullRequest::LEN);
    assert_eq!(b[194], 1);
    assert_eq!(decode_pull_request(&b), Some(p));
    let open = PullRequest { reviewer: None, reviewed_at: None, status: PRStatus::Open, ..approved() };
    let b = encode_pull_request(&open);
    assert_eq!(b.len(), PullRequest::LEN);
    assert_eq!(decode_pull_request(&b), Some(open));
}

#[test]
fn unknown_status_byte_is_refused() {
    let mut b = encode_pull_request(&approved());
    b[194] = 4;
    assert_eq!(decode_pull_request(&b), None);
}

#[test]
fn commit_message_is_length_prefixed_and_padded() {
    let c = VersionCommit {
        is_initialized: true,
        workspace: [1u8; 32],
        version_number: 3,
        content_hash: [2u8; 32],
        parent_hash: [3u8; 32],
        author: [4u8; 32],
        timestamp: 5,
        message: "hi".to_string(),
    };
    let b = encode_version_commit(&c).expect("message fits");
    assert_eq!(b.len(), VersionCommit::LEN);
    assert_eq!(&b[145..149], &2u32.to_le_bytes());
    assert_eq!(&b[149..151], b"hi");
    assert!(b[151..].iter().all(|x| *x == 0));

    let wide = VersionCommit { message: "é".repeat(64), ..c };
    assert_eq!(encode_version_commit(&wide), None);
}

#[test]
fn execution_log_bytes() {
    let l = ExecutionLog {
        is_initialized: true,
        workspace: [1u8; 32],
        executor: [2u8; 32],
        version_hash: [3u8; 32],
        result_hash: [4u8; 32],
        timestamp: 9,
    };
    let b = encode_execution_log(&l);
    assert_eq!(b.len(), ExecutionLog::LEN);
    assert_eq!(&b[129..137], &9i64.to_le_bytes());
}
