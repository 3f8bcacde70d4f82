//! The stored byte layout of each record: a one-byte initialized flag,
//! then the fields in declaration order at fixed widths. Integers are
//! little-endian; an optional field is a presence byte followed by its
//! payload, zero-filled when absent, so that every record of a kind has
//! the same size; the commit message is a four-byte length, its bytes, and
//! zero fill up to `VersionCommit::MAX_MESSAGE_LEN` bytes.

use crate::address::{string_bytes, Address};
use crate::state::{ExecutionLog, Organization, PRStatus, PullRequest, VersionCommit, Workspace};
use vstd::bytes::{
    lemma_auto_spec_u32_to_from_le_bytes, lemma_auto_spec_u64_to_from_le_bytes,
    spec_u32_to_le_bytes, spec_u64_from_le_bytes, spec_u64_to_le_bytes, u32_to_le_bytes,
    u64_from_le_bytes,
    u64_to_le_bytes,
};
use vstd::prelude::*;
use vstd::utf8::encode_utf8;

verus! {

pub open spec fn zeros(n: nat) -> Seq<u8> {
    Seq::new(n, |i: int| 0u8)
}

pub open spec fn flag_bytes(b: bool) -> Seq<u8> {
    seq![if b { 1u8 } else { 0u8 }]
}

pub open spec fn i64_bytes(v: i64) -> Seq<u8> {
    spec_u64_to_le_bytes(v as u64)
}

pub open spec fn opt_key_bytes(o: Option<Address>) -> Seq<u8> {
    match o {
        Some(k) => seq![1u8] + k@,
        None => seq![0u8] + zeros(32),
    }
}

pub open spec fn opt_u64_bytes(o: Option<u64>) -> Seq<u8> {
    match o {
        Some(v) => seq![1u8] + spec_u64_to_le_bytes(v),
        None => seq![0u8] + zeros(8),
    }
}

pub open spec fn opt_i64_bytes(o: Option<i64>) -> Seq<u8> {
    match o {
        Some(v) => seq![1u8] + i64_bytes(v),
        None => seq![0u8] + zeros(8),
    }
}

pub open spec fn status_byte(s: PRStatus) -> u8 {
    match s {
        PRStatus::Open => 0,
        PRStatus::Approved => 1,
        PRStatus::Merged => 2,
        PRStatus::Rejected => 3,
    }
}

pub open spec fn organization_bytes(o: Organization) -> Seq<u8> {
    flag_bytes(o.is_initialized) + o.owner@ + i64_bytes(o.created_at) + spec_u64_to_le_bytes(
        o.workspace_count,
    )
}

pub open spec fn workspace_bytes(w: Workspace) -> Seq<u8> {
    flag_bytes(w.is_initialized) + w.organization@ + w.creator@ + spec_u64_to_le_bytes(
        w.current_version,
    ) + w.current_state_root@ + opt_key_bytes(w.parent_workspace) + opt_u64_bytes(
        w.fork_at_version,
    ) + i64_bytes(w.created_at)
}

/// The stored message: its length, its bytes, zero fill to 64 bytes.
pub open spec fn message_bytes(m: Seq<char>) -> Seq<u8> {
    spec_u32_to_le_bytes(encode_utf8(m).len() as u32) + encode_utf8(m) + zeros(
        (64 - encode_utf8(m).len()) as nat,
    )
}

/// Whether a commit's message fits the room its record has for it.
pub open spec fn message_fits(c: VersionCommit) -> bool {
    encode_utf8(c.message@).len() <= 64
}

pub open spec fn version_commit_bytes(c: VersionCommit) -> Seq<u8> {
    flag_bytes(c.is_initialized) + c.workspace@ + spec_u64_to_le_bytes(c.version_number)
        + c.content_hash@ + c.parent_hash@ + c.author@ + i64_bytes(c.timestamp) + message_bytes(
        c.message@,
    )
}

pub open spec fn pull_request_bytes(p: PullRequest) -> Seq<u8> {
    flag_bytes(p.is_initialized) + p.source_workspace@ + p.target_workspace@
        + p.source_version_hash@ + p.target_version_hash@ + p.proposer@ + opt_key_bytes(p.reviewer)
        + seq![status_byte(p.status)] + i64_bytes(p.created_at) + opt_i64_bytes(p.reviewed_at)
}

pub open spec fn execution_log_bytes(l: ExecutionLog) -> Seq<u8> {
    flag_bytes(l.is_initialized) + l.workspace@ + l.executor@ + l.version_hash@ + l.result_hash@
        + i64_bytes(l.timestamp)
}

// ---------------------------------------------------------------------------
// Writing

fn put(out: &mut Vec<u8>, s: &[u8])
    ensures
        final(out)@ == old(out)@ + s@,
{
    let mut i: usize = 0;
    while i < s.len()
        invariant
            i <= s@.len(),
            out@ == old(out)@ + s@.subrange(0, i as int),
        decreases s@.len() - i,
    {
        out.push(s[i]);
        i = i + 1;
        assert(out@ =~= old(out)@ + s@.subrange(0, i as int));
    }
    assert(s@.subrange(0, i as int) =~= s@);
}

fn put_zeros(out: &mut Vec<u8>, n: usize)
    ensures
        final(out)@ == old(out)@ + zeros(n as nat),
{
    let mut i: usize = 0;
    while i < n
        invariant
            i <= n,
            out@ == old(out)@ + zeros(i as nat),
        decreases n - i,
    {
        out.push(0u8);
        i = i + 1;
        assert(out@ =~= old(out)@ + zeros(i as nat));
    }
}

fn put_flag(out: &mut Vec<u8>, b: bool)
    ensures
        final(out)@ == old(out)@ + flag_bytes(b),
{
    out.push(if b { 1u8 } else { 0u8 });
    assert(final(out)@ =~= old(out)@ + flag_bytes(b));
}

fn put_u64(out: &mut Vec<u8>, v: u64)
    ensures
        final(out)@ == old(out)@ + spec_u64_to_le_bytes(v),
{
    let b = u64_to_le_bytes(v);
    put(out, b.as_slice());
}

fn put_i64(out: &mut Vec<u8>, v: i64)
    ensures
        final(out)@ == old(out)@ + i64_bytes(v),
{
    put_u64(out, v as u64);
}

fn put_opt_key(out: &mut Vec<u8>, o: &Option<Address>)
    ensures
        final(out)@ == old(out)@ + opt_key_bytes(*o),
{
    let ghost start = out@;
    match o {
        Some(k) => {
            out.push(1u8);
            put(out, k.as_slice());
        },
        None => {
            out.push(0u8);
            put_zeros(out, 32);
        },
    }
    assert(out@ =~= start + opt_key_bytes(*o));
}

fn put_opt_u64(out: &mut Vec<u8>, o: &Option<u64>)
    ensures
        final(out)@ == old(out)@ + opt_u64_bytes(*o),
{
    let ghost start = out@;
    match o {
        Some(v) => {
            out.push(1u8);
            put_u64(out, *v);
        },
        None => {
            out.push(0u8);
            put_zeros(out, 8);
        },
    }
    assert(out@ =~= start + opt_u64_bytes(*o));
}

fn put_opt_i64(out: &mut Vec<u8>, o: &Option<i64>)
    ensures
        final(out)@ == old(out)@ + opt_i64_bytes(*o),
{
    let ghost start = out@;
    match o {
        Some(v) => {
            out.push(1u8);
            put_i64(out, *v);
        },
        None => {
            out.push(0u8);
            put_zeros(out, 8);
        },
    }
    assert(out@ =~= start + opt_i64_bytes(*o));
}

/// The stored bytes of an organization.
pub fn encode_organization(o: &Organization) -> (r: Vec<u8>)
    ensures
        r@ == organization_bytes(*o),
{
    let mut out: Vec<u8> = Vec::new();
    put_flag(&mut out, o.is_initialized);
    put(&mut out, o.owner.as_slice());
    put_i64(&mut out, o.created_at);
    put_u64(&mut out, o.workspace_count);
    assert(out@ =~= organization_bytes(*o));
    out
}

/// The stored bytes of a workspace.
pub fn encode_workspace(w: &Workspace) -> (r: Vec<u8>)
    ensures
        r@ == workspace_bytes(*w),
{
    let mut out: Vec<u8> = Vec::new();
    put_flag(&mut out, w.is_initialized);
    put(&mut out, w.organization.as_slice());
    put(&mut out, w.creator.as_slice());
    put_u64(&mut out, w.current_version);
    put(&mut out, w.current_state_root.as_slice());
    put_opt_key(&mut out, &w.parent_workspace);
    put_opt_u64(&mut out, &w.fork_at_version);
    put_i64(&mut out, w.created_at);
    assert(out@ =~= workspace_bytes(*w));
    out
}

/// The stored bytes of a commit, or `None` where its message takes more
/// bytes than the record has room for.
pub fn encode_version_commit(c: &VersionCommit) -> (r: Option<Vec<u8>>)
    ensures
        message_fits(*c) ==> (r matches Some(b) && b@ == version_commit_bytes(*c)),
        !message_fits(*c) ==> r is None,
{
    let message = string_bytes(&c.message);
    if message.len() > VersionCommit::MAX_MESSAGE_LEN {
        return None;
    }
    let mut out: Vec<u8> = Vec::new();
    put_flag(&mut out, c.is_initialized);
    put(&mut out, c.workspace.as_slice());
    put_u64(&mut out, c.version_number);
    put(&mut out, c.content_hash.as_slice());
    put(&mut out, c.parent_hash.as_slice());
    put(&mut out, c.author.as_slice());
    put_i64(&mut out, c.timestamp);
    let len_bytes = u32_to_le_bytes(message.len() as u32);
    put(&mut out, len_bytes.as_slice());
    put(&mut out, message.as_slice());
    put_zeros(&mut out, VersionCommit::MAX_MESSAGE_LEN - message.len());
    assert(out@ =~= version_commit_bytes(*c));
    Some(out)
}

/// The stored bytes of a pull request.
pub fn encode_pull_request(p: &PullRequest) -> (r: Vec<u8>)
    ensures
        r@ == pull_request_bytes(*p),
{
    let mut out: Vec<u8> = Vec::new();
    put_flag(&mut out, p.is_initialized);
    put(&mut out, p.source_workspace.as_slice());
    put(&mut out, p.target_workspace.as_slice());
    put(&mut out, p.source_version_hash.as_slice());
    put(&mut out, p.target_version_hash.as_slice());
    put(&mut out, p.proposer.as_slice());
    put_opt_key(&mut out, &p.reviewer);
    let status: u8 = match p.status {
        PRStatus::Open => 0,
        PRStatus::Approved => 1,
        PRStatus::Merged => 2,
        PRStatus::Rejected => 3,
    };
    out.push(status);
    put_i64(&mut out, p.created_at);
    put_opt_i64(&mut out, &p.reviewed_at);
    assert(out@ =~= pull_request_bytes(*p));
    out
}

/// The stored bytes of an execution log.
pub fn encode_execution_log(l: &ExecutionLog) -> (r: Vec<u8>)
    ensures
        r@ == execution_log_bytes(*l),
{
    let mut out: Vec<u8> = Vec::new();
    put_flag(&mut out, l.is_initialized);
    put(&mut out, l.workspace.as_slice());
    put(&mut out, l.executor.as_slice());
    put(&mut out, l.version_hash.as_slice());
    put(&mut out, l.result_hash.as_slice());
    put_i64(&mut out, l.timestamp);
    assert(out@ =~= execution_log_bytes(*l));
    out
}

// ---------------------------------------------------------------------------
// Reading

fn read_key(b: &[u8], at: usize) -> (k: Address)
    requires
        at + 32 <= b@.len(),
    ensures
        k@ == b@.subrange(at as int, at + 32),
{
    let len = b.len();
    let mut k: [u8; 32] = [0u8; 32];
    let mut i: usize = 0;
    while i < 32
        invariant
            i <= 32,
            at + 32 <= b@.len(),
            len == b@.len(),
            forall|j: int| 0 <= j < i ==> k@[j] == b@[at + j],
        decreases 32 - i,
    {
        k[i] = b[at + i];
        i = i + 1;
    }
    assert(k@ =~= b@.subrange(at as int, at + 32));
    k
}

fn read_u64(b: &[u8], at: usize) -> (v: u64)
    requires
        at + 8 <= b@.len(),
    ensures
        spec_u64_to_le_bytes(v) == b@.subrange(at as int, at + 8),
{
    let len = b.len();
    let s = vstd::slice::slice_subrange(b, at, at + 8);
    let v = u64_from_le_bytes(s);
    proof {
        lemma_auto_spec_u64_to_from_le_bytes();
    }
    v
}

fn read_i64(b: &[u8], at: usize) -> (v: i64)
    requires
        at + 8 <= b@.len(),
    ensures
        i64_bytes(v) == b@.subrange(at as int, at + 8),
{
    let u = read_u64(b, at);
    let v: i64 = #[verifier::truncate] (u as i64);
    assert(v as u64 == u) by (bit_vector)
        requires
            v == #[verifier::truncate] (u as i64),
    ;
    v
}

fn all_zero(b: &[u8], at: usize, n: usize) -> (r: bool)
    requires
        at + n <= b@.len(),
    ensures
        r == (b@.subrange(at as int, at + n) == zeros(n as nat)),
{
    let len = b.len();
    let mut i: usize = 0;
    while i < n
        invariant
            i <= n,
            at + n <= b@.len(),
            len == b@.len(),
            forall|j: int| at <= j < at + i ==> #[trigger] b@[j] == 0u8,
        decreases n - i,
    {
        if b[at + i] != 0 {
            assert(b@.subrange(at as int, at + n)[i as int] != zeros(n as nat)[i as int]);
            return false;
        }
        i = i + 1;
    }
    assert(b@.subrange(at as int, at + n) =~= zeros(n as nat));
    true
}

fn read_opt_key(b: &[u8], at: usize) -> (r: Option<Option<Address>>)
    requires
        at + 33 <= b@.len(),
    ensures
        r matches Some(o) ==> opt_key_bytes(o) == b@.subrange(at as int, at + 33),
        r is None ==> forall|o: Option<Address>| opt_key_bytes(o) != b@.subrange(at as int, at + 33),
{
    let ghost s = b@.subrange(at as int, at + 33);
    if b[at] == 0 {
        if all_zero(b, at + 1, 32) {
            assert(opt_key_bytes(None) =~= s);
            Some(None)
        } else {
            assert forall|o: Option<Address>| opt_key_bytes(o) != s by {
                if opt_key_bytes(o) == s {
                    assert(opt_key_bytes(o)[0] == s[0]);
                    if o is None {
                        assert(opt_key_bytes(o).subrange(1, 33) =~= zeros(32));
                    }
                    assert(opt_key_bytes(o).subrange(1, 33) =~= s.subrange(1, 33));
                    assert(s.subrange(1, 33) =~= b@.subrange(at + 1, at + 33));
                }
            }
            None
        }
    } else if b[at] == 1 {
        let k = read_key(b, at + 1);
        assert(opt_key_bytes(Some(k)) =~= s);
        Some(Some(k))
    } else {
        assert forall|o: Option<Address>| opt_key_bytes(o) != s by {
            if opt_key_bytes(o) == s {
                assert(opt_key_bytes(o)[0] == s[0]);
            }
        }
        None
    }
}

fn read_opt_u64(b: &[u8], at: usize) -> (r: Option<Option<u64>>)
    requires
        at + 9 <= b@.len(),
    ensures
        r matches Some(o) ==> opt_u64_bytes(o) == b@.subrange(at as int, at + 9),
        r is None ==> forall|o: Option<u64>| opt_u64_bytes(o) != b@.subrange(at as int, at + 9),
{
    let ghost s = b@.subrange(at as int, at + 9);
    proof {
        lemma_auto_spec_u64_to_from_le_bytes();
    }
    if b[at] == 0 {
        if all_zero(b, at + 1, 8) {
            assert(opt_u64_bytes(None) =~= s);
            Some(None)
        } else {
            assert forall|o: Option<u64>| opt_u64_bytes(o) != s by {
                if opt_u64_bytes(o) == s {
                    assert(opt_u64_bytes(o)[0] == s[0]);
                    if o is None {
                        assert(opt_u64_bytes(o).subrange(1, 9) =~= zeros(8));
                    }
                    assert(opt_u64_bytes(o).subrange(1, 9) =~= s.subrange(1, 9));
                    assert(s.subrange(1, 9) =~= b@.subrange(at + 1, at + 9));
                }
            }
            None
        }
    } else if b[at] == 1 {
        let v = read_u64(b, at + 1);
        assert(opt_u64_bytes(Some(v)) =~= s);
        Some(Some(v))
    } else {
        assert forall|o: Option<u64>| opt_u64_bytes(o) != s by {
            if opt_u64_bytes(o) == s {
                assert(opt_u64_bytes(o)[0] == s[0]);
            }
        }
        None
    }
}

fn read_opt_i64(b: &[u8], at: usize) -> (r: Option<Option<i64>>)
    requires
        at + 9 <= b@.len(),
    ensures
        r matches Some(o) ==> opt_i64_bytes(o) == b@.subrange(at as int, at + 9),
        r is None ==> forall|o: Option<i64>| opt_i64_bytes(o) != b@.subrange(at as int, at + 9),
{
    let ghost s = b@.subrange(at as int, at + 9);
    proof {
        lemma_auto_spec_u64_to_from_le_bytes();
    }
    if b[at] == 0 {
        if all_zero(b, at + 1, 8) {
            assert(opt_i64_bytes(None) =~= s);
            Some(None)
        } else {
            assert forall|o: Option<i64>| opt_i64_bytes(o) != s by {
                if opt_i64_bytes(o) == s {
                    assert(opt_i64_bytes(o)[0] == s[0]);
                    if o is None {
                        assert(opt_i64_bytes(o).subrange(1, 9) =~= zeros(8));
                    }
                    assert(opt_i64_bytes(o).subrange(1, 9) =~= s.subrange(1, 9));
                    assert(s.subrange(1, 9) =~= b@.subrange(at + 1, at + 9));
                }
            }
            None
        }
    } else if b[at] == 1 {
        let v = read_i64(b, at + 1);
        assert(opt_i64_bytes(Some(v)) =~= s);
        Some(Some(v))
    } else {
        assert forall|o: Option<i64>| opt_i64_bytes(o) != s by {
            if opt_i64_bytes(o) == s {
                assert(opt_i64_bytes(o)[0] == s[0]);
            }
        }
        None
    }
}

/// Reads an organization back from its stored bytes: `None` where the
/// bytes are the layout of no organization.
pub fn decode_organization(b: &[u8]) -> (r: Option<Organization>)
    ensures
        r matches Some(o) ==> organization_bytes(o) == b@,
        r is None ==> forall|o: Organization| organization_bytes(o) != b@,
{
    proof {
        lemma_auto_spec_u64_to_from_le_bytes();
    }
    if b.len() != Organization::LEN || b[0] > 1 {
        assert forall|o: Organization| organization_bytes(o) != b@ by {
            if organization_bytes(o) == b@ {
                assert(organization_bytes(o)[0] == b@[0]);
            }
        }
        return None;
    }
    let owner = read_key(b, 1);
    let created_at = read_i64(b, 33);
    let workspace_count = read_u64(b, 41);
    let o = Organization { is_initialized: b[0] == 1, owner, created_at, workspace_count };
    assert(organization_bytes(o) =~= b@);
    Some(o)
}

/// Reads a workspace back from its stored bytes: `None` where the bytes are
/// the layout of no workspace.
pub fn decode_workspace(b: &[u8]) -> (r: Option<Workspace>)
    ensures
        r matches Some(w) ==> workspace_bytes(w) == b@,
        r is None ==> forall|w: Workspace| workspace_bytes(w) != b@,
{
    proof {
        lemma_auto_spec_u64_to_from_le_bytes();
    }
    if b.len() != Workspace::LEN || b[0] > 1 {
        assert forall|w: Workspace| workspace_bytes(w) != b@ by {
            if workspace_bytes(w) == b@ {
                assert(workspace_bytes(w)[0] == b@[0]);
            }
        }
        return None;
    }
    let parent_workspace = match read_opt_key(b, 105) {
        Some(p) => p,
        None => {
            assert forall|w: Workspace| workspace_bytes(w) != b@ by {
                if workspace_bytes(w) == b@ {
                    assert(workspace_bytes(w).subrange(105, 138) =~= opt_key_bytes(w.parent_workspace));
                }
            }
            return None;
        },
    };
    let fork_at_version = match read_opt_u64(b, 138) {
        Some(f) => f,
        None => {
            assert forall|w: Workspace| workspace_bytes(w) != b@ by {
                if workspace_bytes(w) == b@ {
                    assert(workspace_bytes(w).subrange(138, 147) =~= opt_u64_bytes(w.fork_at_version));
                }
            }
            return None;
        },
    };
    let w = Workspace {
        is_initialized: b[0] == 1,
        organization: read_key(b, 1),
        creator: read_key(b, 33),
        current_version: read_u64(b, 65),
        current_state_root: read_key(b, 73),
        parent_workspace,
        fork_at_version,
        created_at: read_i64(b, 147),
    };
    assert(workspace_bytes(w) =~= b@);
    Some(w)
}

fn read_status(v: u8) -> (r: Option<PRStatus>)
    ensures
        r matches Some(st) ==> status_byte(st) == v,
        r is None ==> forall|st: PRStatus| status_byte(st) != v,
{
    if v == 0 {
        Some(PRStatus::Open)
    } else if v == 1 {
        Some(PRStatus::Approved)
    } else if v == 2 {
        Some(PRStatus::Merged)
    } else if v == 3 {
        Some(PRStatus::Rejected)
    } else {
        None
    }
}

proof fn lemma_pull_request_parts(p: PullRequest)
    ensures
        ({
            let e = pull_request_bytes(p);
            &&& e.len() == 212
            &&& e[0] == flag_bytes(p.is_initialized)[0]
            &&& e.subrange(1, 33) == p.source_workspace@
            &&& e.subrange(33, 65) == p.target_workspace@
            &&& e.subrange(65, 97) == p.source_version_hash@
            &&& e.subrange(97, 129) == p.target_version_hash@
            &&& e.subrange(129, 161) == p.proposer@
            &&& e.subrange(161, 194) == opt_key_bytes(p.reviewer)
            &&& e[194] == status_byte(p.status)
            &&& e.subrange(195, 203) == i64_bytes(p.created_at)
            &&& e.subrange(203, 212) == opt_i64_bytes(p.reviewed_at)
        }),
{
    lemma_auto_spec_u64_to_from_le_bytes();
    let e = pull_request_bytes(p);
    assert(e.subrange(1, 33) =~= p.source_workspace@);
    assert(e.subrange(33, 65) =~= p.target_workspace@);
    assert(e.subrange(65, 97) =~= p.source_version_hash@);
    assert(e.subrange(97, 129) =~= p.target_version_hash@);
    assert(e.subrange(129, 161) =~= p.proposer@);
    assert(e.subrange(161, 194) =~= opt_key_bytes(p.reviewer));
    assert(e.subrange(195, 203) =~= i64_bytes(p.created_at));
    assert(e.subrange(203, 212) =~= opt_i64_bytes(p.reviewed_at));
}

#[verifier::rlimit(50)]
proof fn lemma_pull_request_from_parts(p: PullRequest, b: Seq<u8>)
    requires
        b.len() == 212,
        b[0] == flag_bytes(p.is_initialized)[0],
        b.subrange(1, 33) == p.source_workspace@,
        b.subrange(33, 65) == p.target_workspace@,
        b.subrange(65, 97) == p.source_version_hash@,
        b.subrange(97, 129) == p.target_version_hash@,
        b.subrange(129, 161) == p.proposer@,
        b.subrange(161, 194) == opt_key_bytes(p.reviewer),
        b[194] == status_byte(p.status),
        b.subrange(195, 203) == i64_bytes(p.created_at),
        b.subrange(203, 212) == opt_i64_bytes(p.reviewed_at),
    ensures
        pull_request_bytes(p) == b,
{
    lemma_pull_request_parts(p);
    let e = pull_request_bytes(p);
    assert forall|i: int| 0 <= i < 212 implies e[i] == b[i] by {
        if 1 <= i < 33 {
            assert(e.subrange(1, 33)[i - 1] == b.subrange(1, 33)[i - 1]);
        } else if 33 <= i < 65 {
            assert(e.subrange(33, 65)[i - 33] == b.subrange(33, 65)[i - 33]);
        } else if 65 <= i < 97 {
            assert(e.subrange(65, 97)[i - 65] == b.subrange(65, 97)[i - 65]);
        } else if 97 <= i < 129 {
            assert(e.subrange(97, 129)[i - 97] == b.subrange(97, 129)[i - 97]);
        } else if 129 <= i < 161 {
            assert(e.subrange(129, 161)[i - 129] == b.subrange(129, 161)[i - 129]);
        } else if 161 <= i < 194 {
            assert(e.subrange(161, 194)[i - 161] == b.subrange(161, 194)[i - 161]);
        } else if 195 <= i < 203 {
            assert(e.subrange(195, 203)[i - 195] == b.subrange(195, 203)[i - 195]);
        } else if 203 <= i < 212 {
            assert(e.subrange(203, 212)[i - 203] == b.subrange(203, 212)[i - 203]);
        }
    }
    assert(e =~= b);
}

/// Reads a pull request back from its stored bytes: `None` where the bytes
/// are the layout of no pull request.
pub fn decode_pull_request(b: &[u8]) -> (r: Option<PullRequest>)
    ensures
        r matches Some(p) ==> pull_request_bytes(p) == b@,
        r is None ==> forall|p: PullRequest| pull_request_bytes(p) != b@,
{
    if b.len() != PullRequest::LEN || b[0] > 1 {
        assert forall|p: PullRequest| pull_request_bytes(p) != b@ by {
            lemma_pull_request_parts(p);
        }
        return None;
    }
    let status = match read_status(b[194]) {
        Some(st) => st,
        None => {
            assert forall|p: PullRequest| pull_request_bytes(p) != b@ by {
                lemma_pull_request_parts(p);
            }
            return None;
        },
    };
    let reviewer = match read_opt_key(b, 161) {
        Some(v) => v,
        None => {
            assert forall|p: PullRequest| pull_request_bytes(p) != b@ by {
                lemma_pull_request_parts(p);
            }
            return None;
        },
    };
    let reviewed_at = match read_opt_i64(b, 203) {
        Some(v) => v,
        None => {
            assert forall|p: PullRequest| pull_request_bytes(p) != b@ by {
                lemma_pull_request_parts(p);
            }
            return None;
        },
    };
    let p = PullRequest {
        is_initialized: b[0] == 1,
        source_workspace: read_key(b, 1),
        target_workspace: read_key(b, 33),
        source_version_hash: read_key(b, 65),
        target_version_hash: read_key(b, 97),
        proposer: read_key(b, 129),
        reviewer,
        status,
        created_at: read_i64(b, 195),
        reviewed_at,
    };
    proof {
        lemma_pull_request_from_parts(p, b@);
    }
    Some(p)
}

// ---------------------------------------------------------------------------
// Properties of the layout

/// Every record of a kind takes the same number of bytes, its kind's `LEN`
/// (a commit whose message fits the room the record has for it).
pub proof fn lemma_record_sizes(
    o: Organization,
    w: Workspace,
    c: VersionCommit,
    p: PullRequest,
    l: ExecutionLog,
)
    ensures
        organization_bytes(o).len() == Organization::LEN,
        workspace_bytes(w).len() == Workspace::LEN,
        message_fits(c) ==> version_commit_bytes(c).len() == VersionCommit::LEN,
        pull_request_bytes(p).len() == PullRequest::LEN,
        execution_log_bytes(l).len() == ExecutionLog::LEN,
{
    lemma_auto_spec_u64_to_from_le_bytes();
    lemma_auto_spec_u32_to_from_le_bytes();
}

proof fn lemma_i64_bytes_injective(x: i64, y: i64)
    requires
        i64_bytes(x) == i64_bytes(y),
    ensures
        x == y,
{
    lemma_auto_spec_u64_to_from_le_bytes();
    assert(spec_u64_from_le_bytes(i64_bytes(x)) == x as u64);
    assert(x as u64 == y as u64 ==> x == y) by (bit_vector);
}

proof fn lemma_u64_bytes_injective(x: u64, y: u64)
    requires
        spec_u64_to_le_bytes(x) == spec_u64_to_le_bytes(y),
    ensures
        x == y,
{
    lemma_auto_spec_u64_to_from_le_bytes();
    assert(spec_u64_from_le_bytes(spec_u64_to_le_bytes(x)) == x);
}

proof fn lemma_key_eq(a: Address, b: Address)
    requires
        a@ == b@,
    ensures
        a == b,
{
    assert(a =~= b);
}

proof fn lemma_opt_key_injective(a: Option<Address>, b: Option<Address>)
    requires
        opt_key_bytes(a) == opt_key_bytes(b),
    ensures
        a == b,
{
    assert(opt_key_bytes(a)[0] == if a is Some { 1u8 } else { 0u8 });
    assert(opt_key_bytes(b)[0] == if b is Some { 1u8 } else { 0u8 });
    if a is Some && b is Some {
        assert(opt_key_bytes(a).subrange(1, 33) =~= a->0@);
        assert(opt_key_bytes(b).subrange(1, 33) =~= b->0@);
        lemma_key_eq(a->0, b->0);
    }
}

proof fn lemma_opt_u64_injective(a: Option<u64>, b: Option<u64>)
    requires
        opt_u64_bytes(a) == opt_u64_bytes(b),
    ensures
        a == b,
{
    lemma_auto_spec_u64_to_from_le_bytes();
    assert(opt_u64_bytes(a)[0] == if a is Some { 1u8 } else { 0u8 });
    assert(opt_u64_bytes(b)[0] == if b is Some { 1u8 } else { 0u8 });
    if a is Some && b is Some {
        assert(opt_u64_bytes(a).subrange(1, 9) =~= spec_u64_to_le_bytes(a->0));
        assert(opt_u64_bytes(b).subrange(1, 9) =~= spec_u64_to_le_bytes(b->0));
        lemma_u64_bytes_injective(a->0, b->0);
    }
}

proof fn lemma_opt_i64_injective(a: Option<i64>, b: Option<i64>)
    requires
        opt_i64_bytes(a) == opt_i64_bytes(b),
    ensures
        a == b,
{
    lemma_auto_spec_u64_to_from_le_bytes();
    assert(opt_i64_bytes(a)[0] == if a is Some { 1u8 } else { 0u8 });
    assert(opt_i64_bytes(b)[0] == if b is Some { 1u8 } else { 0u8 });
    if a is Some && b is Some {
        assert(opt_i64_bytes(a).subrange(1, 9) =~= i64_bytes(a->0));
        assert(opt_i64_bytes(b).subrange(1, 9) =~= i64_bytes(b->0));
        lemma_i64_bytes_injective(a->0, b->0);
    }
}

/// The organization layout is unambiguous: two organizations with the same
/// bytes are the same, so decoding an encoding gives the record back.
pub proof fn lemma_organization_layout_unambiguous(a: Organization, b: Organization)
    requires
        organization_bytes(a) == organization_bytes(b),
    ensures
        a == b,
{
    lemma_auto_spec_u64_to_from_le_bytes();
    let (x, y) = (organization_bytes(a), organization_bytes(b));
    assert(x[0] == y[0]);
    assert(x.subrange(1, 33) =~= a.owner@);
    assert(y.subrange(1, 33) =~= b.owner@);
    lemma_key_eq(a.owner, b.owner);
    assert(x.subrange(33, 41) =~= i64_bytes(a.created_at));
    assert(y.subrange(33, 41) =~= i64_bytes(b.created_at));
    lemma_i64_bytes_injective(a.created_at, b.created_at);
    assert(x.subrange(41, 49) =~= spec_u64_to_le_bytes(a.workspace_count));
    assert(y.subrange(41, 49) =~= spec_u64_to_le_bytes(b.workspace_count));
    lemma_u64_bytes_injective(a.workspace_count, b.workspace_count);
}

/// The workspace layout is unambiguous: two workspaces with the same bytes
/// are the same, so decoding an encoding gives the record back.
pub proof fn lemma_workspace_layout_unambiguous(a: Workspace, b: Workspace)
    requires
        workspace_bytes(a) == workspace_bytes(b),
    ensures
        a == b,
{
    lemma_auto_spec_u64_to_from_le_bytes();
    let (x, y) = (workspace_bytes(a), workspace_bytes(b));
    assert(x[0] == y[0]);
    assert(x.subrange(1, 33) =~= a.organization@);
    assert(y.subrange(1, 33) =~= b.organization@);
    lemma_key_eq(a.organization, b.organization);
    assert(x.subrange(33, 65) =~= a.creator@);
    assert(y.subrange(33, 65) =~= b.creator@);
    lemma_key_eq(a.creator, b.creator);
    assert(x.subrange(65, 73) =~= spec_u64_to_le_bytes(a.current_version));
    assert(y.subrange(65, 73) =~= spec_u64_to_le_bytes(b.current_version));
    lemma_u64_bytes_injective(a.current_version, b.current_version);
    assert(x.subrange(73, 105) =~= a.current_state_root@);
    assert(y.subrange(73, 105) =~= b.current_state_root@);
    lemma_key_eq(a.current_state_root, b.current_state_root);
    assert(x.subrange(105, 138) =~= opt_key_bytes(a.parent_workspace));
    assert(y.subrange(105, 138) =~= opt_key_bytes(b.parent_workspace));
    lemma_opt_key_injective(a.parent_workspace, b.parent_workspace);
    assert(x.subrange(138, 147) =~= opt_u64_bytes(a.fork_at_version));
    assert(y.subrange(138, 147) =~= opt_u64_bytes(b.fork_at_version));
    lemma_opt_u64_injective(a.fork_at_version, b.fork_at_version);
    assert(x.subrange(147, 155) =~= i64_bytes(a.created_at));
    assert(y.subrange(147, 155) =~= i64_bytes(b.created_at));
    lemma_i64_bytes_injective(a.created_at, b.created_at);
}

/// The pull-request layout is unambiguous: two pull requests with the same
/// bytes are the same, so decoding an encoding gives the record back.
pub proof fn lemma_pull_request_layout_unambiguous(a: PullRequest, b: PullRequest)
    requires
        pull_request_bytes(a) == pull_request_bytes(b),
    ensures
        a == b,
{
    lemma_pull_request_parts(a);
    lemma_pull_request_parts(b);
    lemma_key_eq(a.source_workspace, b.source_workspace);
    lemma_key_eq(a.target_workspace, b.target_workspace);
    lemma_key_eq(a.source_version_hash, b.source_version_hash);
    lemma_key_eq(a.target_version_hash, b.target_version_hash);
    lemma_key_eq(a.proposer, b.proposer);
    lemma_opt_key_injective(a.reviewer, b.reviewer);
    lemma_i64_bytes_injective(a.created_at, b.created_at);
    lemma_opt_i64_injective(a.reviewed_at, b.reviewed_at);
}

} // verus!
