//! Deterministic address derivation: every record lives at an address that
//! is derived from a fixed kind tag, the identifiers of its parents and a
//! discriminant, so that a caller cannot point an operation at storage that
//! was not derived from the identifiers it claims.

use solana_pubkey::Pubkey;
use vstd::prelude::*;
use vstd::bytes::{spec_u64_to_le_bytes, u64_to_le_bytes};
use vstd::utf8::encode_utf8;

verus! {

/// A 32-byte ledger address (an account key).
pub type Address = [u8; 32];

/// The address that the ledger derives from `seeds` for the program
/// `program_id`, with the bump seed that proves the derivation, or `None`
/// where no address can be derived.
pub uninterp spec fn program_address(seeds: Seq<Seq<u8>>, program_id: Seq<u8>) -> Option<(Seq<u8>, u8)>;

/// The derived address alone, without its bump seed.
pub open spec fn derived_key(seeds: Seq<Seq<u8>>, program_id: Seq<u8>) -> Option<Seq<u8>> {
    match program_address(seeds, program_id) {
        Some((key, _bump)) => Some(key),
        None => None,
    }
}

/// The ledger's limits on derivation seeds: fewer than sixteen seeds (one
/// more is taken by the bump seed), none longer than 32 bytes.
pub open spec fn seeds_within_limits(seeds: Seq<Seq<u8>>) -> bool {
    &&& seeds.len() < 16
    &&& forall|i: int| 0 <= i < seeds.len() ==> #[trigger] seeds[i].len() <= 32
}

/// Relies on `solana_pubkey::Pubkey::try_find_program_address`: the derived
/// address and its bump seed depend on the seeds and the program id alone,
/// and no address is found where the seeds break the ledger's limits.
#[verifier::external_body]
fn try_find_program_address(seeds: &Vec<Vec<u8>>, program_id: &Address) -> (r: Option<(Address, u8)>)
    ensures
        r matches Some((a, bump)) ==> program_address(seeds.deep_view(), program_id@) == Some(
            (a@, bump),
        ),
        r is None ==> program_address(seeds.deep_view(), program_id@) is None,
        !seeds_within_limits(seeds.deep_view()) ==> r is None,
{
    let slices: Vec<&[u8]> = seeds.iter().map(|s| s.as_slice()).collect();
    let program = Pubkey::new_from_array(*program_id);
    Pubkey::try_find_program_address(&slices, &program).map(|(key, bump)| (key.to_bytes(), bump))
}

/// The UTF-8 bytes of a string.
pub fn string_bytes(s: &String) -> (r: Vec<u8>)
    ensures
        r@ == encode_utf8(s@),
{
    vstd::slice::slice_to_vec(s.as_str().as_bytes())
}

/// Byte-for-byte equality of two addresses.
pub fn same_address(a: &Address, b: &Address) -> (r: bool)
    ensures
        r == (a@ == b@),
{
    let mut i: usize = 0;
    while i < 32
        invariant
            i <= 32,
            a@.len() == 32,
            b@.len() == 32,
            forall|j: int| 0 <= j < i ==> a@[j] == b@[j],
        decreases 32 - i,
    {
        if a[i] != b[i] {
            return false;
        }
        i = i + 1;
    }
    assert(a@ =~= b@);
    true
}

pub open spec fn org_tag() -> Seq<u8> {
    seq![111u8, 114, 103]
}

pub open spec fn workspace_tag() -> Seq<u8> {
    seq![119u8, 111, 114, 107, 115, 112, 97, 99, 101]
}

pub open spec fn version_tag() -> Seq<u8> {
    seq![118u8, 101, 114, 115, 105, 111, 110]
}

pub open spec fn pr_tag() -> Seq<u8> {
    seq![112u8, 114]
}

pub open spec fn execution_tag() -> Seq<u8> {
    seq![101u8, 120, 101, 99, 117, 116, 105, 111, 110]
}

/// What locates each kind of record: the identifiers its address is
/// derived from.
#[derive(Debug, Clone)]
pub enum RecordSeeds {
    Organization { org_slug: String },
    Workspace { organization: Address, workspace_id: String },
    VersionCommit { workspace: Address, version_number: u64 },
    PullRequest { source_workspace: Address, target_workspace: Address },
    ExecutionLog { workspace: Address, execution_id: u64 },
}

pub open spec fn org_seeds(org_slug: Seq<char>) -> Seq<Seq<u8>> {
    seq![org_tag(), encode_utf8(org_slug)]
}

pub open spec fn workspace_seeds(organization: Seq<u8>, workspace_id: Seq<char>) -> Seq<Seq<u8>> {
    seq![workspace_tag(), organization, encode_utf8(workspace_id)]
}

pub open spec fn version_seeds(workspace: Seq<u8>, version_number: u64) -> Seq<Seq<u8>> {
    seq![version_tag(), workspace, spec_u64_to_le_bytes(version_number)]
}

pub open spec fn pr_seeds(source: Seq<u8>, target: Seq<u8>) -> Seq<Seq<u8>> {
    seq![pr_tag(), source, target]
}

pub open spec fn execution_seeds(workspace: Seq<u8>, execution_id: u64) -> Seq<Seq<u8>> {
    seq![execution_tag(), workspace, spec_u64_to_le_bytes(execution_id)]
}

impl RecordSeeds {
    /// The seed list of this record: its kind tag followed by its
    /// identifiers, in order.
    pub open spec fn spec_seeds(&self) -> Seq<Seq<u8>> {
        match self {
            RecordSeeds::Organization { org_slug } => org_seeds(org_slug@),
            RecordSeeds::Workspace { organization, workspace_id } => workspace_seeds(
                organization@,
                workspace_id@,
            ),
            RecordSeeds::VersionCommit { workspace, version_number } => version_seeds(
                workspace@,
                *version_number,
            ),
            RecordSeeds::PullRequest { source_workspace, target_workspace } => pr_seeds(
                source_workspace@,
                target_workspace@,
            ),
            RecordSeeds::ExecutionLog { workspace, execution_id } => execution_seeds(
                workspace@,
                *execution_id,
            ),
        }
    }

    /// Builds the seed list of this record.
    pub fn seeds(&self) -> (r: Vec<Vec<u8>>)
        ensures
            r.deep_view() == self.spec_seeds(),
    {
        let (tag, first, second): (Vec<u8>, Vec<u8>, Option<Vec<u8>>) = match self {
            RecordSeeds::Organization { org_slug } => {
                (vec![111u8, 114, 103], string_bytes(org_slug), None)
            },
            RecordSeeds::Workspace { organization, workspace_id } => (
                vec![119u8, 111, 114, 107, 115, 112, 97, 99, 101],
                vstd::slice::slice_to_vec(organization.as_slice()),
                Some(string_bytes(workspace_id)),
            ),
            RecordSeeds::VersionCommit { workspace, version_number } => (
                vec![118u8, 101, 114, 115, 105, 111, 110],
                vstd::slice::slice_to_vec(workspace.as_slice()),
                Some(u64_to_le_bytes(*version_number)),
            ),
            RecordSeeds::PullRequest { source_workspace, target_workspace } => (
                vec![112u8, 114],
                vstd::slice::slice_to_vec(source_workspace.as_slice()),
                Some(vstd::slice::slice_to_vec(target_workspace.as_slice())),
            ),
            RecordSeeds::ExecutionLog { workspace, execution_id } => (
                vec![101u8, 120, 101, 99, 117, 116, 105, 111, 110],
                vstd::slice::slice_to_vec(workspace.as_slice()),
                Some(u64_to_le_bytes(*execution_id)),
            ),
        };
        let ghost parts: Seq<Seq<u8>> = if second is Some {
            seq![tag@, first@, second->0@]
        } else {
            seq![tag@, first@]
        };
        assert(parts =~= self.spec_seeds());
        let mut out: Vec<Vec<u8>> = Vec::new();
        out.push(tag);
        out.push(first);
        match second {
            Some(b) => out.push(b),
            None => {},
        }
        assert(out.deep_view() =~= parts) by {
            assert(out@[0].deep_view() =~= out@[0]@);
            assert(out@[1].deep_view() =~= out@[1]@);
            if out.len() == 3 {
                assert(out@[2].deep_view() =~= out@[2]@);
            }
        }
        out
    }

    /// The address derived from this record's seeds for `program_id`.
    pub open spec fn spec_address(&self, program_id: Seq<u8>) -> Option<Seq<u8>> {
        derived_key(self.spec_seeds(), program_id)
    }

    /// Derives the address of this record for `program_id`, with its bump
    /// seed, or `None` where the ledger derives none (seeds beyond its
    /// limits).
    pub fn derive_address(&self, program_id: &Address) -> (r: Option<(Address, u8)>)
        ensures
            r matches Some((a, bump)) ==> program_address(self.spec_seeds(), program_id@) == Some(
                (a@, bump),
            ),
            r is None ==> program_address(self.spec_seeds(), program_id@) is None,
    {
        let seeds = self.seeds();
        try_find_program_address(&seeds, program_id)
    }

    /// Whether `key` is the address derived from this record's seeds.
    pub fn matches_address(&self, program_id: &Address, key: &Address) -> (r: bool)
        ensures
            r == (self.spec_address(program_id@) == Some(key@)),
    {
        match self.derive_address(program_id) {
            Some((a, _bump)) => same_address(&a, key),
            None => false,
        }
    }
}

} // verus!
