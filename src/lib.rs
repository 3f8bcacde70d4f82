//! An on-ledger version-control model: organizations own workspaces,
//! workspaces accumulate hash-chained version commits, workspaces can be
//! forked, and changes flow between workspaces through pull requests.
//!
//! Every operation is a verified state transition over plain records; the
//! host ledger (account storage, funding, signatures, the clock) stays
//! outside and hands the engine plain values.

pub mod address;
pub mod error;
pub mod instruction;
pub mod laws;
pub mod layout;
pub mod processor;
pub mod state;

pub use error::{ProcessError, VeriflowError};
pub use instruction::VeriflowInstruction;
pub use processor::process_instruction;
pub use state::{ExecutionLog, Organization, PRStatus, PullRequest, VersionCommit, Workspace};
