//! Token-weighted governance core: vote casting with replay protection,
//! per-option tally accumulation, early tipping, and the append-only
//! instruction queue attached to each proposal.
//!
//! The surrounding storage environment loads records by address, hands them
//! to the operations here as plain values, and persists whatever a successful
//! operation returns; every failure leaves all records untouched.

pub mod cast_vote;
pub mod error;
pub mod governance;
pub mod insert_instruction;
pub mod instruction_queue;
pub mod keys;
pub mod proposal;
pub mod tip;
pub mod token_owner_record;
pub mod vote;
pub mod vote_record;
pub mod weights;
