//! Role registry, document lifecycle and voting rounds of a permissioned
//! content-curation ledger module, as a deterministic state machine.
//!
//! A runtime hands every accepted call to one method of [`pallet::Pallet`],
//! together with the caller's capability and, where a round is opened, the
//! current logical time. The method either commits the whole transition and
//! returns the notifications to emit, or fails and leaves the state as it was.
//!
//! The module creates and keeps voting rounds; it does not cast votes, tally
//! them or close a round. Whoever resolves a round from outside records the
//! outcome on the document through the administrative override,
//! [`pallet::Pallet::update_document_status`].
//!
//! - [`types`]: identities, statuses, records, notifications, errors.
//! - [`counter`]: the monotonic id generator.
//! - [`roles`], [`documents`], [`voting`], [`config`]: the four stores.
//! - [`pallet`]: the operations, on one object that owns the stores.
//! - [`state`]: the same operations as mathematical functions on the state,
//!   in whose terms every operation is specified.
//! - [`theorems`]: what holds of the state machine as a whole.

pub mod config;
pub mod counter;
pub mod documents;
pub mod pallet;
pub mod roles;
pub mod state;
pub mod theorems;
pub mod types;
pub mod voting;

pub use crate::pallet::{
    DefaultQualificationVotingWindow, DefaultVerificationVotingWindow, Pallet, Snapshot,
};
pub use crate::types::{
    AccountId, BlockNumber, CallerContext, Document, DocumentStatus, Error, ErrorKind, Event,
    Roles, Vote, VoteKind, VoteStatus,
};
