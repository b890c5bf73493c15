//! Escrow-based wagering for two-player matches.
//!
//! Each player stakes an equal amount into a pooled escrow held beside the
//! match record. On resolution the pot, minus a platform fee, is paid to the
//! declared winner; a draw refunds both players in full; a cancellation
//! before a challenger joins refunds the host. Every operation is a guarded
//! state transition: it validates the match status and the caller's identity,
//! moves value, and reports an event record, or fails with a named error and
//! leaves every balance untouched.
//!
//! The hosting ledger (account storage, signature authentication, storage
//! reclamation) sits outside this crate; callers hand in authenticated
//! identities and the balances of the accounts a transition touches.

pub mod engine;
pub mod errors;
pub mod escrow;
pub mod events;
pub mod laws;
pub mod state;
