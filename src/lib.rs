//! A registry of tasks: each task is keyed by a caller-chosen identifier,
//! owned by the account that created it, and stamped with the block height
//! at which it was created.
//!
//! The registry decides whether a create, remove or list request is legal
//! against its current state, applies it, and records the notification that
//! the operation deposits. Authentication of callers, the height clock and
//! delivery of notifications belong to the host around it.

mod laws;
mod pallet;

pub use pallet::{
    create_spec, is_listing, lists, new_task, remove_spec, AccountId, BlockNumber, Error, Event,
    Pallet, PalletState, Task, TaskId,
};
pub use laws::{
    create_repeated, lemma_create_remove_round_trip, lemma_create_then_list, lemma_create_twice,
    lemma_failed_create_repeats, lemma_failed_remove_repeats, lemma_remove_absent,
    lemma_remove_not_owner, remove_repeated,
};
