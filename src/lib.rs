//! Presence watching for a roster of external identities: each polling cycle
//! compares freshly sampled states with the last snapshot, classifies what
//! changed and renders the notifications to deliver.

pub mod presence;
pub mod notice;
pub mod snapshot;
pub mod clock;
pub mod poll;
pub mod rule;
pub mod roster;

use vstd::prelude::*;

verus! {

/// The hosted service that runs the watcher, the command handler and the
/// keyword replier side by side.
pub struct KaixuHelperService;

} // verus!
