//! Polling of the shared asset progress token.

use vstd::prelude::*;

verus! {

/// The progress counter of the asset pipeline: shared with the loader threads,
/// so nothing about its contents is visible to proofs.
#[verifier::external_type_specification]
#[verifier::external_body]
pub struct ExProgressCounter(amethyst_assets::ProgressCounter);

/// What one poll of the progress token reported.
#[derive(Clone, Copy, Debug, PartialEq, Eq, Structural)]
pub enum Completion {
    /// Every tracked asset has loaded.
    Complete,
    /// At least one tracked asset failed to load.
    Failed,
    /// Assets are still loading and none has failed so far.
    Loading,
}

/// Calls `amethyst_assets::ProgressCounter::new`: a fresh token that tracks no
/// asset yet. Nothing is claimed of it.
#[verifier::external_body]
pub(crate) fn new_progress() -> (token: amethyst_assets::ProgressCounter) {
    amethyst_assets::ProgressCounter::new()
}

/// Calls `amethyst_assets::ProgressCounter::complete` and maps its three
/// variants one for one. The answer depends on what the loader threads have
/// done so far, so nothing is claimed of it.
#[verifier::external_body]
pub(crate) fn poll_progress(token: &amethyst_assets::ProgressCounter) -> (status: Completion) {
    match token.complete() {
        amethyst_assets::Completion::Complete => Completion::Complete,
        amethyst_assets::Completion::Failed => Completion::Failed,
        amethyst_assets::Completion::Loading => Completion::Loading,
    }
}

} // verus!
