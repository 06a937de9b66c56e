//! One handler per command group. A handler states, as a `Plan`, the work it
//! does against the remote session, and gives a short label for progress
//! reports.

use vstd::prelude::*;
use crate::plan::Plan;

pub mod audio;
pub mod config;
pub mod filters;
pub mod general;
pub mod media;
pub mod recording;
pub mod inputs;
pub mod replay_buffer;
pub mod scene_items;
pub mod scenes;
pub mod scene_collections;
pub mod sources;
pub mod streaming;
pub mod ui;
pub mod virtual_camera;

verus! {

/// The contract every handler meets.
pub trait CommandHandler {
    /// `p` is the work this handler does against the remote session.
    spec fn planned(&self, p: Plan) -> bool;

    /// The label of this handler.
    spec fn label(&self) -> Seq<char>;

    /// Builds the plan that `next_step` then carries out.
    fn plan(&self) -> (p: Plan)
        ensures
            self.planned(p),
    ;

    /// A short human label; it depends on the operation, not on the names
    /// the command carries.
    fn description(&self) -> (d: &'static str)
        ensures
            d@ == self.label(),
    ;
}

} // verus!
