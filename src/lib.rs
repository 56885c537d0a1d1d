// The engine of a dual-pane terminal file manager: directory listings and
// their order, the two panels with cursor and selection, the viewport,
// quick search, the pending-operation state machine, and the decisions of
// the filesystem operations (moves across devices, tree copies, sizes).
use vstd::prelude::*;

pub mod app;
pub mod commands;
pub mod fs_ops;
pub mod listing;
pub mod navigation;
pub mod names;
pub mod operations;
pub mod panel;
pub mod search;
pub mod text;
pub mod utils;
pub mod viewer;
pub mod viewport;

verus! {

} // verus!
