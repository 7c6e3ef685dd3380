//! A verified core for a team-browser application: it models the search
//! pipeline (directory fetch, random selection, image cache probe or fetch)
//! as an explicit state machine, together with the window-state update
//! function and the deterministic path and URL construction the pipeline
//! relies on. Network and filesystem effects are performed by a thin
//! unverified shell that executes the actions this library emits.

pub mod asset;
pub mod digits;
pub mod search;
pub mod select;
pub mod team;
pub mod ui;
