//! Recording of HTTP(S) traffic through an intercepting proxy and a browser
//! routed through it, together with the small project and test model that
//! the desktop application around it stores.
//!
//! The library holds the decisions: how a line of proxy output is
//! classified, how the newly launched browser is told apart from browsers
//! that already ran, which processes a teardown sweep must kill, and the
//! session's lifecycle as a state machine from inputs to actions. Spawning,
//! reading and killing processes is done by the caller.

pub mod text;
pub mod event;
pub mod process;
pub mod browser;
pub mod proxy;
pub mod session;
pub mod models;
pub mod operations;
pub mod application;
pub mod project;
pub mod js;
pub mod cloud;
pub mod executable;

use vstd::prelude::*;

verus! {

} // verus!
