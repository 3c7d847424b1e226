//! Decision logic of the `loc` command line: argument handling, quoting,
//! identifiers, plans and reports, each function proved against its contract.
use vstd::prelude::*;

pub mod args;
pub mod cli;
pub mod cloud_files;
pub mod comparing;
pub mod connect;
pub mod connect_flow;
pub mod create;
pub mod daemon;
pub mod daemon_report;
pub mod diff;
pub mod doctor;
pub mod failures;
pub mod file_provider;
pub mod grammar;
pub mod history;
pub mod hosted_flow;
pub mod hosted_state;
pub mod hosted_workspace;
pub mod json;
pub mod laws;
pub mod model;
pub mod mount_flow;
pub mod mounting;
pub mod oauth;
pub mod ordered_map;
pub mod overview;
pub mod paths;
pub mod printing;
pub mod projection;
pub mod providing;
pub mod pull;
pub mod push;
pub mod push_flow;
pub mod quoting;
pub mod read_back;
pub mod reconcile;
pub mod repair;
pub mod reply;
pub mod requests;
pub mod search;
pub mod search_flow;
pub mod sorting;
pub mod start_flow;
pub mod text;
pub mod undo;
pub mod undo_flow;

verus! {

} // verus!
