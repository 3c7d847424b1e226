//! What the commands promise, stated on what they are given and on what comes out
//! of them.
pub mod connect;
pub mod create;
pub mod daemon;
pub mod doctor;
pub mod failures;
pub mod flows;
pub mod hosted;
pub mod lines;
pub mod log;
pub mod mounting;
pub mod oauth;
pub mod overview;
pub mod preview;
pub mod projection;
pub mod providers;
pub mod push;
pub mod reply;
pub mod requests;
pub mod search;
pub mod undo;
pub mod undo_places;
pub mod undo_safety;
pub mod undo_told;
pub mod words;
