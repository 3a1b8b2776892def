//! Client-side logic of a status page for a small set of named game-server
//! instances. The page shows the run state of each server, lets an operator
//! start, stop or update one, and enforces that at most one server is active
//! at a time. This crate holds the state machine that reconciles operator
//! actions with asynchronous server responses, the render model of the page,
//! and the wire format of the admin API; the browser shell around it only
//! draws the model and moves bytes.

pub mod model;
pub mod page;
pub mod laws;
pub mod render;
pub mod wire;
