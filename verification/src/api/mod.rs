//! The Toggl Track API as the client sees it: records on the wire, request
//! parameters and bodies, endpoints and the handling of responses.

pub mod wire;
pub mod client;
