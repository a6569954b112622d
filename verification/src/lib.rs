//! Typed requests and responses for the Telraam traffic-camera API.
//!
//! The crate describes every operation of the API as a value, says which
//! request has to go over the wire for it, and turns the body that comes back
//! into a typed response. Moving bytes over the network is left to the caller.

pub mod camera;
pub mod client;
pub mod decode;
pub mod endpoint;
pub mod error;
pub mod geo;
pub mod json;
pub mod report;
pub mod response;
pub mod time;

use vstd::prelude::*;

verus! {

/// Version of the Telraam API this library supports.
pub const VER: &'static str = "v1";

} // verus!
