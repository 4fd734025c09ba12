use vstd::prelude::*;

pub mod laws;
pub mod message;
pub mod request;
pub mod response;
pub mod room;
pub mod session;
pub mod state;

verus! {

} // verus!
