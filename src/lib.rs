use vstd::prelude::*;

pub mod decode;
pub mod json;
pub mod publish;
pub mod request;
pub mod state;

verus! {

} // verus!
