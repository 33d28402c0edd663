use vstd::prelude::*;

pub mod error;
pub mod frame;
pub mod config;
pub mod timing;
pub mod device;
pub mod dispatch;

verus! {

} // verus!
