use vstd::prelude::*;

pub mod camera;
pub mod composite;
pub mod rounding;
pub mod settings;
pub mod window;

verus! {

} // verus!
