use vstd::prelude::*;

pub mod arith;
pub mod decode;
pub mod extract;
pub mod html;
pub mod json;
pub mod page;
pub mod run;
pub mod text;

verus! {

} // verus!
