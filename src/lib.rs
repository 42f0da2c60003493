//! Cutting detected faces out of images: which files to process, where each
//! face is cropped, and the name each crop is saved under.
use vstd::prelude::*;

pub mod crop;
pub mod laws;
pub mod naming;
pub mod resolve;

verus! {

} // verus!
