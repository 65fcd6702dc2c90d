//! Detection of AI-generation signals in media files: the verified core.
use vstd::prelude::*;

pub mod detector;
pub mod known_tools;
pub mod output;
pub mod text;

verus! {

} // verus!
