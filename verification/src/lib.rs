use vstd::prelude::*;

pub mod error;
pub mod misc;
pub mod response;
pub mod command;
pub mod constants;
pub mod gamestate;

verus! {

/// The numerical id of a player on a server. In rare edge cases this might be
/// 0, but it is almost always greater than 0 where found.
pub type PlayerId = u32;

} // verus!
