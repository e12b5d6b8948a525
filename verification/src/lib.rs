use vstd::prelude::*;

pub mod capture_time;
pub mod compose;
pub mod corpus;
pub mod errors;
pub mod metadata;
pub mod naming;
pub mod normalize;
pub mod timestamp;

verus! {

/// The fixed width in pixels of every normalized page.
pub const PAGE_WIDTH_PX: u32 = 1275;
/// The fixed height in pixels of every normalized page.
pub const PAGE_HEIGHT_PX: u32 = 1650;

} // verus!
