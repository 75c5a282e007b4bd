//! Stage data consumed by the position-resolution accessor.

use vstd::prelude::*;
use crate::fighter::COORD_LIMIT;

verus! {

/// A stage platform: position of its walkable surface and its extent,
/// in centiunits. Platforms feed only the position-resolution accessor,
/// never the collision math directly.
#[derive(Clone, Copy, PartialEq, Eq, Structural, Debug)]
pub struct Platform {
    pub x: i64,
    pub y: i64,
    pub w: i64,
    pub h: i64,
}

pub open spec fn platform_wf(p: Platform) -> bool {
    &&& -COORD_LIMIT <= p.x <= COORD_LIMIT
    &&& -COORD_LIMIT <= p.y <= COORD_LIMIT
    &&& 0 <= p.w <= COORD_LIMIT
    &&& 0 <= p.h <= COORD_LIMIT
}

} // verus!
