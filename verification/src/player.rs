//! The live, per-tick view of one player that the collision core reads.

use vstd::prelude::*;
use crate::fighter::{COORD_LIMIT, Shield};
use crate::stage::{Platform, platform_wf};

verus! {

/// Where a player currently stands; resolved against the stage's platform
/// list by the position accessor.
#[derive(Clone, PartialEq, Eq, Structural, Debug)]
pub enum Location {
    Airborne { x: i64, y: i64 },
    OnPlatform { platform_i: usize, x: i64 },
}

/// Read-only snapshot of a player for one resolution tick: which fighter it
/// plays, where it is in that fighter's action/frame timeline, its position,
/// its shield state, and the hitlist of opponents already struck by the
/// current, still-active attack.
#[derive(Clone, Debug)]
pub struct Player {
    pub fighter: String,
    pub action: u64,
    pub frame: u64,
    pub location: Location,
    pub hitlist: Vec<usize>,
    pub shielding: bool,
    pub shield_offset_x: i64,
    pub shield_offset_y: i64,
    pub shield_hp: u64,
}

/// Full shield health; a shield at this health has its fighter's full
/// shield size.
pub const SHIELD_HP_MAX: u64 = 6000;

/// A player's position and shield state are well formed with respect to a
/// stage: coordinates bounded, platform index valid, shield health within
/// range.
pub open spec fn player_wf(p: Player, platforms: Seq<Platform>) -> bool {
    &&& match p.location {
        Location::Airborne { x, y } => -COORD_LIMIT <= x <= COORD_LIMIT && -COORD_LIMIT <= y
            <= COORD_LIMIT,
        Location::OnPlatform { platform_i, x } => platform_i < platforms.len()
            && platform_wf(platforms[platform_i as int]) && -COORD_LIMIT <= x <= COORD_LIMIT,
    }
    &&& -COORD_LIMIT <= p.shield_offset_x <= COORD_LIMIT
    &&& -COORD_LIMIT <= p.shield_offset_y <= COORD_LIMIT
    &&& p.shield_hp <= SHIELD_HP_MAX
}

/// Absolute stage-relative position of a well-formed player, in centiunits.
pub open spec fn bps_xy_spec(p: Player, platforms: Seq<Platform>) -> (int, int) {
    match p.location {
        Location::Airborne { x, y } => (x as int, y as int),
        Location::OnPlatform { platform_i, x } => (
            platforms[platform_i as int].x + x,
            platforms[platform_i as int].y as int,
        ),
    }
}

/// Current radius of a player's shield circle: the fighter's full shield
/// size scaled down linearly with the player's remaining shield health.
pub open spec fn shield_size_spec(p: Player, shield: Shield) -> int {
    shield.size * p.shield_hp / (SHIELD_HP_MAX as int)
}

impl Player {
    /// Absolute stage-relative position this tick.
    pub fn bps_xy(&self, platforms: &Vec<Platform>) -> (r: (i64, i64))
        requires
            player_wf(*self, platforms@),
        ensures
            (r.0 as int, r.1 as int) == bps_xy_spec(*self, platforms@),
            -2 * COORD_LIMIT <= r.0 <= 2 * COORD_LIMIT,
            -2 * COORD_LIMIT <= r.1 <= 2 * COORD_LIMIT,
    {
        match &self.location {
            Location::Airborne { x, y } => (*x, *y),
            Location::OnPlatform { platform_i, x } => {
                let p = &platforms[*platform_i];
                (p.x + *x, p.y)
            },
        }
    }

    /// Whether the player holds a shield up this tick.
    pub fn is_shielding(&self) -> (r: bool)
        ensures
            r == self.shielding,
    {
        self.shielding
    }

    /// Radius of the player's shield circle for the given shield
    /// descriptor, in centiunits.
    pub fn shield_size(&self, shield: &Shield) -> (r: i64)
        requires
            self.shield_hp <= SHIELD_HP_MAX,
            0 <= shield.size <= COORD_LIMIT,
        ensures
            r as int == shield_size_spec(*self, *shield),
            0 <= r <= COORD_LIMIT,
    {
        proof {
            assert(shield.size * self.shield_hp <= COORD_LIMIT * SHIELD_HP_MAX) by (nonlinear_arith)
                requires
                    0 <= shield.size <= COORD_LIMIT,
                    0 <= self.shield_hp <= SHIELD_HP_MAX,
            ;
            assert(0 <= shield.size * self.shield_hp) by (nonlinear_arith)
                requires
                    0 <= shield.size,
                    0 <= self.shield_hp,
            ;
        }
        let scaled: i64 = shield.size * (self.shield_hp as i64);
        let r: i64 = scaled / (SHIELD_HP_MAX as i64);
        proof {
            assert((scaled as int) / (SHIELD_HP_MAX as int) <= COORD_LIMIT) by (nonlinear_arith)
                requires
                    0 <= scaled as int <= COORD_LIMIT * SHIELD_HP_MAX,
            ;
        }
        r
    }

    /// Whether an opponent's index is on this player's hitlist.
    pub fn hitlist_contains(&self, i: usize) -> (r: bool)
        ensures
            r == self.hitlist@.contains(i),
    {
        let mut k: usize = 0;
        while k < self.hitlist.len()
            invariant
                k <= self.hitlist@.len(),
                forall|j: int| 0 <= j < k ==> self.hitlist@[j] != i,
            decreases self.hitlist@.len() - k,
        {
            if self.hitlist[k] == i {
                return true;
            }
            k += 1;
        }
        false
    }
}

} // verus!
