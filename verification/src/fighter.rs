//! Static per-species template data: for every named action, a timeline of
//! frames, each owning a set of typed collision shapes.
//!
//! All lengths are fixed-point centiunits (100 centiunits = 1 world unit).

use vstd::prelude::*;

verus! {

/// Largest magnitude any single coordinate, offset or radius may take,
/// in centiunits. Keeps every squared-distance computation inside `i64`.
pub const COORD_LIMIT: i64 = 100_000_000;

/// A point offset, in centiunits.
#[derive(Clone, Copy, PartialEq, Eq, Structural, Debug)]
pub struct Point {
    pub x: i64,
    pub y: i64,
}

/// Payload of an active attack surface: damage, base knockback, knockback
/// growth, launch angle, clang resistance and the two clang behaviour flags.
#[derive(Clone, Copy, PartialEq, Eq, Structural, Debug)]
pub struct Hitbox {
    pub damage: u64,
    pub bkb: u64,
    pub kbg: u64,
    pub angle: u64,
    pub clang: u64,
    pub enable_clang: bool,
    pub enable_rebound: bool,
}

/// Payload of a damageable surface.
#[derive(Clone, Copy, PartialEq, Eq, Structural, Debug)]
pub struct Hurtbox {
    pub bkb_add: i64,
    pub damage_mult: i64,
}

/// Role of a collision shape; a closed set matched exhaustively at each
/// resolution site.
#[derive(Clone, Copy, PartialEq, Eq, Structural, Debug)]
pub enum HitboxType {
    Hurt(Hurtbox),
    Intangible,
    Invincible,
    Hit(Hitbox),
    Grab,
    Sleep,
    Freeze,
    Fire,
    Electric,
}

/// One collision surface of an action frame: a circle given by an offset
/// from the owning player's position and a radius, tagged with its role.
#[derive(Clone, Copy, PartialEq, Eq, Structural, Debug)]
pub struct CollisionBox {
    pub point: Point,
    pub radius: i64,
    pub role: HitboxType,
}

/// Motion effect applied externally while a frame is active.
#[derive(Clone, Copy, PartialEq, Eq, Structural, Debug)]
pub enum FrameEffect {
    Velocity { x: i64, y: i64 },
    Acceleration { x: i64, y: i64 },
}

/// One posed frame of an action: its collision shapes, its motion effects
/// and its environment-collision-box footprint (consumed outside this core).
#[derive(Clone, Debug)]
pub struct ActionFrame {
    pub colboxes: Vec<CollisionBox>,
    pub effects: Vec<FrameEffect>,
    pub ecb_w: i64,
    pub ecb_h: i64,
    pub ecb_y: i64,
}

/// An action's timeline of frames plus the frame index from which the
/// action may be interrupted (not enforced by this core).
#[derive(Clone, Debug)]
pub struct ActionDef {
    pub frames: Vec<ActionFrame>,
    pub iasa: u64,
}

/// Shield descriptor of a fighter: offset of the shield circle from the
/// player position, and its full size, in centiunits.
#[derive(Clone, Copy, PartialEq, Eq, Structural, Debug)]
pub struct Shield {
    pub offset_x: i64,
    pub offset_y: i64,
    pub size: i64,
}

/// Power-shield timing descriptor, carried through shield outcomes.
#[derive(Clone, Copy, PartialEq, Eq, Structural, Debug)]
pub struct PowerShield {
    pub reflect_window: Option<u64>,
    pub parry_window: Option<u64>,
}

/// The fixed enumeration of actions a fighter's catalog is indexed by.
#[derive(Clone, Copy, PartialEq, Eq, Structural, Debug)]
pub enum Action {
    // Idle
    Spawn,
    SpawnIdle,
    Idle,
    Crouch,
    // Movement
    Fall,
    AerialFall,
    Land,
    JumpSquat,
    JumpF,
    JumpB,
    JumpAerialF,
    JumpAerialB,
    Turn,
    Dash,
    Run,
    RunEnd,
    // Defense
    ShieldOn,
    Shield,
    ShieldOff,
    RollF,
    RollB,
    AerialDodge,
    SpecialFall,
    SpecialLand,
    TechF,
    TechS,
    TechB,
    // Attacks
    Jab,
    Jab2,
    Jab3,
    Utilt,
    Dtilt,
    Ftilt,
    DashAttack,
    Usmash,
    Dsmash,
    Fsmash,
    Grab,
    DashGrab,
    // Aerials
    Uair,
    Dair,
    Fair,
    Nair,
    UairLand,
    DairLand,
    FairLand,
    NairLand,
}

/// A fighter: its character-select presentation data, its physical
/// constants (consumed by physics, outside this core), its per-action
/// catalog of frame timelines, and its optional shield descriptors
/// (consumed by this core's shield check).
#[derive(Clone, Debug)]
pub struct Fighter {
    // character-select render
    pub name: String,
    pub name_short: String,
    pub css_action: Action,
    pub css_frame: u64,
    pub css_point1: Point,
    pub css_point2: Point,
    // in-game attributes, velocities and accelerations in centiunits
    pub air_jumps: u64,
    pub weight: u64,
    pub gravity: i64,
    pub terminal_vel: i64,
    pub jump_y_init_vel: i64,
    pub jump_y_init_vel_short: i64,
    pub jump_x_init_vel: i64,
    pub shield_size: i64,
    pub walk_init_vel: i64,
    pub walk_accel: i64,
    pub walk_max_vel: i64,
    pub slow_walk_max_vel: i64,
    pub dash_init_vel: i64,
    pub friction: i64,
    pub action_defs: Vec<ActionDef>,
    // shield descriptors consumed by the collision core
    pub shield: Option<Shield>,
    pub power_shield: Option<PowerShield>,
}

/// A hitbox payload is well formed when its damage fits in the signed range
/// the clang comparison is carried out in.
pub open spec fn hitbox_wf(h: Hitbox) -> bool {
    h.damage <= i64::MAX as u64
}

/// A collision shape is well formed when its offset and radius are bounded
/// by `COORD_LIMIT` and its payload, if any, is well formed.
pub open spec fn colbox_wf(c: CollisionBox) -> bool {
    &&& -COORD_LIMIT <= c.point.x <= COORD_LIMIT
    &&& -COORD_LIMIT <= c.point.y <= COORD_LIMIT
    &&& 0 <= c.radius <= COORD_LIMIT
    &&& match c.role {
        HitboxType::Hit(h) => hitbox_wf(h),
        _ => true,
    }
}

pub open spec fn colboxes_wf(cs: Seq<CollisionBox>) -> bool {
    forall|i: int| 0 <= i < cs.len() ==> colbox_wf(#[trigger] cs[i])
}

pub open spec fn frame_wf(f: ActionFrame) -> bool {
    colboxes_wf(f.colboxes@)
}

pub open spec fn action_def_wf(d: ActionDef) -> bool {
    forall|i: int| 0 <= i < d.frames@.len() ==> frame_wf(#[trigger] d.frames@[i])
}

pub open spec fn shield_wf(s: Shield) -> bool {
    &&& -COORD_LIMIT <= s.offset_x <= COORD_LIMIT
    &&& -COORD_LIMIT <= s.offset_y <= COORD_LIMIT
    &&& 0 <= s.size <= COORD_LIMIT
}

/// How many action definitions the demonstration fighter carries: one per
/// entry of `Action` preceding the final aerial-landing action.
pub const BASE_ACTION_DEF_COUNT: usize = 47;

/// The hurt surface every frame of the demonstration fighter carries.
pub open spec fn base_hurt_colbox() -> CollisionBox {
    CollisionBox {
        point: Point { x: 300, y: 500 },
        radius: 540,
        role: HitboxType::Hurt(Hurtbox { bkb_add: 0, damage_mult: 100 }),
    }
}

/// The attack surface every frame of the demonstration fighter carries.
pub open spec fn base_hit_colbox() -> CollisionBox {
    CollisionBox {
        point: Point { x: 500, y: 600 },
        radius: 100,
        role: HitboxType::Hit(
            Hitbox {
                damage: 13,
                bkb: 50,
                kbg: 70,
                angle: 40,
                clang: 3,
                enable_clang: true,
                enable_rebound: true,
            },
        ),
    }
}

/// One frame of the demonstration fighter: the hurt surface, the attack
/// surface, no motion effects, and its environment-collision footprint.
pub open spec fn base_frame_matches(f: ActionFrame) -> bool {
    &&& f.colboxes@ == seq![base_hurt_colbox(), base_hit_colbox()]
    &&& f.effects@ == Seq::<FrameEffect>::empty()
    &&& f.ecb_w == 350
    &&& f.ecb_h == 1200
    &&& f.ecb_y == 600
}

/// One action of the demonstration fighter: two identical frames,
/// interruptible from the start.
pub open spec fn base_action_def_matches(d: ActionDef) -> bool {
    &&& d.frames@.len() == 2
    &&& base_frame_matches(d.frames@[0])
    &&& base_frame_matches(d.frames@[1])
    &&& d.iasa == 0
}

/// The whole demonstration fighter.
pub open spec fn base_fighter_matches(f: Fighter) -> bool {
    &&& f.name@ == "Base Fighter"@
    &&& f.name_short@ == "BF"@
    &&& f.css_action == Action::Idle
    &&& f.css_frame == 0
    &&& f.css_point1 == (Point { x: 0, y: 0 })
    &&& f.css_point2 == (Point { x: 0, y: 0 })
    &&& f.air_jumps == 1
    &&& f.weight == 80
    &&& f.gravity == -13
    &&& f.terminal_vel == -200
    &&& f.jump_y_init_vel == 310
    &&& f.jump_y_init_vel_short == 190
    &&& f.jump_x_init_vel == 95
    &&& f.shield_size == 1500
    &&& f.walk_init_vel == 20
    &&& f.walk_accel == 10
    &&& f.walk_max_vel == 85
    &&& f.slow_walk_max_vel == 85
    &&& f.dash_init_vel == 8
    &&& f.friction == 5
    &&& f.action_defs@.len() == BASE_ACTION_DEF_COUNT
    &&& forall|i: int|
        0 <= i < f.action_defs@.len() ==> base_action_def_matches(#[trigger] f.action_defs@[i])
    &&& f.shield is None
    &&& f.power_shield is None
}

impl Fighter {
    /// One frame of the demonstration fighter.
    fn base_frame() -> (r: ActionFrame)
        ensures
            base_frame_matches(r),
    {
        let mut colboxes: Vec<CollisionBox> = Vec::new();
        colboxes.push(
            CollisionBox {
                point: Point { x: 300, y: 500 },
                radius: 540,
                role: HitboxType::Hurt(Hurtbox { bkb_add: 0, damage_mult: 100 }),
            },
        );
        colboxes.push(
            CollisionBox {
                point: Point { x: 500, y: 600 },
                radius: 100,
                role: HitboxType::Hit(
                    Hitbox {
                        damage: 13,
                        bkb: 50,
                        kbg: 70,
                        angle: 40,
                        clang: 3,
                        enable_clang: true,
                        enable_rebound: true,
                    },
                ),
            },
        );
        proof {
            assert(colboxes@ =~= seq![base_hurt_colbox(), base_hit_colbox()]);
        }
        ActionFrame { colboxes, effects: Vec::new(), ecb_w: 350, ecb_h: 1200, ecb_y: 600 }
    }

    /// One action definition of the demonstration fighter.
    fn base_action_def() -> (r: ActionDef)
        ensures
            base_action_def_matches(r),
    {
        let mut frames: Vec<ActionFrame> = Vec::new();
        frames.push(Fighter::base_frame());
        frames.push(Fighter::base_frame());
        ActionDef { frames, iasa: 0 }
    }

    /// The demonstration fighter handed out until package data replaces it.
    pub fn base() -> (r: Fighter)
        ensures
            base_fighter_matches(r),
            fighter_wf(r),
    {
        let mut action_defs: Vec<ActionDef> = Vec::new();
        while action_defs.len() < BASE_ACTION_DEF_COUNT
            invariant
                action_defs@.len() <= BASE_ACTION_DEF_COUNT,
                forall|i: int|
                    0 <= i < action_defs@.len() ==> base_action_def_matches(
                        #[trigger] action_defs@[i],
                    ),
            decreases BASE_ACTION_DEF_COUNT - action_defs@.len(),
        {
            action_defs.push(Fighter::base_action_def());
        }
        let r = Fighter {
            name: "Base Fighter".to_string(),
            name_short: "BF".to_string(),
            css_action: Action::Idle,
            css_frame: 0,
            css_point1: Point { x: 0, y: 0 },
            css_point2: Point { x: 0, y: 0 },
            air_jumps: 1,
            weight: 80,
            gravity: -13,
            terminal_vel: -200,
            jump_y_init_vel: 310,
            jump_y_init_vel_short: 190,
            jump_x_init_vel: 95,
            shield_size: 1500,
            walk_init_vel: 20,
            walk_accel: 10,
            walk_max_vel: 85,
            slow_walk_max_vel: 85,
            dash_init_vel: 8,
            friction: 5,
            action_defs,
            shield: None,
            power_shield: None,
        };
        proof {
            assert forall|i: int| 0 <= i < r.action_defs@.len() implies action_def_wf(
                #[trigger] r.action_defs@[i],
            ) by {
                assert(base_action_def_matches(r.action_defs@[i]));
                let d = r.action_defs@[i];
                assert forall|k: int| 0 <= k < d.frames@.len() implies frame_wf(
                    #[trigger] d.frames@[k],
                ) by {
                    assert(base_frame_matches(d.frames@[k]));
                    assert(colbox_wf(base_hurt_colbox()));
                    assert(colbox_wf(base_hit_colbox()));
                    assert(forall|c: int|
                        0 <= c < d.frames@[k].colboxes@.len() ==> colbox_wf(
                            #[trigger] d.frames@[k].colboxes@[c],
                        ));
                };
            };
        }
        r
    }
}

pub open spec fn fighter_wf(f: Fighter) -> bool {
    &&& forall|i: int| 0 <= i < f.action_defs@.len() ==> action_def_wf(#[trigger] f.action_defs@[i])
    &&& match f.shield {
        Some(s) => shield_wf(s),
        None => true,
    }
}

} // verus!
