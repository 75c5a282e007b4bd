//! The collision resolution engine: a pure function from the roster's pose
//! this tick to a per-player list of collision outcomes.

use vstd::prelude::*;
use treeflection::KeyedContextVec;
use crate::catalog::{kcv_lookup, kcv_pairs, kcv_key_to_value};
use crate::fighter::{
    COORD_LIMIT, ActionFrame, CollisionBox, Fighter, Hitbox, HitboxType, Hurtbox, PowerShield,
    action_def_wf, colbox_wf, colboxes_wf, fighter_wf, frame_wf, hitbox_wf,
};
use crate::player::{Player, SHIELD_HP_MAX, bps_xy_spec, player_wf, shield_size_spec};
use crate::stage::Platform;

verus! {

/// Near-miss tolerance beyond true contact, in centiunits (0.01 world
/// units): within it an attack whiffs as a phantom hit.
pub const PHANTOM_TOLERANCE: i64 = 1;

/// Classification of the overlap of two circles: `Hit` when the circles
/// truly overlap, `Phantom` when they come within the phantom tolerance of
/// touching, `Miss` otherwise.
#[derive(Clone, Copy, PartialEq, Eq, Structural, Debug)]
pub enum ColBoxCollisionResult {
    Hit,
    Phantom,
    Miss,
}

/// Squared distance between two points.
pub open spec fn dist_sq(x1: int, y1: int, x2: int, y2: int) -> int {
    (x1 - x2) * (x1 - x2) + (y1 - y2) * (y1 - y2)
}

/// Overlap classification from the sum of the radii and the squared centre
/// distance. The circles overlap when the radius sum strictly exceeds the
/// centre distance; comparing squares keeps the test exact.
pub open spec fn overlap_class(radius_sum: int, d2: int) -> ColBoxCollisionResult {
    if radius_sum * radius_sum > d2 {
        ColBoxCollisionResult::Hit
    } else if (radius_sum + PHANTOM_TOLERANCE) * (radius_sum + PHANTOM_TOLERANCE) > d2 {
        ColBoxCollisionResult::Phantom
    } else {
        ColBoxCollisionResult::Miss
    }
}

/// Absolute centre of a collision shape owned by a player standing at
/// `owner`.
pub open spec fn colbox_center(owner: (int, int), c: CollisionBox) -> (int, int) {
    (owner.0 + c.point.x, owner.1 + c.point.y)
}

/// Overlap classification of two collision shapes at their owners'
/// positions: the single geometric primitive of the engine.
pub open spec fn colbox_check_spec(
    p1: (int, int),
    c1: CollisionBox,
    p2: (int, int),
    c2: CollisionBox,
) -> ColBoxCollisionResult {
    let (x1, y1) = colbox_center(p1, c1);
    let (x2, y2) = colbox_center(p2, c2);
    overlap_class(c1.radius + c2.radius, dist_sq(x1, y1, x2, y2))
}

/// A position a well-formed player can occupy: bounded by twice the
/// coordinate limit (a platform offset plus a relative position).
pub open spec fn pos_wf(p: (int, int)) -> bool {
    &&& -2 * COORD_LIMIT <= p.0 <= 2 * COORD_LIMIT
    &&& -2 * COORD_LIMIT <= p.1 <= 2 * COORD_LIMIT
}

/// Classify the overlap of two collision shapes, each placed at its
/// owner's absolute position.
pub fn colbox_collision_check(
    player1_xy: (i64, i64),
    colbox1: &CollisionBox,
    player2_xy: (i64, i64),
    colbox2: &CollisionBox,
) -> (r: ColBoxCollisionResult)
    requires
        pos_wf((player1_xy.0 as int, player1_xy.1 as int)),
        pos_wf((player2_xy.0 as int, player2_xy.1 as int)),
        colbox_wf(*colbox1),
        colbox_wf(*colbox2),
    ensures
        r == colbox_check_spec(
            (player1_xy.0 as int, player1_xy.1 as int),
            *colbox1,
            (player2_xy.0 as int, player2_xy.1 as int),
            *colbox2,
        ),
{
    let x1: i64 = player1_xy.0 + colbox1.point.x;
    let y1: i64 = player1_xy.1 + colbox1.point.y;
    let x2: i64 = player2_xy.0 + colbox2.point.x;
    let y2: i64 = player2_xy.1 + colbox2.point.y;
    let radius_sum: i64 = colbox1.radius + colbox2.radius;
    let dx: i64 = x1 - x2;
    let dy: i64 = y1 - y2;
    proof {
        lemma_square_bound(dx as int, 6 * COORD_LIMIT);
        lemma_square_bound(dy as int, 6 * COORD_LIMIT);
        lemma_square_bound(radius_sum as int, 2 * COORD_LIMIT);
        lemma_square_bound(radius_sum + PHANTOM_TOLERANCE, 2 * COORD_LIMIT + PHANTOM_TOLERANCE);
    }
    let d2: i64 = dx * dx + dy * dy;
    if radius_sum * radius_sum > d2 {
        ColBoxCollisionResult::Hit
    } else if (radius_sum + PHANTOM_TOLERANCE) * (radius_sum + PHANTOM_TOLERANCE) > d2 {
        ColBoxCollisionResult::Phantom
    } else {
        ColBoxCollisionResult::Miss
    }
}

/// For `|a| <= b`, the square of `a` lies between 0 and `b * b`.
proof fn lemma_square_bound(a: int, b: int)
    requires
        -b <= a <= b,
    ensures
        0 <= a * a <= b * b,
{
    assert(0 <= a * a <= b * b) by (nonlinear_arith)
        requires
            -b <= a <= b,
    ;
}

/// Overlap classification is symmetric in its two shapes.
pub proof fn lemma_overlap_symmetric(
    p1: (int, int),
    c1: CollisionBox,
    p2: (int, int),
    c2: CollisionBox,
)
    ensures
        colbox_check_spec(p1, c1, p2, c2) == colbox_check_spec(p2, c2, p1, c1),
{
    let (x1, y1) = colbox_center(p1, c1);
    let (x2, y2) = colbox_center(p2, c2);
    assert(dist_sq(x1, y1, x2, y2) == dist_sq(x2, y2, x1, y1)) by (nonlinear_arith);
}

/// The phantom band is strictly "near but not touching": with `s` the
/// radius sum and `d2` the squared centre distance, true overlap
/// (`d2 < s * s`) classifies as a hit, the band from touching up to the
/// phantom tolerance classifies as a phantom, and everything farther
/// classifies as no overlap.
pub proof fn lemma_phantom_band(radius_sum: int, d2: int)
    requires
        radius_sum >= 0,
        d2 >= 0,
    ensures
        d2 < radius_sum * radius_sum ==> overlap_class(radius_sum, d2)
            == ColBoxCollisionResult::Hit,
        radius_sum * radius_sum <= d2 < (radius_sum + PHANTOM_TOLERANCE) * (radius_sum
            + PHANTOM_TOLERANCE) ==> overlap_class(radius_sum, d2) == ColBoxCollisionResult::Phantom,
        d2 >= (radius_sum + PHANTOM_TOLERANCE) * (radius_sum + PHANTOM_TOLERANCE) ==> overlap_class(
            radius_sum,
            d2,
        ) == ColBoxCollisionResult::Miss,
{
    assert(radius_sum * radius_sum <= (radius_sum + PHANTOM_TOLERANCE) * (radius_sum
        + PHANTOM_TOLERANCE)) by (nonlinear_arith)
        requires
            radius_sum >= 0,
    ;
}

/// One collision outcome delivered to a single player's list. Outcomes come
/// in attacker/defender pairs except `Clang`, whose rebound flag differs per
/// side, and `HitAtk` against an invincible defender, which has no defender
/// entry. The reflect and absorb variants are reserved for projectile
/// handling and are not yet produced.
#[derive(Clone, Copy, PartialEq, Eq, Structural, Debug)]
pub enum CollisionResult {
    PhantomDef(Hitbox, Hurtbox),
    PhantomAtk(Hitbox, usize),
    HitDef { hitbox: Hitbox, hurtbox: Hurtbox, player_atk_i: usize },
    HitAtk { hitbox: Hitbox, player_def_i: usize },
    HitShieldAtk { hitbox: Hitbox, power_shield: Option<PowerShield>, player_def_i: usize },
    HitShieldDef { hitbox: Hitbox, power_shield: Option<PowerShield>, player_atk_i: usize },
    ReflectDef(Hitbox),
    ReflectAtk(Hitbox),
    AbsorbDef(Hitbox),
    AbsorbAtk(Hitbox),
    GrabDef(usize),
    GrabAtk(usize),
    Clang { rebound: bool },
}

/// Whether an attacker shape is absorbed by the defender's shield: the
/// defender must be shielding, its fighter must carry a shield descriptor,
/// and the attacker shape must truly overlap the shield circle (no phantom
/// margin).
pub open spec fn shield_check_spec(
    axy: (int, int),
    ca: CollisionBox,
    dxy: (int, int),
    def: Player,
    fighter_def: Fighter,
) -> bool {
    match fighter_def.shield {
        Some(shield) => def.shielding && {
            let (x1, y1) = colbox_center(axy, ca);
            let x2 = dxy.0 + def.shield_offset_x + shield.offset_x;
            let y2 = dxy.1 + def.shield_offset_y + shield.offset_y;
            let radius_sum = ca.radius + shield_size_spec(def, shield);
            radius_sum * radius_sum > dist_sq(x1, y1, x2, y2)
        },
        None => false,
    }
}

/// Whether an attacker shape overlaps the defender's shield this tick.
pub fn colbox_shield_collision_check(
    player1_xy: (i64, i64),
    colbox1: &CollisionBox,
    player2_xy: (i64, i64),
    player2: &Player,
    fighter2: &Fighter,
) -> (r: bool)
    requires
        pos_wf((player1_xy.0 as int, player1_xy.1 as int)),
        pos_wf((player2_xy.0 as int, player2_xy.1 as int)),
        colbox_wf(*colbox1),
        fighter_wf(*fighter2),
        player2.shield_hp <= SHIELD_HP_MAX,
        -COORD_LIMIT <= player2.shield_offset_x <= COORD_LIMIT,
        -COORD_LIMIT <= player2.shield_offset_y <= COORD_LIMIT,
    ensures
        r == shield_check_spec(
            (player1_xy.0 as int, player1_xy.1 as int),
            *colbox1,
            (player2_xy.0 as int, player2_xy.1 as int),
            *player2,
            *fighter2,
        ),
{
    match &fighter2.shield {
        Some(shield) => {
            if player2.is_shielding() {
                let x1: i64 = player1_xy.0 + colbox1.point.x;
                let y1: i64 = player1_xy.1 + colbox1.point.y;
                let x2: i64 = player2_xy.0 + player2.shield_offset_x + shield.offset_x;
                let y2: i64 = player2_xy.1 + player2.shield_offset_y + shield.offset_y;
                let radius_sum: i64 = colbox1.radius + player2.shield_size(shield);
                let dx: i64 = x1 - x2;
                let dy: i64 = y1 - y2;
                proof {
                    lemma_square_bound(dx as int, 7 * COORD_LIMIT);
                    lemma_square_bound(dy as int, 7 * COORD_LIMIT);
                    lemma_square_bound(radius_sum as int, 2 * COORD_LIMIT);
                }
                let d2: i64 = dx * dx + dy * dy;
                radius_sum * radius_sum > d2
            } else {
                false
            }
        },
        None => false,
    }
}

/// What the hit/invincibility/phantom scan of the defender's shapes found
/// for one attacker shape.
#[derive(Clone, Copy, PartialEq, Eq, Structural, Debug)]
pub enum HitScanEvent {
    HurtHit(Hurtbox),
    InvincibleHit,
    PhantomHurt(Hurtbox),
}

/// The terminal event one attacker shape produced against one defender.
#[derive(Clone, Copy, PartialEq, Eq, Structural, Debug)]
pub enum ShapeEvent {
    ShieldAbsorb,
    ClangWith(Hitbox),
    Scan(HitScanEvent),
}

/// First defender shape at or after index `j` whose role is `Hit` and which
/// truly overlaps the attacker shape; yields the defender's hitbox payload.
pub open spec fn clang_match_from(
    cs_def: Seq<CollisionBox>,
    j: int,
    axy: (int, int),
    ca: CollisionBox,
    dxy: (int, int),
) -> Option<Hitbox>
    decreases cs_def.len() - j,
{
    if j < 0 || j >= cs_def.len() {
        None
    } else {
        match cs_def[j].role {
            HitboxType::Hit(hd) => {
                if colbox_check_spec(axy, ca, dxy, cs_def[j]) == ColBoxCollisionResult::Hit {
                    Some(hd)
                } else {
                    clang_match_from(cs_def, j + 1, axy, ca, dxy)
                }
            },
            _ => clang_match_from(cs_def, j + 1, axy, ca, dxy),
        }
    }
}

/// First defender shape at or after index `j` that ends the hit scan for
/// one attacker shape: a truly overlapped hurtbox, a truly overlapped
/// invincible surface, or a hurtbox within the phantom band.
pub open spec fn hit_scan_from(
    cs_def: Seq<CollisionBox>,
    j: int,
    axy: (int, int),
    ca: CollisionBox,
    dxy: (int, int),
) -> Option<HitScanEvent>
    decreases cs_def.len() - j,
{
    if j < 0 || j >= cs_def.len() {
        None
    } else {
        let class = colbox_check_spec(axy, ca, dxy, cs_def[j]);
        match cs_def[j].role {
            HitboxType::Hurt(hurtbox) => {
                if class == ColBoxCollisionResult::Hit {
                    Some(HitScanEvent::HurtHit(hurtbox))
                } else if class == ColBoxCollisionResult::Phantom {
                    Some(HitScanEvent::PhantomHurt(hurtbox))
                } else {
                    hit_scan_from(cs_def, j + 1, axy, ca, dxy)
                }
            },
            HitboxType::Invincible => {
                if class == ColBoxCollisionResult::Hit {
                    Some(HitScanEvent::InvincibleHit)
                } else {
                    hit_scan_from(cs_def, j + 1, axy, ca, dxy)
                }
            },
            _ => hit_scan_from(cs_def, j + 1, axy, ca, dxy),
        }
    }
}

/// The event one attacker hit shape produces against a defender, in
/// priority order: shield absorption first, then a clang against a
/// defending hitbox (only if the attack clangs at all), then the hit scan.
pub open spec fn shape_event(
    axy: (int, int),
    ca: CollisionBox,
    ha: Hitbox,
    dxy: (int, int),
    def: Player,
    fighter_def: Fighter,
    cs_def: Seq<CollisionBox>,
) -> Option<ShapeEvent> {
    if shield_check_spec(axy, ca, dxy, def, fighter_def) {
        Some(ShapeEvent::ShieldAbsorb)
    } else {
        match (if ha.enable_clang {
            clang_match_from(cs_def, 0, axy, ca, dxy)
        } else {
            None
        }) {
            Some(hd) => Some(ShapeEvent::ClangWith(hd)),
            None => match hit_scan_from(cs_def, 0, axy, ca, dxy) {
                Some(e) => Some(ShapeEvent::Scan(e)),
                None => None,
            },
        }
    }
}

/// First attacker shape at or after index `j` with a `Hit` role that
/// produces an event against the defender; yields the attacker's hitbox
/// payload and the event.
pub open spec fn atk_scan_from(
    cs_atk: Seq<CollisionBox>,
    j: int,
    axy: (int, int),
    dxy: (int, int),
    def: Player,
    fighter_def: Fighter,
    cs_def: Seq<CollisionBox>,
) -> Option<(Hitbox, ShapeEvent)>
    decreases cs_atk.len() - j,
{
    if j < 0 || j >= cs_atk.len() {
        None
    } else {
        match cs_atk[j].role {
            HitboxType::Hit(ha) => match shape_event(
                axy,
                cs_atk[j],
                ha,
                dxy,
                def,
                fighter_def,
                cs_def,
            ) {
                Some(ev) => Some((ha, ev)),
                None => atk_scan_from(cs_atk, j + 1, axy, dxy, def, fighter_def, cs_def),
            },
            _ => atk_scan_from(cs_atk, j + 1, axy, dxy, def, fighter_def, cs_def),
        }
    }
}

/// Whether any attacker `Grab` shape truly overlaps any defender shape.
pub open spec fn grab_found(
    cs_atk: Seq<CollisionBox>,
    axy: (int, int),
    dxy: (int, int),
    cs_def: Seq<CollisionBox>,
) -> bool {
    exists|j: int, k: int|
        0 <= j < cs_atk.len() && 0 <= k < cs_def.len() && (#[trigger] cs_atk[j]).role
            == HitboxType::Grab && colbox_check_spec(axy, cs_atk[j], dxy, #[trigger] cs_def[k])
            == ColBoxCollisionResult::Hit
}

/// The fighter a player references in the catalog's pair sequence.
pub open spec fn fighter_of(fpairs: Seq<(Seq<char>, Fighter)>, p: Player) -> Fighter {
    match kcv_lookup(fpairs, p.fighter@) {
        Some(f) => f,
        None => arbitrary(),
    }
}

/// The action frame a player currently poses.
pub open spec fn frame_of(fpairs: Seq<(Seq<char>, Fighter)>, p: Player) -> ActionFrame {
    fighter_of(fpairs, p).action_defs@[p.action as int].frames@[p.frame as int]
}

/// A player is fit for resolution: well formed against the stage, its
/// fighter identifier resolves in the catalog, the fighter is well formed,
/// and its action/frame indices are in bounds.
pub open spec fn player_roster_wf(
    p: Player,
    fpairs: Seq<(Seq<char>, Fighter)>,
    platforms: Seq<Platform>,
) -> bool {
    &&& player_wf(p, platforms)
    &&& kcv_lookup(fpairs, p.fighter@) is Some
    &&& fighter_wf(fighter_of(fpairs, p))
    &&& p.action < fighter_of(fpairs, p).action_defs@.len()
    &&& p.frame < fighter_of(fpairs, p).action_defs@[p.action as int].frames@.len()
}

/// Every player of the roster is fit for resolution.
pub open spec fn roster_wf(
    players: Seq<Player>,
    fpairs: Seq<(Seq<char>, Fighter)>,
    platforms: Seq<Platform>,
) -> bool {
    forall|i: int| 0 <= i < players.len() ==> player_roster_wf(#[trigger] players[i], fpairs, platforms)
}

/// Whether the ordered pair attacker `a` / defender `d` is evaluated at
/// all: a player never attacks itself, and a defender already on the
/// attacker's hitlist is skipped.
pub open spec fn pair_active(players: Seq<Player>, a: int, d: int) -> bool {
    a != d && !players[a].hitlist@.contains(d as usize)
}

/// The outcomes the pair attacker `a` / defender `d` contributes, as
/// (attacker's entries, defender's entries, whether the whole scan aborts).
/// Shield absorption ends only this pair's hit pass; every other event —
/// a clang resolved by the damage difference, a clean or invincible hit,
/// a phantom, a landed grab — aborts the entire remaining scan.
pub open spec fn pair_outcomes(
    players: Seq<Player>,
    fpairs: Seq<(Seq<char>, Fighter)>,
    platforms: Seq<Platform>,
    a: int,
    d: int,
) -> (Seq<CollisionResult>, Seq<CollisionResult>, bool) {
    let atk = players[a];
    let def = players[d];
    let axy = bps_xy_spec(atk, platforms);
    let dxy = bps_xy_spec(def, platforms);
    let fd = fighter_of(fpairs, def);
    let cs_atk = frame_of(fpairs, atk).colboxes@;
    let cs_def = frame_of(fpairs, def).colboxes@;
    let grab = grab_found(cs_atk, axy, dxy, cs_def);
    let grab_oa: Seq<CollisionResult> = if grab {
        seq![CollisionResult::GrabAtk(d as usize)]
    } else {
        Seq::empty()
    };
    let grab_od: Seq<CollisionResult> = if grab {
        seq![CollisionResult::GrabDef(a as usize)]
    } else {
        Seq::empty()
    };
    match atk_scan_from(cs_atk, 0, axy, dxy, def, fd, cs_def) {
        Some((ha, ShapeEvent::ShieldAbsorb)) => (
            seq![
                CollisionResult::HitShieldAtk {
                    hitbox: ha,
                    power_shield: fd.power_shield,
                    player_def_i: d as usize,
                },
            ] + grab_oa,
            seq![
                CollisionResult::HitShieldDef {
                    hitbox: ha,
                    power_shield: fd.power_shield,
                    player_atk_i: a as usize,
                },
            ] + grab_od,
            grab,
        ),
        Some((ha, ShapeEvent::ClangWith(hd))) => {
            let damage_diff = ha.damage - hd.damage;
            if damage_diff >= 9 {
                (
                    seq![CollisionResult::Clang { rebound: ha.enable_rebound }],
                    seq![CollisionResult::HitAtk { hitbox: ha, player_def_i: d as usize }],
                    true,
                )
            } else if damage_diff <= -9 {
                (
                    seq![CollisionResult::HitAtk { hitbox: ha, player_def_i: d as usize }],
                    seq![CollisionResult::Clang { rebound: hd.enable_rebound }],
                    true,
                )
            } else {
                (
                    seq![CollisionResult::Clang { rebound: ha.enable_rebound }],
                    seq![CollisionResult::Clang { rebound: hd.enable_rebound }],
                    true,
                )
            }
        },
        Some((ha, ShapeEvent::Scan(ev))) => match ev {
            HitScanEvent::HurtHit(hurtbox) => (
                seq![CollisionResult::HitAtk { hitbox: ha, player_def_i: d as usize }],
                seq![
                    CollisionResult::HitDef { hitbox: ha, hurtbox, player_atk_i: a as usize },
                ],
                true,
            ),
            HitScanEvent::InvincibleHit => (
                seq![CollisionResult::HitAtk { hitbox: ha, player_def_i: d as usize }],
                Seq::empty(),
                true,
            ),
            HitScanEvent::PhantomHurt(hurtbox) => (
                seq![CollisionResult::PhantomAtk(ha, d as usize)],
                seq![CollisionResult::PhantomDef(ha, hurtbox)],
                true,
            ),
        },
        None => (grab_oa, grab_od, grab),
    }
}

/// One empty outcome list per player.
pub open spec fn empty_results(n: int) -> Seq<Seq<CollisionResult>> {
    Seq::new(n as nat, |i: int| Seq::<CollisionResult>::empty())
}

/// Fold one pair into the accumulated outcome lists.
pub open spec fn apply_pair(
    acc: Seq<Seq<CollisionResult>>,
    players: Seq<Player>,
    fpairs: Seq<(Seq<char>, Fighter)>,
    platforms: Seq<Platform>,
    a: int,
    d: int,
) -> (Seq<Seq<CollisionResult>>, bool) {
    if !pair_active(players, a, d) {
        (acc, false)
    } else {
        let (oa, od, abort) = pair_outcomes(players, fpairs, platforms, a, d);
        (acc.update(a, acc[a] + oa).update(d, acc[d] + od), abort)
    }
}

/// The attacker-major scan from pair (`a`, `d`) on, with `acc` the lists
/// accumulated so far; the first aborting pair ends the whole scan.
pub open spec fn scan_from(
    players: Seq<Player>,
    fpairs: Seq<(Seq<char>, Fighter)>,
    platforms: Seq<Platform>,
    a: int,
    d: int,
    acc: Seq<Seq<CollisionResult>>,
) -> Seq<Seq<CollisionResult>>
    decreases players.len() - a, players.len() - d,
{
    if a < 0 || a >= players.len() || d < 0 {
        acc
    } else if d >= players.len() {
        scan_from(players, fpairs, platforms, a + 1, 0, acc)
    } else {
        let (acc2, abort) = apply_pair(acc, players, fpairs, platforms, a, d);
        if abort {
            acc2
        } else {
            scan_from(players, fpairs, platforms, a, d + 1, acc2)
        }
    }
}

/// The whole resolution: per-player outcome lists for this tick.
pub open spec fn collision_check_spec(
    players: Seq<Player>,
    fpairs: Seq<(Seq<char>, Fighter)>,
    platforms: Seq<Platform>,
) -> Seq<Seq<CollisionResult>> {
    scan_from(players, fpairs, platforms, 0, 0, empty_results(players.len() as int))
}

/// An executable position as its mathematical pair.
pub open spec fn posi(p: (i64, i64)) -> (int, int) {
    (p.0 as int, p.1 as int)
}

/// Find the defending hitbox the clang check of one attacker shape settles
/// on: the first `Hit`-role shape of the defender's frame truly overlapping
/// the attacker shape.
fn find_clang(
    cs_def: &Vec<CollisionBox>,
    axy: (i64, i64),
    ca: &CollisionBox,
    dxy: (i64, i64),
) -> (r: Option<Hitbox>)
    requires
        pos_wf(posi(axy)),
        pos_wf(posi(dxy)),
        colbox_wf(*ca),
        colboxes_wf(cs_def@),
    ensures
        r == clang_match_from(cs_def@, 0, posi(axy), *ca, posi(dxy)),
{
    let mut j: usize = 0;
    while j < cs_def.len()
        invariant
            j <= cs_def@.len(),
            pos_wf(posi(axy)),
            pos_wf(posi(dxy)),
            colbox_wf(*ca),
            colboxes_wf(cs_def@),
            clang_match_from(cs_def@, 0, posi(axy), *ca, posi(dxy)) == clang_match_from(
                cs_def@,
                j as int,
                posi(axy),
                *ca,
                posi(dxy),
            ),
        decreases cs_def@.len() - j,
    {
        match cs_def[j].role {
            HitboxType::Hit(hd) => {
                let class = colbox_collision_check(axy, ca, dxy, &cs_def[j]);
                if class == ColBoxCollisionResult::Hit {
                    return Some(hd);
                }
            },
            _ => {},
        }
        j += 1;
    }
    None
}

/// Run the hit/invincibility/phantom scan of one attacker shape over the
/// defender's frame: the first hurtbox or invincible surface it reaches.
fn hit_scan(
    cs_def: &Vec<CollisionBox>,
    axy: (i64, i64),
    ca: &CollisionBox,
    dxy: (i64, i64),
) -> (r: Option<HitScanEvent>)
    requires
        pos_wf(posi(axy)),
        pos_wf(posi(dxy)),
        colbox_wf(*ca),
        colboxes_wf(cs_def@),
    ensures
        r == hit_scan_from(cs_def@, 0, posi(axy), *ca, posi(dxy)),
{
    let mut j: usize = 0;
    while j < cs_def.len()
        invariant
            j <= cs_def@.len(),
            pos_wf(posi(axy)),
            pos_wf(posi(dxy)),
            colbox_wf(*ca),
            colboxes_wf(cs_def@),
            hit_scan_from(cs_def@, 0, posi(axy), *ca, posi(dxy)) == hit_scan_from(
                cs_def@,
                j as int,
                posi(axy),
                *ca,
                posi(dxy),
            ),
        decreases cs_def@.len() - j,
    {
        let class = colbox_collision_check(axy, ca, dxy, &cs_def[j]);
        match cs_def[j].role {
            HitboxType::Hurt(hurtbox) => {
                if class == ColBoxCollisionResult::Hit {
                    return Some(HitScanEvent::HurtHit(hurtbox));
                } else if class == ColBoxCollisionResult::Phantom {
                    return Some(HitScanEvent::PhantomHurt(hurtbox));
                }
            },
            HitboxType::Invincible => {
                if class == ColBoxCollisionResult::Hit {
                    return Some(HitScanEvent::InvincibleHit);
                }
            },
            _ => {},
        }
        j += 1;
    }
    None
}

/// Resolve one attacker hit shape against a defender: shield first, then
/// the clang check, then the hit scan.
fn check_shape(
    axy: (i64, i64),
    ca: &CollisionBox,
    ha: Hitbox,
    dxy: (i64, i64),
    def: &Player,
    fighter_def: &Fighter,
    cs_def: &Vec<CollisionBox>,
) -> (r: Option<ShapeEvent>)
    requires
        pos_wf(posi(axy)),
        pos_wf(posi(dxy)),
        colbox_wf(*ca),
        fighter_wf(*fighter_def),
        def.shield_hp <= SHIELD_HP_MAX,
        -COORD_LIMIT <= def.shield_offset_x <= COORD_LIMIT,
        -COORD_LIMIT <= def.shield_offset_y <= COORD_LIMIT,
        colboxes_wf(cs_def@),
    ensures
        r == shape_event(posi(axy), *ca, ha, posi(dxy), *def, *fighter_def, cs_def@),
{
    if colbox_shield_collision_check(axy, ca, dxy, def, fighter_def) {
        return Some(ShapeEvent::ShieldAbsorb);
    }
    if ha.enable_clang {
        match find_clang(cs_def, axy, ca, dxy) {
            Some(hd) => {
                return Some(ShapeEvent::ClangWith(hd));
            },
            None => {},
        }
    }
    match hit_scan(cs_def, axy, ca, dxy) {
        Some(e) => Some(ShapeEvent::Scan(e)),
        None => None,
    }
}

/// Walk the attacker's hit shapes in frame order until one produces an
/// event against the defender.
fn atk_scan(
    cs_atk: &Vec<CollisionBox>,
    axy: (i64, i64),
    dxy: (i64, i64),
    def: &Player,
    fighter_def: &Fighter,
    cs_def: &Vec<CollisionBox>,
) -> (r: Option<(Hitbox, ShapeEvent)>)
    requires
        pos_wf(posi(axy)),
        pos_wf(posi(dxy)),
        colboxes_wf(cs_atk@),
        fighter_wf(*fighter_def),
        def.shield_hp <= SHIELD_HP_MAX,
        -COORD_LIMIT <= def.shield_offset_x <= COORD_LIMIT,
        -COORD_LIMIT <= def.shield_offset_y <= COORD_LIMIT,
        colboxes_wf(cs_def@),
    ensures
        r == atk_scan_from(cs_atk@, 0, posi(axy), posi(dxy), *def, *fighter_def, cs_def@),
{
    let mut j: usize = 0;
    while j < cs_atk.len()
        invariant
            j <= cs_atk@.len(),
            pos_wf(posi(axy)),
            pos_wf(posi(dxy)),
            colboxes_wf(cs_atk@),
            fighter_wf(*fighter_def),
            def.shield_hp <= SHIELD_HP_MAX,
            -COORD_LIMIT <= def.shield_offset_x <= COORD_LIMIT,
            -COORD_LIMIT <= def.shield_offset_y <= COORD_LIMIT,
            colboxes_wf(cs_def@),
            atk_scan_from(cs_atk@, 0, posi(axy), posi(dxy), *def, *fighter_def, cs_def@)
                == atk_scan_from(
                cs_atk@,
                j as int,
                posi(axy),
                posi(dxy),
                *def,
                *fighter_def,
                cs_def@,
            ),
        decreases cs_atk@.len() - j,
    {
        match cs_atk[j].role {
            HitboxType::Hit(ha) => {
                match check_shape(axy, &cs_atk[j], ha, dxy, def, fighter_def, cs_def) {
                    Some(ev) => {
                        return Some((ha, ev));
                    },
                    None => {},
                }
            },
            _ => {},
        }
        j += 1;
    }
    None
}

/// Whether any of the attacker's `Grab` shapes truly overlaps any shape of
/// the defender's frame.
fn grab_check(
    cs_atk: &Vec<CollisionBox>,
    axy: (i64, i64),
    dxy: (i64, i64),
    cs_def: &Vec<CollisionBox>,
) -> (r: bool)
    requires
        pos_wf(posi(axy)),
        pos_wf(posi(dxy)),
        colboxes_wf(cs_atk@),
        colboxes_wf(cs_def@),
    ensures
        r == grab_found(cs_atk@, posi(axy), posi(dxy), cs_def@),
{
    let mut j: usize = 0;
    while j < cs_atk.len()
        invariant
            j <= cs_atk@.len(),
            pos_wf(posi(axy)),
            pos_wf(posi(dxy)),
            colboxes_wf(cs_atk@),
            colboxes_wf(cs_def@),
            forall|j2: int, k2: int|
                0 <= j2 < j && 0 <= k2 < cs_def@.len() ==> !((#[trigger] cs_atk@[j2]).role
                    == HitboxType::Grab && colbox_check_spec(
                    posi(axy),
                    cs_atk@[j2],
                    posi(dxy),
                    #[trigger] cs_def@[k2],
                ) == ColBoxCollisionResult::Hit),
        decreases cs_atk@.len() - j,
    {
        match cs_atk[j].role {
            HitboxType::Grab => {
                let mut k: usize = 0;
                while k < cs_def.len()
                    invariant
                        j < cs_atk@.len(),
                        k <= cs_def@.len(),
                        pos_wf(posi(axy)),
                        pos_wf(posi(dxy)),
                        colboxes_wf(cs_atk@),
                        colboxes_wf(cs_def@),
                        cs_atk@[j as int].role == HitboxType::Grab,
                        forall|j2: int, k2: int|
                            0 <= j2 < j && 0 <= k2 < cs_def@.len() ==> !((#[trigger] cs_atk@[j2]).role
                                == HitboxType::Grab && colbox_check_spec(
                                posi(axy),
                                cs_atk@[j2],
                                posi(dxy),
                                #[trigger] cs_def@[k2],
                            ) == ColBoxCollisionResult::Hit),
                        forall|k2: int|
                            0 <= k2 < k ==> colbox_check_spec(
                                posi(axy),
                                cs_atk@[j as int],
                                posi(dxy),
                                #[trigger] cs_def@[k2],
                            ) != ColBoxCollisionResult::Hit,
                    decreases cs_def@.len() - k,
                {
                    let class = colbox_collision_check(axy, &cs_atk[j], dxy, &cs_def[k]);
                    if class == ColBoxCollisionResult::Hit {
                        return true;
                    }
                    k += 1;
                }
            },
            _ => {},
        }
        j += 1;
    }
    proof {
        if grab_found(cs_atk@, posi(axy), posi(dxy), cs_def@) {
            let (j2, k2) = choose|j2: int, k2: int|
                0 <= j2 < cs_atk@.len() && 0 <= k2 < cs_def@.len() && (#[trigger] cs_atk@[j2]).role
                    == HitboxType::Grab && colbox_check_spec(
                    posi(axy),
                    cs_atk@[j2],
                    posi(dxy),
                    #[trigger] cs_def@[k2],
                ) == ColBoxCollisionResult::Hit;
            assert(false);
        }
    }
    false
}

/// In a well-formed frame, the payload a clang match settles on is well
/// formed.
proof fn lemma_clang_match_wf(
    cs_def: Seq<CollisionBox>,
    j: int,
    axy: (int, int),
    ca: CollisionBox,
    dxy: (int, int),
)
    requires
        colboxes_wf(cs_def),
    ensures
        match clang_match_from(cs_def, j, axy, ca, dxy) {
            Some(hd) => hitbox_wf(hd),
            None => true,
        },
    decreases cs_def.len() - j,
{
    if j < 0 || j >= cs_def.len() {
    } else {
        lemma_clang_match_wf(cs_def, j + 1, axy, ca, dxy);
    }
}

/// In well-formed frames, the payloads an attacker scan settles on are
/// well formed.
proof fn lemma_atk_scan_wf(
    cs_atk: Seq<CollisionBox>,
    j: int,
    axy: (int, int),
    dxy: (int, int),
    def: Player,
    fighter_def: Fighter,
    cs_def: Seq<CollisionBox>,
)
    requires
        colboxes_wf(cs_atk),
        colboxes_wf(cs_def),
    ensures
        match atk_scan_from(cs_atk, j, axy, dxy, def, fighter_def, cs_def) {
            Some((ha, ev)) => hitbox_wf(ha) && match ev {
                ShapeEvent::ClangWith(hd) => hitbox_wf(hd),
                _ => true,
            },
            None => true,
        },
    decreases cs_atk.len() - j,
{
    if j < 0 || j >= cs_atk.len() {
    } else {
        match cs_atk[j].role {
            HitboxType::Hit(ha) => {
                lemma_clang_match_wf(cs_def, 0, axy, cs_atk[j], dxy);
                lemma_atk_scan_wf(cs_atk, j + 1, axy, dxy, def, fighter_def, cs_def);
            },
            _ => {
                lemma_atk_scan_wf(cs_atk, j + 1, axy, dxy, def, fighter_def, cs_def);
            },
        }
    }
}

/// Resolve one ordered attacker/defender pair: the entries each side
/// receives, and whether the whole remaining scan aborts.
fn check_pair(
    players: &Vec<Player>,
    fighters: &KeyedContextVec<Fighter>,
    platforms: &Vec<Platform>,
    a: usize,
    d: usize,
) -> (r: (Vec<CollisionResult>, Vec<CollisionResult>, bool))
    requires
        a < players@.len(),
        d < players@.len(),
        player_roster_wf(players@[a as int], kcv_pairs(*fighters), platforms@),
        player_roster_wf(players@[d as int], kcv_pairs(*fighters), platforms@),
    ensures
        r.0@ == pair_outcomes(players@, kcv_pairs(*fighters), platforms@, a as int, d as int).0,
        r.1@ == pair_outcomes(players@, kcv_pairs(*fighters), platforms@, a as int, d as int).1,
        r.2 == pair_outcomes(players@, kcv_pairs(*fighters), platforms@, a as int, d as int).2,
{
    let ghost fpairs = kcv_pairs(*fighters);
    let ghost po = pair_outcomes(players@, fpairs, platforms@, a as int, d as int);
    let player_atk = &players[a];
    let player_def = &players[d];
    let axy = player_atk.bps_xy(platforms);
    let dxy = player_def.bps_xy(platforms);
    let fighter_atk: &Fighter = match kcv_key_to_value(fighters, player_atk.fighter.as_str()) {
        Some(f) => f,
        None => {
            proof {
                assert(false);
            }
            vstd::pervasive::unreached()
        },
    };
    let fighter_def: &Fighter = match kcv_key_to_value(fighters, player_def.fighter.as_str()) {
        Some(f) => f,
        None => {
            proof {
                assert(false);
            }
            vstd::pervasive::unreached()
        },
    };
    proof {
        assert(*fighter_atk == fighter_of(fpairs, players@[a as int]));
        assert(*fighter_def == fighter_of(fpairs, players@[d as int]));
    }
    let num_actions_atk: usize = fighter_atk.action_defs.len();
    let num_actions_def: usize = fighter_def.action_defs.len();
    proof {
        assert(player_atk.action < fighter_atk.action_defs@.len());
        assert(player_def.action < fighter_def.action_defs@.len());
        assert(fighter_atk.action_defs@.len() == num_actions_atk);
        assert(fighter_def.action_defs@.len() == num_actions_def);
    }
    let action_atk: usize = player_atk.action as usize;
    let action_def: usize = player_def.action as usize;
    let num_frames_atk: usize = fighter_atk.action_defs[action_atk].frames.len();
    let num_frames_def: usize = fighter_def.action_defs[action_def].frames.len();
    proof {
        assert(player_atk.frame < fighter_atk.action_defs@[action_atk as int].frames@.len());
        assert(player_def.frame < fighter_def.action_defs@[action_def as int].frames@.len());
        assert(fighter_atk.action_defs@[action_atk as int].frames@.len() == num_frames_atk);
        assert(fighter_def.action_defs@[action_def as int].frames@.len() == num_frames_def);
    }
    let frame_idx_atk: usize = player_atk.frame as usize;
    let frame_idx_def: usize = player_def.frame as usize;
    let frame_atk: &ActionFrame = &fighter_atk.action_defs[action_atk].frames[frame_idx_atk];
    let frame_def: &ActionFrame = &fighter_def.action_defs[action_def].frames[frame_idx_def];
    proof {
        assert(action_def_wf(fighter_atk.action_defs@[action_atk as int]));
        assert(action_def_wf(fighter_def.action_defs@[action_def as int]));
        assert(frame_wf(*frame_atk));
        assert(frame_wf(*frame_def));
        assert(*frame_atk == frame_of(fpairs, players@[a as int]));
        assert(*frame_def == frame_of(fpairs, players@[d as int]));
    }
    let scan = atk_scan(&frame_atk.colboxes, axy, dxy, player_def, fighter_def, &frame_def.colboxes);
    let grab = grab_check(&frame_atk.colboxes, axy, dxy, &frame_def.colboxes);
    proof {
        lemma_atk_scan_wf(
            frame_atk.colboxes@,
            0,
            posi(axy),
            posi(dxy),
            players@[d as int],
            *fighter_def,
            frame_def.colboxes@,
        );
    }
    let mut oa: Vec<CollisionResult> = Vec::new();
    let mut od: Vec<CollisionResult> = Vec::new();
    let abort: bool;
    match scan {
        Some((ha, ev)) => {
            match ev {
                ShapeEvent::ShieldAbsorb => {
                    oa.push(
                        CollisionResult::HitShieldAtk {
                            hitbox: ha,
                            power_shield: fighter_def.power_shield,
                            player_def_i: d,
                        },
                    );
                    od.push(
                        CollisionResult::HitShieldDef {
                            hitbox: ha,
                            power_shield: fighter_def.power_shield,
                            player_atk_i: a,
                        },
                    );
                    if grab {
                        oa.push(CollisionResult::GrabAtk(d));
                        od.push(CollisionResult::GrabDef(a));
                    }
                    abort = grab;
                },
                ShapeEvent::ClangWith(hd) => {
                    let damage_diff: i64 = ha.damage as i64 - hd.damage as i64;
                    if damage_diff >= 9 {
                        oa.push(CollisionResult::Clang { rebound: ha.enable_rebound });
                        od.push(CollisionResult::HitAtk { hitbox: ha, player_def_i: d });
                    } else if damage_diff <= -9 {
                        oa.push(CollisionResult::HitAtk { hitbox: ha, player_def_i: d });
                        od.push(CollisionResult::Clang { rebound: hd.enable_rebound });
                    } else {
                        oa.push(CollisionResult::Clang { rebound: ha.enable_rebound });
                        od.push(CollisionResult::Clang { rebound: hd.enable_rebound });
                    }
                    abort = true;
                },
                ShapeEvent::Scan(e) => {
                    match e {
                        HitScanEvent::HurtHit(hurtbox) => {
                            oa.push(CollisionResult::HitAtk { hitbox: ha, player_def_i: d });
                            od.push(
                                CollisionResult::HitDef { hitbox: ha, hurtbox, player_atk_i: a },
                            );
                        },
                        HitScanEvent::InvincibleHit => {
                            oa.push(CollisionResult::HitAtk { hitbox: ha, player_def_i: d });
                        },
                        HitScanEvent::PhantomHurt(hurtbox) => {
                            oa.push(CollisionResult::PhantomAtk(ha, d));
                            od.push(CollisionResult::PhantomDef(ha, hurtbox));
                        },
                    }
                    abort = true;
                },
            }
        },
        None => {
            if grab {
                oa.push(CollisionResult::GrabAtk(d));
                od.push(CollisionResult::GrabDef(a));
            }
            abort = grab;
        },
    }
    proof {
        assert(oa@ =~= po.0);
        assert(od@ =~= po.1);
    }
    (oa, od, abort)
}

/// The outcome lists a sequence of per-player vectors holds.
pub open spec fn views(rs: Seq<Vec<CollisionResult>>) -> Seq<Seq<CollisionResult>> {
    Seq::new(rs.len(), |i: int| rs[i]@)
}

/// Append `items` to the `i`th outcome list.
fn append_outcomes(result: &mut Vec<Vec<CollisionResult>>, i: usize, items: &Vec<CollisionResult>)
    requires
        i < old(result)@.len(),
    ensures
        final (result)@.len() == old(result)@.len(),
        forall|j: int|
            0 <= j < old(result)@.len() && j != i ==> final (result)@[j] == old(result)@[j],
        final (result)@[i as int]@ == old(result)@[i as int]@ + items@,
{
    let mut k: usize = 0;
    while k < items.len()
        invariant
            i < result@.len(),
            result@.len() == old(result)@.len(),
            k <= items@.len(),
            forall|j: int| 0 <= j < result@.len() && j != i ==> result@[j] == old(result)@[j],
            result@[i as int]@ == old(result)@[i as int]@ + items@.take(k as int),
        decreases items@.len() - k,
    {
        let item = items[k];
        result[i].push(item);
        proof {
            assert(items@.take(k as int).push(items@[k as int]) =~= items@.take(k as int + 1));
            assert(result@[i as int]@ =~= old(result)@[i as int]@ + items@.take(k as int + 1));
        }
        k += 1;
    }
    proof {
        assert(items@.take(items@.len() as int) =~= items@);
    }
}

/// Resolve the whole roster for this tick: for each attacker in index
/// order, test every other defender not on the attacker's hitlist; shield
/// absorptions accumulate, and the first clang, hit, phantom or grab ends
/// the scan for the whole frame. Returns one outcome list per player,
/// in roster order.
pub fn collision_check(
    players: &Vec<Player>,
    fighters: &KeyedContextVec<Fighter>,
    platforms: &Vec<Platform>,
) -> (result: Vec<Vec<CollisionResult>>)
    requires
        roster_wf(players@, kcv_pairs(*fighters), platforms@),
    ensures
        result@.len() == players@.len(),
        forall|i: int|
            0 <= i < players@.len() ==> (#[trigger] result@[i])@ == collision_check_spec(
                players@,
                kcv_pairs(*fighters),
                platforms@,
            )[i],
{
    let ghost fpairs = kcv_pairs(*fighters);
    let ghost goal = collision_check_spec(players@, fpairs, platforms@);
    let n = players.len();
    let mut result: Vec<Vec<CollisionResult>> = Vec::new();
    while result.len() < n
        invariant
            result@.len() <= n,
            forall|i: int|
                0 <= i < result@.len() ==> (#[trigger] result@[i])@ == Seq::<
                    CollisionResult,
                >::empty(),
        decreases n - result@.len(),
    {
        result.push(Vec::new());
    }
    proof {
        assert(views(result@) =~= empty_results(n as int));
    }
    let mut aborted: bool = false;
    let mut a: usize = 0;
    while a < n && !aborted
        invariant
            n == players@.len(),
            result@.len() == n,
            a <= n,
            roster_wf(players@, fpairs, platforms@),
            fpairs == kcv_pairs(*fighters),
            goal == collision_check_spec(players@, fpairs, platforms@),
            !aborted ==> scan_from(players@, fpairs, platforms@, a as int, 0, views(result@))
                == goal,
            aborted ==> views(result@) == goal,
        decreases (if aborted { 0int } else { n as int - a as int + 1 }),
    {
        let mut d: usize = 0;
        while d < n && !aborted
            invariant
                n == players@.len(),
                result@.len() == n,
                a < n,
                d <= n,
                roster_wf(players@, fpairs, platforms@),
                fpairs == kcv_pairs(*fighters),
                goal == collision_check_spec(players@, fpairs, platforms@),
                !aborted ==> scan_from(
                    players@,
                    fpairs,
                    platforms@,
                    a as int,
                    d as int,
                    views(result@),
                ) == goal,
                aborted ==> views(result@) == goal,
            decreases (if aborted { 0int } else { n as int - d as int + 1 }),
        {
            let ghost acc = views(result@);
            if a != d && !players[a].hitlist_contains(d) {
                let (oa, od, ab) = check_pair(players, fighters, platforms, a, d);
                append_outcomes(&mut result, a, &oa);
                append_outcomes(&mut result, d, &od);
                proof {
                    let po = pair_outcomes(players@, fpairs, platforms@, a as int, d as int);
                    assert(views(result@) =~= acc.update(a as int, acc[a as int] + po.0).update(
                        d as int,
                        acc[d as int] + po.1,
                    ));
                }
                if ab {
                    aborted = true;
                }
            } else {
                proof {
                    assert(!pair_active(players@, a as int, d as int));
                }
            }
            if !aborted {
                d += 1;
            }
        }
        if !aborted {
            a += 1;
        }
    }
    proof {
        assert(views(result@) == goal);
        assert(forall|i: int|
            0 <= i < players@.len() ==> (#[trigger] result@[i])@ == goal[i]);
    }
    result
}

} // verus!
