//! The engine's cross-cutting guarantees, stated and proved over the
//! resolution model: an attack-free roster resolves to nothing, hitlists
//! suppress every outcome of a pair, shields take precedence over hits,
//! clangs resolve by the damage difference, at most one connecting event
//! lands per tick, and resolution is deterministic.

use vstd::prelude::*;
use crate::collision::{
    CollisionResult, HitScanEvent, ShapeEvent, atk_scan_from, collision_check_spec, empty_results,
    fighter_of, frame_of, grab_found, pair_active, pair_outcomes, scan_from, shape_event,
    shield_check_spec,
};
use crate::fighter::{CollisionBox, Fighter, Hitbox, HitboxType};
use crate::player::{Player, bps_xy_spec};
use crate::stage::Platform;

verus! {

/// No shape of this frame can start an attack: no `Hit` role and no `Grab`
/// role anywhere in it.
pub open spec fn frame_has_no_attacks(cs: Seq<CollisionBox>) -> bool {
    forall|j: int|
        0 <= j < cs.len() ==> !((#[trigger] cs[j]).role is Hit) && !(cs[j].role is Grab)
}

/// No player of the roster poses an attacking or grabbing shape this tick.
pub open spec fn no_active_attacks(
    players: Seq<Player>,
    fpairs: Seq<(Seq<char>, Fighter)>,
) -> bool {
    forall|i: int|
        0 <= i < players.len() ==> frame_has_no_attacks(
            frame_of(fpairs, #[trigger] players[i]).colboxes@,
        )
}

proof fn lemma_atk_scan_none(
    cs_atk: Seq<CollisionBox>,
    j: int,
    axy: (int, int),
    dxy: (int, int),
    def: Player,
    fighter_def: Fighter,
    cs_def: Seq<CollisionBox>,
)
    requires
        frame_has_no_attacks(cs_atk),
    ensures
        atk_scan_from(cs_atk, j, axy, dxy, def, fighter_def, cs_def) is None,
    decreases cs_atk.len() - j,
{
    if j < 0 || j >= cs_atk.len() {
    } else {
        lemma_atk_scan_none(cs_atk, j + 1, axy, dxy, def, fighter_def, cs_def);
    }
}

proof fn lemma_pair_outcomes_empty(
    players: Seq<Player>,
    fpairs: Seq<(Seq<char>, Fighter)>,
    platforms: Seq<Platform>,
    a: int,
    d: int,
)
    requires
        0 <= a < players.len(),
        0 <= d < players.len(),
        no_active_attacks(players, fpairs),
    ensures
        pair_outcomes(players, fpairs, platforms, a, d).0 == Seq::<CollisionResult>::empty(),
        pair_outcomes(players, fpairs, platforms, a, d).1 == Seq::<CollisionResult>::empty(),
        !pair_outcomes(players, fpairs, platforms, a, d).2,
{
    let atk = players[a];
    let def = players[d];
    let axy = bps_xy_spec(atk, platforms);
    let dxy = bps_xy_spec(def, platforms);
    let fd = fighter_of(fpairs, def);
    let cs_atk = frame_of(fpairs, atk).colboxes@;
    let cs_def = frame_of(fpairs, def).colboxes@;
    lemma_atk_scan_none(cs_atk, 0, axy, dxy, def, fd, cs_def);
    assert(!grab_found(cs_atk, axy, dxy, cs_def)) by {
        if grab_found(cs_atk, axy, dxy, cs_def) {
            let (j2, k2) = choose|j2: int, k2: int|
                0 <= j2 < cs_atk.len() && 0 <= k2 < cs_def.len() && (#[trigger] cs_atk[j2]).role
                    == HitboxType::Grab && crate::collision::colbox_check_spec(
                    axy,
                    cs_atk[j2],
                    dxy,
                    #[trigger] cs_def[k2],
                ) == crate::collision::ColBoxCollisionResult::Hit;
            assert(false);
        }
    }
}

proof fn lemma_scan_no_attacks(
    players: Seq<Player>,
    fpairs: Seq<(Seq<char>, Fighter)>,
    platforms: Seq<Platform>,
    a: int,
    d: int,
    acc: Seq<Seq<CollisionResult>>,
)
    requires
        no_active_attacks(players, fpairs),
        acc.len() == players.len(),
    ensures
        scan_from(players, fpairs, platforms, a, d, acc) == acc,
    decreases players.len() - a, players.len() - d,
{
    if a < 0 || a >= players.len() || d < 0 {
    } else if d >= players.len() {
        lemma_scan_no_attacks(players, fpairs, platforms, a + 1, 0, acc);
    } else {
        if !pair_active(players, a, d) {
            lemma_scan_no_attacks(players, fpairs, platforms, a, d + 1, acc);
        } else {
            lemma_pair_outcomes_empty(players, fpairs, platforms, a, d);
            let po = pair_outcomes(players, fpairs, platforms, a, d);
            let acc2 = acc.update(a, acc[a] + po.0).update(d, acc[d] + po.1);
            assert(acc2 =~= acc) by {
                assert(acc[a] + po.0 =~= acc[a]);
                assert(acc[d] + po.1 =~= acc[d]);
            }
            lemma_scan_no_attacks(players, fpairs, platforms, a, d + 1, acc2);
        }
    }
}

/// A roster with zero active attacks this tick resolves to an all-empty
/// outcome: one empty list per player.
pub proof fn lemma_no_attacks_all_empty(
    players: Seq<Player>,
    fpairs: Seq<(Seq<char>, Fighter)>,
    platforms: Seq<Platform>,
)
    requires
        no_active_attacks(players, fpairs),
    ensures
        collision_check_spec(players, fpairs, platforms) == empty_results(players.len() as int),
{
    lemma_scan_no_attacks(players, fpairs, platforms, 0, 0, empty_results(players.len() as int));
}

/// Resolution is deterministic: any two results that satisfy the engine's
/// contract for the same snapshot are equal, so re-running an unchanged
/// tick reproduces its outcomes exactly.
pub proof fn lemma_resolution_deterministic(
    r1: Seq<Seq<CollisionResult>>,
    r2: Seq<Seq<CollisionResult>>,
    players: Seq<Player>,
    fpairs: Seq<(Seq<char>, Fighter)>,
    platforms: Seq<Platform>,
)
    requires
        r1.len() == players.len(),
        r2.len() == players.len(),
        forall|i: int|
            0 <= i < players.len() ==> #[trigger] r1[i] == collision_check_spec(
                players,
                fpairs,
                platforms,
            )[i],
        forall|i: int|
            0 <= i < players.len() ==> #[trigger] r2[i] == collision_check_spec(
                players,
                fpairs,
                platforms,
            )[i],
    ensures
        r1 == r2,
{
    assert(r1 =~= r2);
}

/// A shielding defender absorbs before anything else: whenever an attacker
/// shape overlaps the shield, that shape's event is shield absorption,
/// whatever hurtboxes it also overlaps.
pub proof fn lemma_shield_precedence_shape(
    axy: (int, int),
    ca: CollisionBox,
    ha: Hitbox,
    dxy: (int, int),
    def: Player,
    fighter_def: Fighter,
    cs_def: Seq<CollisionBox>,
)
    requires
        shield_check_spec(axy, ca, dxy, def, fighter_def),
    ensures
        shape_event(axy, ca, ha, dxy, def, fighter_def, cs_def) == Some(ShapeEvent::ShieldAbsorb),
{
}

proof fn lemma_atk_scan_shielded(
    cs_atk: Seq<CollisionBox>,
    j: int,
    axy: (int, int),
    dxy: (int, int),
    def: Player,
    fighter_def: Fighter,
    cs_def: Seq<CollisionBox>,
)
    requires
        forall|k: int|
            0 <= k < cs_atk.len() && (#[trigger] cs_atk[k]).role is Hit ==> shield_check_spec(
                axy,
                cs_atk[k],
                dxy,
                def,
                fighter_def,
            ),
    ensures
        match atk_scan_from(cs_atk, j, axy, dxy, def, fighter_def, cs_def) {
            Some((ha, ev)) => ev == ShapeEvent::ShieldAbsorb,
            None => true,
        },
    decreases cs_atk.len() - j,
{
    if j < 0 || j >= cs_atk.len() {
    } else {
        lemma_atk_scan_shielded(cs_atk, j + 1, axy, dxy, def, fighter_def, cs_def);
    }
}

/// Shield absorption takes precedence over a clean hit for a whole pair:
/// when every attacking shape of the attacker overlaps the shielding
/// defender's shield, the pair contributes only shield absorptions and at
/// most a grab — never a clean-hit, phantom or clang entry.
pub proof fn lemma_shield_precedence_pair(
    players: Seq<Player>,
    fpairs: Seq<(Seq<char>, Fighter)>,
    platforms: Seq<Platform>,
    a: int,
    d: int,
)
    requires
        0 <= a < players.len(),
        0 <= d < players.len(),
        forall|k: int|
            0 <= k < frame_of(fpairs, players[a]).colboxes@.len() && (#[trigger] frame_of(
                fpairs,
                players[a],
            ).colboxes@[k]).role is Hit ==> shield_check_spec(
                bps_xy_spec(players[a], platforms),
                frame_of(fpairs, players[a]).colboxes@[k],
                bps_xy_spec(players[d], platforms),
                players[d],
                fighter_of(fpairs, players[d]),
            ),
    ensures
        forall|k: int|
            0 <= k < pair_outcomes(players, fpairs, platforms, a, d).0.len() ==> ((#[trigger] pair_outcomes(
                players,
                fpairs,
                platforms,
                a,
                d,
            ).0[k]) is HitShieldAtk || pair_outcomes(players, fpairs, platforms, a, d).0[k]
                is GrabAtk),
        forall|k: int|
            0 <= k < pair_outcomes(players, fpairs, platforms, a, d).1.len() ==> ((#[trigger] pair_outcomes(
                players,
                fpairs,
                platforms,
                a,
                d,
            ).1[k]) is HitShieldDef || pair_outcomes(players, fpairs, platforms, a, d).1[k]
                is GrabDef),
{
    let atk = players[a];
    let def = players[d];
    let axy = bps_xy_spec(atk, platforms);
    let dxy = bps_xy_spec(def, platforms);
    let fd = fighter_of(fpairs, def);
    let cs_atk = frame_of(fpairs, atk).colboxes@;
    let cs_def = frame_of(fpairs, def).colboxes@;
    lemma_atk_scan_shielded(cs_atk, 0, axy, dxy, def, fd, cs_def);
}

/// A clang resolves by the damage difference: at nine or more the stronger
/// attack wins through (the stronger side only clangs, the weaker side's
/// list records the direct hit), and below the threshold both sides clang,
/// each with its own rebound flag.
pub proof fn lemma_clang_threshold(
    players: Seq<Player>,
    fpairs: Seq<(Seq<char>, Fighter)>,
    platforms: Seq<Platform>,
    a: int,
    d: int,
    ha: Hitbox,
    hd: Hitbox,
)
    requires
        atk_scan_from(
            frame_of(fpairs, players[a]).colboxes@,
            0,
            bps_xy_spec(players[a], platforms),
            bps_xy_spec(players[d], platforms),
            players[d],
            fighter_of(fpairs, players[d]),
            frame_of(fpairs, players[d]).colboxes@,
        ) == Some((ha, ShapeEvent::ClangWith(hd))),
    ensures
        ha.damage - hd.damage >= 9 ==> pair_outcomes(players, fpairs, platforms, a, d) == (
            seq![CollisionResult::Clang { rebound: ha.enable_rebound }],
            seq![CollisionResult::HitAtk { hitbox: ha, player_def_i: d as usize }],
            true,
        ),
        ha.damage - hd.damage <= -9 ==> pair_outcomes(players, fpairs, platforms, a, d) == (
            seq![CollisionResult::HitAtk { hitbox: ha, player_def_i: d as usize }],
            seq![CollisionResult::Clang { rebound: hd.enable_rebound }],
            true,
        ),
        -9 < ha.damage - hd.damage < 9 ==> pair_outcomes(players, fpairs, platforms, a, d) == (
            seq![CollisionResult::Clang { rebound: ha.enable_rebound }],
            seq![CollisionResult::Clang { rebound: hd.enable_rebound }],
            true,
        ),
{
}

/// An entry of an attacker's list that names `d` as the struck defender.
pub open spec fn atk_entry_targets(o: CollisionResult, d: usize) -> bool {
    match o {
        CollisionResult::HitAtk { player_def_i, .. } => player_def_i == d,
        CollisionResult::HitShieldAtk { player_def_i, .. } => player_def_i == d,
        CollisionResult::PhantomAtk(_, i) => i == d,
        CollisionResult::GrabAtk(i) => i == d,
        _ => false,
    }
}

/// An entry of a defender's list that names `a` as the striking attacker.
pub open spec fn def_entry_from(o: CollisionResult, a: usize) -> bool {
    match o {
        CollisionResult::HitDef { player_atk_i, .. } => player_atk_i == a,
        CollisionResult::HitShieldDef { player_atk_i, .. } => player_atk_i == a,
        CollisionResult::GrabDef(i) => i == a,
        _ => false,
    }
}

/// No accumulated entry yet records the pair attacker `atk` / defender
/// `def`.
pub open spec fn no_pair_entries(acc: Seq<Seq<CollisionResult>>, atk: int, def: int) -> bool {
    &&& forall|k: int|
        0 <= k < acc[atk].len() ==> !atk_entry_targets(#[trigger] acc[atk][k], def as usize)
    &&& forall|k: int|
        0 <= k < acc[def].len() ==> !def_entry_from(#[trigger] acc[def][k], atk as usize)
}

proof fn lemma_scan_hitlist(
    players: Seq<Player>,
    fpairs: Seq<(Seq<char>, Fighter)>,
    platforms: Seq<Platform>,
    a: int,
    d: int,
    acc: Seq<Seq<CollisionResult>>,
    atk: int,
    def: int,
)
    requires
        0 <= atk < players.len(),
        0 <= def < players.len(),
        atk != def,
        players.len() <= usize::MAX,
        players[atk].hitlist@.contains(def as usize),
        acc.len() == players.len(),
        no_pair_entries(acc, atk, def),
    ensures
        no_pair_entries(scan_from(players, fpairs, platforms, a, d, acc), atk, def),
    decreases players.len() - a, players.len() - d,
{
    if a < 0 || a >= players.len() || d < 0 {
    } else if d >= players.len() {
        lemma_scan_hitlist(players, fpairs, platforms, a + 1, 0, acc, atk, def);
    } else if !pair_active(players, a, d) {
        lemma_scan_hitlist(players, fpairs, platforms, a, d + 1, acc, atk, def);
    } else {
        let po = pair_outcomes(players, fpairs, platforms, a, d);
        let acc2 = acc.update(a, acc[a] + po.0).update(d, acc[d] + po.1);
        // indices below the roster length cast to usize unchanged
        assert(a as usize == a && d as usize == d && atk as usize == atk && def as usize == def);
        assert(no_pair_entries(acc2, atk, def)) by {
            assert forall|k: int| 0 <= k < acc2[atk].len() implies !atk_entry_targets(
                #[trigger] acc2[atk][k],
                def as usize,
            ) by {
                if a == atk {
                    // the pair (atk, def) itself is never active: def is on
                    // atk's hitlist, so here d != def
                    assert(!players[a].hitlist@.contains(d as usize));
                    assert(d as usize != def as usize);
                    if k >= acc[atk].len() {
                        assert(acc2[atk][k] == po.0[k - acc[atk].len()]);
                    }
                } else if d == atk {
                    assert(atk as usize != def as usize);
                    if k >= acc[atk].len() {
                        assert(acc2[atk][k] == po.1[k - acc[atk].len()]);
                    }
                } else {
                    assert(acc2[atk] == acc[atk]);
                }
            }
            assert forall|k: int| 0 <= k < acc2[def].len() implies !def_entry_from(
                #[trigger] acc2[def][k],
                atk as usize,
            ) by {
                if d == def {
                    // pair (atk, def) is never active, so here a != atk
                    assert(a != atk);
                    assert(a as usize != atk as usize);
                    if k >= acc[def].len() {
                        assert(acc2[def][k] == po.1[k - acc[def].len()]);
                    }
                } else if a == def {
                    if k >= acc[def].len() {
                        assert(acc2[def][k] == po.0[k - acc[def].len()]);
                    }
                } else {
                    assert(acc2[def] == acc[def]);
                }
            }
        }
        if po.2 {
        } else {
            lemma_scan_hitlist(players, fpairs, platforms, a, d + 1, acc2, atk, def);
        }
    }
}

/// A defender already on an attacker's hitlist is never struck again by
/// that attacker this tick: the attacker's list holds no entry naming the
/// defender as its target, and the defender's list holds no entry naming
/// that attacker as its source.
pub proof fn lemma_hitlist_suppression(
    players: Seq<Player>,
    fpairs: Seq<(Seq<char>, Fighter)>,
    platforms: Seq<Platform>,
    atk: int,
    def: int,
)
    requires
        0 <= atk < players.len(),
        0 <= def < players.len(),
        atk != def,
        players.len() <= usize::MAX,
        players[atk].hitlist@.contains(def as usize),
    ensures
        forall|k: int|
            0 <= k < collision_check_spec(players, fpairs, platforms)[atk].len()
                ==> !atk_entry_targets(
                #[trigger] collision_check_spec(players, fpairs, platforms)[atk][k],
                def as usize,
            ),
        forall|k: int|
            0 <= k < collision_check_spec(players, fpairs, platforms)[def].len()
                ==> !def_entry_from(
                #[trigger] collision_check_spec(players, fpairs, platforms)[def][k],
                atk as usize,
            ),
{
    let acc = empty_results(players.len() as int);
    lemma_scan_hitlist(players, fpairs, platforms, 0, 0, acc, atk, def);
}

/// A shield absorption entry: the one kind of outcome that does not end
/// the scan.
pub open spec fn is_shield_entry(o: CollisionResult) -> bool {
    o is HitShieldAtk || o is HitShieldDef
}

/// How many entries of one list record a connecting event (anything but a
/// shield absorption).
pub open spec fn connecting_in_list(os: Seq<CollisionResult>) -> int
    decreases os.len(),
{
    if os.len() == 0 {
        0
    } else {
        connecting_in_list(os.drop_last()) + if is_shield_entry(os.last()) {
            0int
        } else {
            1int
        }
    }
}

/// Total connecting entries over all players' lists.
pub open spec fn connecting_total(rs: Seq<Seq<CollisionResult>>) -> int
    decreases rs.len(),
{
    if rs.len() == 0 {
        0
    } else {
        connecting_total(rs.drop_last()) + connecting_in_list(rs.last())
    }
}

proof fn lemma_connecting_list_add(s: Seq<CollisionResult>, t: Seq<CollisionResult>)
    ensures
        connecting_in_list(s + t) == connecting_in_list(s) + connecting_in_list(t),
    decreases t.len(),
{
    if t.len() == 0 {
        assert(s + t =~= s);
    } else {
        assert((s + t).drop_last() =~= s + t.drop_last());
        assert((s + t).last() == t.last());
        lemma_connecting_list_add(s, t.drop_last());
    }
}

proof fn lemma_connecting_one(x: CollisionResult)
    ensures
        connecting_in_list(seq![x]) == if is_shield_entry(x) {
            0int
        } else {
            1int
        },
{
    assert(seq![x].drop_last() =~= Seq::<CollisionResult>::empty());
    assert(connecting_in_list(Seq::<CollisionResult>::empty()) == 0);
}

proof fn lemma_connecting_total_update(
    rs: Seq<Seq<CollisionResult>>,
    i: int,
    v: Seq<CollisionResult>,
)
    requires
        0 <= i < rs.len(),
    ensures
        connecting_total(rs.update(i, v)) == connecting_total(rs) - connecting_in_list(rs[i])
            + connecting_in_list(v),
    decreases rs.len(),
{
    if i == rs.len() - 1 {
        assert(rs.update(i, v).drop_last() =~= rs.drop_last());
        assert(rs.update(i, v).last() == v);
        assert(rs.last() == rs[i]);
    } else {
        assert(rs.update(i, v).drop_last() =~= rs.drop_last().update(i, v));
        assert(rs.update(i, v).last() == rs.last());
        lemma_connecting_total_update(rs.drop_last(), i, v);
        assert(rs.drop_last()[i] == rs[i]);
    }
}

proof fn lemma_pair_connecting(
    players: Seq<Player>,
    fpairs: Seq<(Seq<char>, Fighter)>,
    platforms: Seq<Platform>,
    a: int,
    d: int,
)
    ensures
        !pair_outcomes(players, fpairs, platforms, a, d).2 ==> connecting_in_list(
            pair_outcomes(players, fpairs, platforms, a, d).0,
        ) == 0 && connecting_in_list(pair_outcomes(players, fpairs, platforms, a, d).1) == 0,
        connecting_in_list(pair_outcomes(players, fpairs, platforms, a, d).0)
            + connecting_in_list(pair_outcomes(players, fpairs, platforms, a, d).1) <= 2,
{
    let po = pair_outcomes(players, fpairs, platforms, a, d);
    let atk = players[a];
    let def = players[d];
    let axy = bps_xy_spec(atk, platforms);
    let dxy = bps_xy_spec(def, platforms);
    let fd = fighter_of(fpairs, def);
    let cs_atk = frame_of(fpairs, atk).colboxes@;
    let cs_def = frame_of(fpairs, def).colboxes@;
    assert(connecting_in_list(Seq::<CollisionResult>::empty()) == 0);
    match atk_scan_from(cs_atk, 0, axy, dxy, def, fd, cs_def) {
        Some((ha, ev)) => {
            match ev {
                ShapeEvent::ShieldAbsorb => {
                    let sh_a = CollisionResult::HitShieldAtk {
                        hitbox: ha,
                        power_shield: fd.power_shield,
                        player_def_i: d as usize,
                    };
                    let sh_d = CollisionResult::HitShieldDef {
                        hitbox: ha,
                        power_shield: fd.power_shield,
                        player_atk_i: a as usize,
                    };
                    lemma_connecting_one(sh_a);
                    lemma_connecting_one(sh_d);
                    if grab_found(cs_atk, axy, dxy, cs_def) {
                        lemma_connecting_one(CollisionResult::GrabAtk(d as usize));
                        lemma_connecting_one(CollisionResult::GrabDef(a as usize));
                        lemma_connecting_list_add(
                            seq![sh_a],
                            seq![CollisionResult::GrabAtk(d as usize)],
                        );
                        lemma_connecting_list_add(
                            seq![sh_d],
                            seq![CollisionResult::GrabDef(a as usize)],
                        );
                    } else {
                        assert(po.0 =~= seq![sh_a]);
                        assert(po.1 =~= seq![sh_d]);
                    }
                },
                ShapeEvent::ClangWith(hd) => {
                    lemma_connecting_one(CollisionResult::Clang { rebound: ha.enable_rebound });
                    lemma_connecting_one(CollisionResult::Clang { rebound: hd.enable_rebound });
                    lemma_connecting_one(
                        CollisionResult::HitAtk { hitbox: ha, player_def_i: d as usize },
                    );
                },
                ShapeEvent::Scan(e) => {
                    match e {
                        HitScanEvent::HurtHit(hurtbox) => {
                            lemma_connecting_one(
                                CollisionResult::HitAtk { hitbox: ha, player_def_i: d as usize },
                            );
                            lemma_connecting_one(
                                CollisionResult::HitDef {
                                    hitbox: ha,
                                    hurtbox,
                                    player_atk_i: a as usize,
                                },
                            );
                        },
                        HitScanEvent::InvincibleHit => {
                            lemma_connecting_one(
                                CollisionResult::HitAtk { hitbox: ha, player_def_i: d as usize },
                            );
                        },
                        HitScanEvent::PhantomHurt(hurtbox) => {
                            lemma_connecting_one(CollisionResult::PhantomAtk(ha, d as usize));
                            lemma_connecting_one(CollisionResult::PhantomDef(ha, hurtbox));
                        },
                    }
                },
            }
        },
        None => {
            if grab_found(cs_atk, axy, dxy, cs_def) {
                lemma_connecting_one(CollisionResult::GrabAtk(d as usize));
                lemma_connecting_one(CollisionResult::GrabDef(a as usize));
            }
        },
    }
}

proof fn lemma_scan_connecting(
    players: Seq<Player>,
    fpairs: Seq<(Seq<char>, Fighter)>,
    platforms: Seq<Platform>,
    a: int,
    d: int,
    acc: Seq<Seq<CollisionResult>>,
)
    requires
        acc.len() == players.len(),
    ensures
        connecting_total(scan_from(players, fpairs, platforms, a, d, acc)) <= connecting_total(acc)
            + 2,
    decreases players.len() - a, players.len() - d,
{
    if a < 0 || a >= players.len() || d < 0 {
    } else if d >= players.len() {
        lemma_scan_connecting(players, fpairs, platforms, a + 1, 0, acc);
    } else if !pair_active(players, a, d) {
        lemma_scan_connecting(players, fpairs, platforms, a, d + 1, acc);
    } else {
        let po = pair_outcomes(players, fpairs, platforms, a, d);
        let acc1 = acc.update(a, acc[a] + po.0);
        let acc2 = acc1.update(d, acc[d] + po.1);
        lemma_pair_connecting(players, fpairs, platforms, a, d);
        lemma_connecting_list_add(acc[a], po.0);
        lemma_connecting_list_add(acc[d], po.1);
        lemma_connecting_total_update(acc, a, acc[a] + po.0);
        assert(acc1[d] == acc[d]);
        lemma_connecting_total_update(acc1, d, acc[d] + po.1);
        assert(acc1[a] == acc[a] + po.0);
        if po.2 {
        } else {
            lemma_scan_connecting(players, fpairs, platforms, a, d + 1, acc2);
        }
    }
}

proof fn lemma_empty_results_connecting(n: int)
    requires
        n >= 0,
    ensures
        connecting_total(empty_results(n)) == 0,
    decreases n,
{
    if n == 0 {
        assert(empty_results(0).len() == 0);
    } else {
        assert(empty_results(n).drop_last() =~= empty_results(n - 1));
        assert(empty_results(n).last() =~= Seq::<CollisionResult>::empty());
        lemma_empty_results_connecting(n - 1);
    }
}

/// At most one connecting event is resolved per tick across the whole
/// roster: once any pair lands a clang, hit, phantom or grab, the scan
/// aborts, so the result holds at most that one event's entries (two, one
/// per side) beyond shield absorptions.
pub proof fn lemma_at_most_one_connecting_event(
    players: Seq<Player>,
    fpairs: Seq<(Seq<char>, Fighter)>,
    platforms: Seq<Platform>,
)
    ensures
        connecting_total(collision_check_spec(players, fpairs, platforms)) <= 2,
{
    lemma_empty_results_connecting(players.len() as int);
    lemma_scan_connecting(
        players,
        fpairs,
        platforms,
        0,
        0,
        empty_results(players.len() as int),
    );
}

} // verus!
