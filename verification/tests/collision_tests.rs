use pf_engine::collision::{ColBoxCollisionResult, CollisionResult, collision_check, colbox_collision_check};
use pf_engine::fighter::{
    ActionDef, ActionFrame, CollisionBox, Fighter, Hitbox, HitboxType, Hurtbox, Point, Shield,
};
use pf_engine::player::{Location, Player};
use pf_engine::stage::Platform;
use treeflection::KeyedContextVec;

fn hit_payload(damage: u64, enable_clang: bool) -> Hitbox {
    Hitbox {
        damage,
        bkb: 50,
        kbg: 70,
        angle: 40,
        clang: 3,
        enable_clang,
        enable_rebound: true,
    }
}

fn hurt_payload() -> Hurtbox {
    Hurtbox { bkb_add: 0, damage_mult: 100 }
}

fn colbox(x: i64, y: i64, radius: i64, role: HitboxType) -> CollisionBox {
    CollisionBox { point: Point { x, y }, radius, role }
}

fn fighter_with_frame(colboxes: Vec<CollisionBox>, shield: Option<Shield>) -> Fighter {
    let frame = ActionFrame { colboxes, effects: vec![], ecb_w: 350, ecb_h: 1200, ecb_y: 600 };
    let mut base = Fighter::base();
    base.action_defs = vec![ActionDef { frames: vec![frame], iasa: 0 }];
    base.shield = shield;
    base
}

fn player(key: &str, x: i64, y: i64) -> Player {
    Player {
        fighter: key.to_string(),
        action: 0,
        frame: 0,
        location: Location::Airborne { x, y },
        hitlist: vec![],
        shielding: false,
        shield_offset_x: 0,
        shield_offset_y: 0,
        shield_hp: 6000,
    }
}

fn catalog(entries: Vec<(&str, Fighter)>) -> KeyedContextVec<Fighter> {
    let mut kcv = KeyedContextVec::new();
    for (key, fighter) in entries {
        kcv.push(key.to_string(), fighter);
    }
    kcv
}

#[test]
fn overlap_hit_phantom_miss_boundaries() {
    let a = colbox(0, 0, 100, HitboxType::Hit(hit_payload(13, true)));
    let b = colbox(0, 0, 100, HitboxType::Hurt(hurt_payload()));
    // radius sum 200: distance 199 overlaps, 200 touches (phantom),
    // 201 is just past the phantom tolerance
    assert_eq!(colbox_collision_check((0, 0), &a, (199, 0), &b), ColBoxCollisionResult::Hit);
    assert_eq!(colbox_collision_check((0, 0), &a, (200, 0), &b), ColBoxCollisionResult::Phantom);
    assert_eq!(colbox_collision_check((0, 0), &a, (201, 0), &b), ColBoxCollisionResult::Miss);
}

#[test]
fn overlap_is_symmetric() {
    let a = colbox(30, -20, 150, HitboxType::Hit(hit_payload(13, true)));
    let b = colbox(-10, 5, 60, HitboxType::Hurt(hurt_payload()));
    for dx in [0i64, 100, 199, 205, 210, 211, 500] {
        let lr = colbox_collision_check((0, 0), &a, (dx, 7), &b);
        let rl = colbox_collision_check((dx, 7), &b, (0, 0), &a);
        assert_eq!(lr, rl);
    }
}

#[test]
fn no_attacks_resolves_to_all_empty() {
    let fighter = fighter_with_frame(vec![colbox(0, 0, 500, HitboxType::Hurt(hurt_payload()))], None);
    let fighters = catalog(vec![("base", fighter)]);
    let players = vec![player("base", 0, 0), player("base", 10, 0)];
    let result = collision_check(&players, &fighters, &vec![]);
    assert_eq!(result.len(), 2);
    assert!(result[0].is_empty());
    assert!(result[1].is_empty());
}

#[test]
fn clean_hit_emits_attacker_and_defender_entries() {
    let atk = fighter_with_frame(vec![colbox(0, 0, 100, HitboxType::Hit(hit_payload(13, false)))], None);
    let def = fighter_with_frame(vec![colbox(0, 0, 100, HitboxType::Hurt(hurt_payload()))], None);
    let fighters = catalog(vec![("atk", atk), ("def", def)]);
    let players = vec![player("atk", 0, 0), player("def", 150, 0)];
    let result = collision_check(&players, &fighters, &vec![]);
    assert_eq!(
        result[0],
        vec![CollisionResult::HitAtk { hitbox: hit_payload(13, false), player_def_i: 1 }]
    );
    assert_eq!(
        result[1],
        vec![CollisionResult::HitDef {
            hitbox: hit_payload(13, false),
            hurtbox: hurt_payload(),
            player_atk_i: 0,
        }]
    );
}

#[test]
fn hitlist_suppresses_rehits() {
    let atk = fighter_with_frame(vec![colbox(0, 0, 100, HitboxType::Hit(hit_payload(13, false)))], None);
    let def = fighter_with_frame(vec![colbox(0, 0, 100, HitboxType::Hurt(hurt_payload()))], None);
    let fighters = catalog(vec![("atk", atk), ("def", def)]);
    let mut attacker = player("atk", 0, 0);
    attacker.hitlist = vec![1];
    let players = vec![attacker, player("def", 150, 0)];
    let result = collision_check(&players, &fighters, &vec![]);
    assert!(result[0].is_empty());
    assert!(result[1].is_empty());
}

#[test]
fn phantom_near_miss_emits_phantom_pair() {
    let atk = fighter_with_frame(vec![colbox(0, 0, 100, HitboxType::Hit(hit_payload(13, false)))], None);
    let def = fighter_with_frame(vec![colbox(0, 0, 100, HitboxType::Hurt(hurt_payload()))], None);
    let fighters = catalog(vec![("atk", atk), ("def", def)]);
    let players = vec![player("atk", 0, 0), player("def", 200, 0)];
    let result = collision_check(&players, &fighters, &vec![]);
    assert_eq!(result[0], vec![CollisionResult::PhantomAtk(hit_payload(13, false), 1)]);
    assert_eq!(
        result[1],
        vec![CollisionResult::PhantomDef(hit_payload(13, false), hurt_payload())]
    );
}

#[test]
fn invincible_defender_registers_attacker_only() {
    let atk = fighter_with_frame(vec![colbox(0, 0, 100, HitboxType::Hit(hit_payload(13, false)))], None);
    let def = fighter_with_frame(vec![colbox(0, 0, 100, HitboxType::Invincible)], None);
    let fighters = catalog(vec![("atk", atk), ("def", def)]);
    let players = vec![player("atk", 0, 0), player("def", 150, 0)];
    let result = collision_check(&players, &fighters, &vec![]);
    assert_eq!(
        result[0],
        vec![CollisionResult::HitAtk { hitbox: hit_payload(13, false), player_def_i: 1 }]
    );
    assert!(result[1].is_empty());
}

#[test]
fn shield_absorbs_before_clean_hit() {
    let atk = fighter_with_frame(vec![colbox(0, 0, 100, HitboxType::Hit(hit_payload(13, false)))], None);
    let shield = Shield { offset_x: 0, offset_y: 0, size: 500 };
    let def = fighter_with_frame(
        vec![colbox(0, 0, 100, HitboxType::Hurt(hurt_payload()))],
        Some(shield),
    );
    let fighters = catalog(vec![("atk", atk), ("def", def)]);
    let mut defender = player("def", 150, 0);
    defender.shielding = true;
    let players = vec![player("atk", 0, 0), defender];
    let result = collision_check(&players, &fighters, &vec![]);
    // the attacker's hitbox overlaps both the shield (radius 500 at full
    // health) and the hurtbox, yet only the shield pair is emitted
    assert_eq!(result[0].len(), 1);
    assert_eq!(result[1].len(), 1);
    assert!(matches!(result[0][0], CollisionResult::HitShieldAtk { player_def_i: 1, .. }));
    assert!(matches!(result[1][0], CollisionResult::HitShieldDef { player_atk_i: 0, .. }));
}

#[test]
fn clang_above_threshold_lets_stronger_attack_win_through() {
    let strong = fighter_with_frame(vec![colbox(0, 0, 100, HitboxType::Hit(hit_payload(20, true)))], None);
    let weak = fighter_with_frame(vec![colbox(0, 0, 100, HitboxType::Hit(hit_payload(10, true)))], None);
    let fighters = catalog(vec![("strong", strong), ("weak", weak)]);
    let players = vec![player("strong", 0, 0), player("weak", 150, 0)];
    let result = collision_check(&players, &fighters, &vec![]);
    // damage difference 10 >= 9: the stronger side only clangs, the weaker
    // side's list records the direct hit by the stronger hitbox
    assert_eq!(result[0], vec![CollisionResult::Clang { rebound: true }]);
    assert_eq!(
        result[1],
        vec![CollisionResult::HitAtk { hitbox: hit_payload(20, true), player_def_i: 1 }]
    );
}

#[test]
fn clang_below_threshold_rebounds_both_sides() {
    let one = fighter_with_frame(vec![colbox(0, 0, 100, HitboxType::Hit(hit_payload(15, true)))], None);
    let two = fighter_with_frame(vec![colbox(0, 0, 100, HitboxType::Hit(hit_payload(10, true)))], None);
    let fighters = catalog(vec![("one", one), ("two", two)]);
    let players = vec![player("one", 0, 0), player("two", 150, 0)];
    let result = collision_check(&players, &fighters, &vec![]);
    assert_eq!(result[0], vec![CollisionResult::Clang { rebound: true }]);
    assert_eq!(result[1], vec![CollisionResult::Clang { rebound: true }]);
}

#[test]
fn grab_emits_grab_pair() {
    let atk = fighter_with_frame(vec![colbox(0, 0, 100, HitboxType::Grab)], None);
    let def = fighter_with_frame(vec![colbox(0, 0, 100, HitboxType::Hurt(hurt_payload()))], None);
    let fighters = catalog(vec![("atk", atk), ("def", def)]);
    let players = vec![player("atk", 0, 0), player("def", 150, 0)];
    let result = collision_check(&players, &fighters, &vec![]);
    assert_eq!(result[0], vec![CollisionResult::GrabAtk(1)]);
    assert_eq!(result[1], vec![CollisionResult::GrabDef(0)]);
}

#[test]
fn first_connecting_event_aborts_whole_scan() {
    let atk = fighter_with_frame(vec![colbox(0, 0, 100, HitboxType::Hit(hit_payload(13, false)))], None);
    let def = fighter_with_frame(vec![colbox(0, 0, 100, HitboxType::Hurt(hurt_payload()))], None);
    let def2 = fighter_with_frame(vec![colbox(0, 0, 100, HitboxType::Hurt(hurt_payload()))], None);
    let fighters = catalog(vec![("atk", atk), ("def", def), ("def2", def2)]);
    // both defenders overlap the attacker; only the lowest-index pair lands
    let players = vec![player("atk", 0, 0), player("def", 150, 0), player("def2", 120, 0)];
    let result = collision_check(&players, &fighters, &vec![]);
    assert_eq!(result[0].len(), 1);
    assert!(matches!(result[0][0], CollisionResult::HitAtk { player_def_i: 1, .. }));
    assert_eq!(result[1].len(), 1);
    assert!(result[2].is_empty());
}

#[test]
fn resolution_is_idempotent() {
    let atk = fighter_with_frame(vec![colbox(0, 0, 100, HitboxType::Hit(hit_payload(13, true)))], None);
    let def = fighter_with_frame(vec![colbox(0, 0, 100, HitboxType::Hurt(hurt_payload()))], None);
    let fighters = catalog(vec![("atk", atk), ("def", def)]);
    let players = vec![player("atk", 0, 0), player("def", 150, 0)];
    let first = collision_check(&players, &fighters, &vec![]);
    let second = collision_check(&players, &fighters, &vec![]);
    assert_eq!(first, second);
}

#[test]
fn zero_players_yield_empty_result() {
    let fighters = catalog(vec![]);
    let players: Vec<Player> = vec![];
    let result = collision_check(&players, &fighters, &vec![]);
    assert!(result.is_empty());
}

#[test]
fn platform_position_feeds_resolution() {
    let atk = fighter_with_frame(vec![colbox(0, 0, 100, HitboxType::Hit(hit_payload(13, false)))], None);
    let def = fighter_with_frame(vec![colbox(0, 0, 100, HitboxType::Hurt(hurt_payload()))], None);
    let fighters = catalog(vec![("atk", atk), ("def", def)]);
    let platforms = vec![Platform { x: 100, y: 0, w: 4000, h: 50 }];
    let mut defender = player("def", 0, 0);
    defender.location = Location::OnPlatform { platform_i: 0, x: 50 };
    // the defender stands at (150, 0): within reach of the attacker at the
    // origin
    let players = vec![player("atk", 0, 0), defender];
    let result = collision_check(&players, &fighters, &platforms);
    assert_eq!(result[0].len(), 1);
    assert!(matches!(result[0][0], CollisionResult::HitAtk { player_def_i: 1, .. }));
}

#[test]
fn base_fighters_trade_a_hit() {
    let fighters = catalog(vec![("base", Fighter::base())]);
    let mut atk = player("base", 0, 0);
    atk.action = 2;
    let mut def = player("base", 300, 0);
    def.action = 2;
    let players = vec![atk, def];
    let result = collision_check(&players, &fighters, &vec![]);
    // the attacker's hitbox at (500, 600) reaches the defender's hurtbox
    // centred at (600, 500) with radius 540
    assert_eq!(result[0].len(), 1);
    match &result[0][0] {
        CollisionResult::HitAtk { hitbox, player_def_i } => {
            assert_eq!(*player_def_i, 1);
            assert_eq!(hitbox.damage, 13);
            assert_eq!(hitbox.bkb, 50);
        },
        other => panic!("expected a clean hit, got {:?}", other),
    }
    assert_eq!(result[1].len(), 1);
    assert!(matches!(result[1][0], CollisionResult::HitDef { player_atk_i: 0, .. }));
}

#[test]
fn shield_size_scales_with_shield_health() {
    let shield = Shield { offset_x: 0, offset_y: 0, size: 1500 };
    let mut p = player("base", 0, 0);
    p.shield_hp = 6000;
    assert_eq!(p.shield_size(&shield), 1500);
    p.shield_hp = 3000;
    assert_eq!(p.shield_size(&shield), 750);
    p.shield_hp = 0;
    assert_eq!(p.shield_size(&shield), 0);
}
