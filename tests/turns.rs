use roguelike::fighter::{DeathCallback, Fighter};
use roguelike::game_state::{
    fov_recompute, from_dungeon_level, level_up, level_up_due, level_up_in_range, level_up_options,
    monsters_take_turn,
    move_by, move_towards, new_game, next_ai_actor, next_level, next_level_in_range,
    player_move_or_attack, GameState,
    PlayerAction, StatChoice, Transition, PLAYER,
};
use roguelike::gui::{push_int_text, Messages, Tint};
use roguelike::object::{Ai, Object};
use roguelike::util::mut_two;
use roguelike::world::{is_blocked, Tile, World};

fn open_world(w: usize, h: usize) -> World {
    let floor = Tile { blocked: false, explored: false, block_sight: false };
    World { tiles: vec![vec![floor; h]; w] }
}

fn player_at(x: i32, y: i32) -> Object {
    let mut p = Object::new(x, y, "player", true, '@', Tint::White);
    p.alive = true;
    p.fighter = Some(Fighter { hp: 100, base_max_hp: 100, base_defense: 1, base_power: 2, on_death: DeathCallback::Player, xp: 0 });
    p
}

fn orc_at(x: i32, y: i32) -> Object {
    let mut m = Object::new(x, y, "orc", true, 'o', Tint::White);
    m.alive = true;
    m.ai = Some(Ai::Basic);
    m.fighter = Some(Fighter { hp: 10, base_max_hp: 10, base_defense: 0, base_power: 3, on_death: DeathCallback::Monster, xp: 35 });
    m
}

fn state(world: World) -> GameState {
    GameState { world, log: Messages::new(), inventory: vec![], dungeon_level: 1 }
}

#[test]
fn level_up_applies_constitution() {
    let mut objects = vec![player_at(0, 0)];
    let mut f = objects[0].fighter.unwrap();
    f.xp = 360;
    objects[0].fighter = Some(f);
    let mut gs = state(open_world(1, 1));
    assert!(level_up_due(&objects));
    assert!(level_up(&mut objects, &mut gs, StatChoice::Constitution));
    let f = objects[0].fighter.unwrap();
    assert_eq!(objects[0].level, 2);
    assert_eq!(f.xp, 10);
    assert_eq!(f.base_max_hp, 120);
    assert_eq!(f.hp, 120);
    assert_eq!(gs.log.entries[0].0, "Your battle skills grow stronger! You reached level 2!");
    assert_eq!(gs.log.entries[0].1, Tint::Yellow);
    assert!(!level_up_due(&objects));
}

#[test]
fn level_up_once_per_tick() {
    let mut objects = vec![player_at(0, 0)];
    let mut f = objects[0].fighter.unwrap();
    f.xp = 1000;
    objects[0].fighter = Some(f);
    let mut gs = state(open_world(1, 1));
    assert!(level_up(&mut objects, &mut gs, StatChoice::Strength));
    assert_eq!(objects[0].level, 2);
    assert_eq!(objects[0].fighter.unwrap().xp, 650);
    assert_eq!(objects[0].fighter.unwrap().base_power, 3);
    assert!(level_up_due(&objects));
    assert!(level_up(&mut objects, &mut gs, StatChoice::Agility));
    assert_eq!(objects[0].level, 3);
    assert_eq!(objects[0].fighter.unwrap().xp, 150);
    assert_eq!(objects[0].fighter.unwrap().base_defense, 2);
    assert!(!level_up(&mut objects, &mut gs, StatChoice::Agility));
    assert_eq!(objects[0].level, 3);
    assert_eq!(gs.log.entries.len(), 2);
}

#[test]
fn level_up_menu_entries() {
    let f = player_at(0, 0).fighter.unwrap();
    assert_eq!(
        level_up_options(&f),
        vec![
            "Constitution (+20 HP, from 100)".to_string(),
            "Strength (+1 attack, from 2)".to_string(),
            "Agility (+1 defense, from 1)".to_string(),
        ]
    );
    assert_eq!(StatChoice::from_index(0), Some(StatChoice::Constitution));
    assert_eq!(StatChoice::from_index(1), Some(StatChoice::Strength));
    assert_eq!(StatChoice::from_index(2), Some(StatChoice::Agility));
    assert_eq!(StatChoice::from_index(3), None);
}

#[test]
fn move_towards_own_cell_stays() {
    let mut objects = vec![player_at(2, 2), orc_at(3, 3)];
    let world = open_world(5, 5);
    move_towards(&world, &mut objects, 1, 3, 3);
    assert_eq!(objects[1].pos(), (3, 3));
}

#[test]
fn move_towards_rounds_direction() {
    let world = open_world(10, 10);
    let mut objects = vec![player_at(0, 0), orc_at(5, 5)];
    move_towards(&world, &mut objects, 1, 0, 0);
    assert_eq!(objects[1].pos(), (4, 4));
    move_towards(&world, &mut objects, 1, 4, 9);
    assert_eq!(objects[1].pos(), (4, 5));
    move_towards(&world, &mut objects, 1, 0, 7);
    assert_eq!(objects[1].pos(), (3, 5));
    move_towards(&world, &mut objects, 1, 0, 0);
    assert_eq!(objects[1].pos(), (2, 4));
}

#[test]
fn bump_attacks_fighter() {
    let mut objects = vec![player_at(1, 1), orc_at(2, 1)];
    let mut gs = state(open_world(5, 5));
    player_move_or_attack(&mut gs, &mut objects, 1, 0);
    assert_eq!(objects[0].pos(), (1, 1));
    assert_eq!(objects[1].fighter.unwrap().hp, 8);
    assert_eq!(gs.log.entries[0].0, "player attacks orc for 2 hit points.");
}

#[test]
fn bump_moves_into_free_cell() {
    let mut objects = vec![player_at(1, 1), orc_at(3, 3)];
    let mut gs = state(open_world(5, 5));
    player_move_or_attack(&mut gs, &mut objects, 0, 1);
    assert_eq!(objects[0].pos(), (1, 2));
    assert!(gs.log.entries.is_empty());
}

#[test]
fn bump_into_wall_stays() {
    let mut world = open_world(5, 5);
    world.tiles[1][2].blocked = true;
    let mut objects = vec![player_at(1, 1)];
    let mut gs = state(world);
    player_move_or_attack(&mut gs, &mut objects, 0, 1);
    assert_eq!(objects[0].pos(), (1, 1));
    player_move_or_attack(&mut gs, &mut objects, -1, -1);
    assert_eq!(objects[0].pos(), (0, 0));
    player_move_or_attack(&mut gs, &mut objects, -1, 0);
    assert_eq!(objects[0].pos(), (0, 0));
}

#[test]
fn move_by_blocked_by_entity() {
    let world = open_world(5, 5);
    let mut crate_obj = Object::new(2, 1, "crate", true, '#', Tint::White);
    crate_obj.alive = false;
    let mut objects = vec![player_at(1, 1), crate_obj];
    assert!(is_blocked(&world, &objects, 2, 1));
    assert!(!is_blocked(&world, &objects, 3, 1));
    assert!(is_blocked(&world, &objects, 9, 1));
    move_by(&world, &mut objects, PLAYER, 1, 0);
    assert_eq!(objects[0].pos(), (1, 1));
    move_by(&world, &mut objects, PLAYER, 0, 1);
    assert_eq!(objects[0].pos(), (1, 2));
}

#[test]
fn dungeon_level_table() {
    let table = [
        Transition { level: 1, value: 1 },
        Transition { level: 4, value: 2 },
        Transition { level: 6, value: 3 },
    ];
    assert_eq!(from_dungeon_level(&table, 0), 0);
    assert_eq!(from_dungeon_level(&table, 1), 1);
    assert_eq!(from_dungeon_level(&table, 5), 2);
    assert_eq!(from_dungeon_level(&table, 9), 3);
    assert_eq!(from_dungeon_level(&[], 9), 0);
}

#[test]
fn next_level_rests_and_descends() {
    let mut objects = vec![player_at(1, 1)];
    let mut f = objects[0].fighter.unwrap();
    f.hp = 20;
    objects[0].fighter = Some(f);
    let mut gs = state(open_world(2, 2));
    assert_eq!(next_level(&mut objects, &mut gs), 2);
    assert_eq!(gs.dungeon_level, 2);
    assert_eq!(objects[0].fighter.unwrap().hp, 70);
    assert_eq!(gs.log.entries.len(), 2);
    assert_eq!(gs.log.entries[0].0, "You take a moment to rest, and recover your strength.");
    assert_eq!(gs.log.entries[1].1, Tint::Red);
    next_level(&mut objects, &mut gs);
    assert_eq!(objects[0].fighter.unwrap().hp, 100);
}

#[test]
fn new_game_starts_with_player() {
    let (objects, gs) = new_game();
    assert_eq!(objects.len(), 1);
    assert_eq!(objects[PLAYER].name, "player");
    assert!(objects[PLAYER].alive);
    assert_eq!(objects[PLAYER].fighter.unwrap().hp, 100);
    assert_eq!(objects[PLAYER].fighter.unwrap().base_power, 2);
    assert_eq!(gs.dungeon_level, 1);
    assert_eq!(gs.log.entries.len(), 1);
    assert_eq!(gs.log.entries[0].0, "Welcome microbe! You're innit now. Beware of bacteria and viruses");
}

#[test]
fn tick_decisions() {
    let mut objects = vec![player_at(1, 1), orc_at(2, 2), Object::new(0, 0, "potion", false, '!', Tint::Violet), orc_at(3, 3)];
    assert!(!fov_recompute((1, 1), &objects));
    assert!(fov_recompute((-1, -1), &objects));
    assert!(monsters_take_turn(&objects, PlayerAction::TookTurn));
    assert!(!monsters_take_turn(&objects, PlayerAction::DidntTakeTurn));
    assert!(!monsters_take_turn(&objects, PlayerAction::Exit));
    assert_eq!(next_ai_actor(&objects, 0), Some(1));
    assert_eq!(next_ai_actor(&objects, 2), Some(3));
    assert_eq!(next_ai_actor(&objects, 4), None);
    objects[3].ai = None;
    assert_eq!(next_ai_actor(&objects, 2), None);
    objects[0].alive = false;
    assert!(!monsters_take_turn(&objects, PlayerAction::TookTurn));
}

#[test]
fn two_views_are_distinct() {
    let mut v = vec![1, 2, 3];
    {
        let (a, b) = mut_two(&mut v, 2, 0);
        *a += 10;
        *b += 20;
    }
    assert_eq!(v, vec![21, 2, 13]);
}

#[test]
fn integer_text() {
    let mut s = String::from("n=");
    push_int_text(&mut s, -2147483648);
    assert_eq!(s, "n=-2147483648");
    let mut t = String::new();
    push_int_text(&mut t, 0);
    push_int_text(&mut t, 907);
    assert_eq!(t, "0907");
}

#[test]
fn level_up_range_check() {
    let mut objects = vec![player_at(0, 0)];
    assert!(level_up_in_range(&objects, StatChoice::Strength));
    let mut f = objects[0].fighter.unwrap();
    f.xp = 400;
    f.base_power = i32::MAX;
    objects[0].fighter = Some(f);
    assert!(!level_up_in_range(&objects, StatChoice::Strength));
    assert!(level_up_in_range(&objects, StatChoice::Agility));
}

#[test]
fn bump_ignores_far_extreme_fighter() {
    let mut brute = orc_at(4, 4);
    brute.fighter = Some(Fighter { hp: i32::MIN, base_max_hp: 1, base_defense: i32::MIN, base_power: i32::MAX, on_death: DeathCallback::Monster, xp: i32::MAX });
    let mut objects = vec![player_at(1, 1), brute];
    let mut gs = state(open_world(5, 5));
    player_move_or_attack(&mut gs, &mut objects, 1, 0);
    assert_eq!(objects[0].pos(), (2, 1));
}

#[test]
fn next_level_range_check() {
    let mut objects = vec![player_at(1, 1)];
    let mut gs = state(open_world(1, 1));
    assert!(next_level_in_range(&objects, &gs));
    gs.dungeon_level = u32::MAX;
    assert!(!next_level_in_range(&objects, &gs));
    gs.dungeon_level = 3;
    let mut f = objects[0].fighter.unwrap();
    f.base_max_hp = -100;
    f.hp = i32::MIN + 10;
    objects[0].fighter = Some(f);
    assert!(!next_level_in_range(&objects, &gs));
}

#[test]
fn bump_moves_player_without_fighter() {
    let mut p = player_at(1, 1);
    p.fighter = None;
    let mut objects = vec![p, orc_at(4, 4)];
    let mut gs = state(open_world(5, 5));
    player_move_or_attack(&mut gs, &mut objects, 1, 1);
    assert_eq!(objects[0].pos(), (2, 2));
}
