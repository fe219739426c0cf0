use vstd::prelude::*;

use crate::fighter::{DeathCallback, Fighter};
use crate::gui::{int_text, push_int_text, Messages, Tint};
use crate::object::{attack_done, attack_fits, fits_i32, healed, max_hp_of, Bonus, Object};
use crate::util::mut_two;
use crate::world::{blocked_at, is_blocked, World};

verus! {

/// Index of the player in the entity list, for the whole session.
pub const PLAYER: usize = 0;
pub const TORCH_RADIUS: i32 = 10;
pub const LEVEL_UP_BASE: i32 = 200;
pub const LEVEL_UP_FACTOR: i32 = 150;
pub const LEVEL_SCREEN_WIDTH: i32 = 40;

/// Everything about a running game apart from the entity list.
pub struct GameState {
    pub world: World,
    pub log: Messages,
    pub inventory: Vec<Object>,
    pub dungeon_level: u32,
}


/// What the player's input amounted to this tick.
#[derive(Clone, Copy, Debug, PartialEq, Eq, Structural)]
pub enum PlayerAction {
    TookTurn,
    DidntTakeTurn,
    Exit,
}

/// The stat that a level-up raises.
#[derive(Clone, Copy, Debug, PartialEq, Eq, Structural)]
pub enum StatChoice {
    Constitution,
    Strength,
    Agility,
}

/// Value `value` applies from dungeon level `level` on.
#[derive(Clone, Copy, Debug, PartialEq, Eq, Structural)]
pub struct Transition {
    pub level: u32,
    pub value: u32,
}

pub open spec fn player_start() -> Fighter {
    Fighter {
        base_max_hp: 100,
        hp: 100,
        base_defense: 1,
        base_power: 2,
        on_death: DeathCallback::Player,
        xp: 0,
    }
}

pub open spec fn welcome_note() -> (Seq<char>, Tint) {
    ("Welcome microbe! You're innit now. Beware of bacteria and viruses"@, Tint::Red)
}

/// A fresh session: the player alone at the origin, an empty map (the map
/// generator fills it in), and a welcome message.
pub fn new_game() -> (r: (Vec<Object>, GameState))
    ensures
        r.0@.len() == 1,
        r.0@[PLAYER as int].name@ == "player"@,
        r.0@[PLAYER as int].x == 0 && r.0@[PLAYER as int].y == 0,
        r.0@[PLAYER as int].blocks && r.0@[PLAYER as int].alive,
        r.0@[PLAYER as int].chr == '@' && r.0@[PLAYER as int].color == Tint::White,
        r.0@[PLAYER as int].level == 1,
        r.0@[PLAYER as int].fighter == Some(player_start()),
        r.0@[PLAYER as int].ai.is_none() && r.0@[PLAYER as int].item.is_none(),
        r.0@[PLAYER as int].equipment.is_none() && !r.0@[PLAYER as int].always_visible,
        r.1.world.tiles@.len() == 0,
        r.1.log@ == seq![welcome_note()],
        r.1.inventory@.len() == 0,
        r.1.dungeon_level == 1,
{
    let mut player = Object::new(0, 0, "player", true, '@', Tint::White);
    player.alive = true;
    player.fighter = Some(
        Fighter {
            base_max_hp: 100,
            hp: 100,
            base_defense: 1,
            base_power: 2,
            on_death: DeathCallback::Player,
            xp: 0,
        },
    );
    let objects = vec![player];
    let mut game_state = GameState {
        world: World { tiles: Vec::new() },
        log: Messages::new(),
        inventory: Vec::new(),
        dungeon_level: 1,
    };
    game_state.log.add(
        String::from_str("Welcome microbe! You're innit now. Beware of bacteria and viruses"),
        Tint::Red,
    );
    (objects, game_state)
}

/// The entity list after entity `id` tried to step by `(dx, dy)`: it moves
/// unless the destination is blocked.
pub open spec fn moved(
    world: World,
    before: Seq<Object>,
    id: int,
    dx: int,
    dy: int,
    after: Seq<Object>,
) -> bool {
    let x = before[id].x + dx;
    let y = before[id].y + dy;
    if blocked_at(world, before, x, y) {
        after == before
    } else {
        after == before.update(id, Object { x: x as i32, y: y as i32, ..before[id] })
    }
}

pub fn move_by(world: &World, objects: &mut [Object], id: usize, dx: i32, dy: i32)
    requires
        id < old(objects)@.len(),
        fits_i32(old(objects)@[id as int].x + dx),
        fits_i32(old(objects)@[id as int].y + dy),
    ensures
        moved(*world, old(objects)@, id as int, dx as int, dy as int, final(objects)@),
{
    let (x, y) = objects[id].pos();
    if !is_blocked(world, objects, x + dx, y + dy) {
        objects[id].set_pos(x + dx, y + dy);
    }
}

pub open spec fn fighter_at(o: Object, x: int, y: int) -> bool {
    o.fighter.is_some() && o.x == x && o.y == y
}

/// `t` is the first entity with a fighter standing on `(x, y)`.
pub open spec fn first_fighter_at(objects: Seq<Object>, x: int, y: int, t: int) -> bool {
    &&& 0 <= t < objects.len()
    &&& fighter_at(objects[t], x, y)
    &&& forall|j: int| 0 <= j < t ==> !fighter_at(#[trigger] objects[j], x, y)
}

pub open spec fn no_fighter_at(objects: Seq<Object>, x: int, y: int) -> bool {
    forall|j: int| 0 <= j < objects.len() ==> !fighter_at(#[trigger] objects[j], x, y)
}

/// Bump to attack: a fighter on the destination is attacked by the player,
/// who stays put; otherwise the player steps there if it is free.
pub fn player_move_or_attack(game_state: &mut GameState, objects: &mut [Object], dx: i32, dy: i32)
    requires
        old(objects)@.len() > PLAYER,
        dx != 0 || dy != 0,
        fits_i32(old(objects)@[PLAYER as int].x + dx),
        fits_i32(old(objects)@[PLAYER as int].y + dy),
        forall|t: int|
            #[trigger] first_fighter_at(
                old(objects)@,
                old(objects)@[PLAYER as int].x + dx,
                old(objects)@[PLAYER as int].y + dy,
                t,
            ) ==> {
                &&& old(objects)@[PLAYER as int].fighter.is_some()
                &&& attack_fits(old(objects)@[PLAYER as int], old(objects)@[t], old(game_state).inventory@)
            },
    ensures
        ({
            let x = old(objects)@[PLAYER as int].x + dx;
            let y = old(objects)@[PLAYER as int].y + dy;
            &&& no_fighter_at(old(objects)@, x, y) ==> {
                &&& moved(
                    old(game_state).world,
                    old(objects)@,
                    PLAYER as int,
                    dx as int,
                    dy as int,
                    final(objects)@,
                )
                &&& final(game_state).log@ == old(game_state).log@
            }
            &&& forall|t: int|
                #[trigger] first_fighter_at(old(objects)@, x, y, t) ==> {
                    &&& t != PLAYER
                    &&& attack_done(
                        old(objects)@[PLAYER as int],
                        old(objects)@[t],
                        old(game_state).inventory@,
                        final(objects)@[PLAYER as int],
                        final(objects)@[t],
                        old(game_state).log@,
                        final(game_state).log@,
                    )
                    &&& final(objects)@ == old(objects)@.update(
                        PLAYER as int,
                        final(objects)@[PLAYER as int],
                    ).update(t, final(objects)@[t])
                    &&& final(objects)@[PLAYER as int].x == old(objects)@[PLAYER as int].x
                    &&& final(objects)@[PLAYER as int].y == old(objects)@[PLAYER as int].y
                }
        }),
        final(game_state).inventory == old(game_state).inventory,
        final(game_state).world == old(game_state).world,
        final(game_state).dungeon_level == old(game_state).dungeon_level,
{
    let x = objects[PLAYER].x + dx;
    let y = objects[PLAYER].y + dy;
    let mut i: usize = 0;
    while i < objects.len()
        invariant
            0 <= i <= objects@.len(),
            forall|j: int| 0 <= j < i ==> !fighter_at(#[trigger] objects@[j], x as int, y as int),
        ensures
            0 <= i <= objects@.len(),
            i < objects@.len() ==> fighter_at(objects@[i as int], x as int, y as int),
            forall|j: int| 0 <= j < i ==> !fighter_at(#[trigger] objects@[j], x as int, y as int),
        decreases objects@.len() - i,
    {
        if objects[i].fighter.is_some() && objects[i].x == x && objects[i].y == y {
            break;
        }
        i += 1;
    }
    let target: Option<usize> = if i < objects.len() {
        Some(i)
    } else {
        None
    };
    match target {
        Some(t) => {
            assert(first_fighter_at(objects@, x as int, y as int, t as int));
            let ghost before = objects@;
            let (player, other) = mut_two(objects, PLAYER, t);
            player.attack(other, game_state);
            assert forall|u: int|
                #[trigger] first_fighter_at(before, x as int, y as int, u) implies u == t by {
                if u < t {
                    assert(!fighter_at(before[u], x as int, y as int));
                } else if u > t {
                    assert(!fighter_at(before[t as int], x as int, y as int));
                }
            }
        },
        None => {
            move_by(&game_state.world, objects, PLAYER, dx, dy);
        },
    }
}


/// One grid step along an axis toward a target that lies `d` away on this
/// axis and `other` away on the other: `d / sqrt(d*d + other*other)` rounded
/// to the nearest integer. The quotient is never exactly one half for
/// integers (that would need `3*d*d == other*other`), so it rounds to the sign
/// of `d` exactly when `3*d*d > other*other`.
pub open spec fn step_toward(d: int, other: int) -> int {
    if 3 * d * d > other * other {
        if d > 0 {
            1
        } else {
            -1
        }
    } else {
        0
    }
}

fn axis_step(d: i64, other: i64) -> (r: i32)
    requires
        -0x1_0000_0000 <= d <= 0x1_0000_0000,
        -0x1_0000_0000 <= other <= 0x1_0000_0000,
    ensures
        r == step_toward(d as int, other as int),
        r == 1 ==> d > 0,
        r == -1 ==> d < 0,
        -1 <= r <= 1,
{
    assert(d == 0 ==> 3 * (d as int) * (d as int) == 0) by (nonlinear_arith);
    let dd = d as i128;
    let oo = other as i128;
    assert(-0x1_0000_0000_0000_0000 <= dd * dd <= 0x1_0000_0000_0000_0000) by (nonlinear_arith)
        requires
            -0x1_0000_0000 <= dd <= 0x1_0000_0000,
    ;
    assert(-0x1_0000_0000_0000_0000 <= oo * oo <= 0x1_0000_0000_0000_0000) by (nonlinear_arith)
        requires
            -0x1_0000_0000 <= oo <= 0x1_0000_0000,
    ;
    let sq = dd * dd;
    assert(oo * oo >= 0 && (dd == 0 ==> sq == 0)) by (nonlinear_arith)
        requires
            sq == dd * dd,
    ;
    assert(3 * (d as int) * (d as int) == 3 * sq) by (nonlinear_arith)
        requires
            sq == dd * dd,
            dd == d,
    ;
    if 3 * sq > oo * oo {
        if d > 0 {
            1
        } else {
            -1
        }
    } else {
        0
    }
}

/// Steps entity `id` one cell toward `(target_x, target_y)`, rounding the
/// unit direction to the grid. A target on the entity's own cell means no move.
pub fn move_towards(world: &World, objects: &mut [Object], id: usize, target_x: i32, target_y: i32)
    requires
        id < old(objects)@.len(),
    ensures
        ({
            let dx = target_x - old(objects)@[id as int].x;
            let dy = target_y - old(objects)@[id as int].y;
            if dx == 0 && dy == 0 {
                final(objects)@ == old(objects)@
            } else {
                moved(
                    *world,
                    old(objects)@,
                    id as int,
                    step_toward(dx, dy),
                    step_toward(dy, dx),
                    final(objects)@,
                )
            }
        }),
{
    let dx: i64 = target_x as i64 - objects[id].x as i64;
    let dy: i64 = target_y as i64 - objects[id].y as i64;
    if dx == 0 && dy == 0 {
        return;
    }
    let sx = axis_step(dx, dy);
    let sy = axis_step(dy, dx);
    move_by(world, objects, id, sx, sy);
}

pub open spec fn rest_note() -> (Seq<char>, Tint) {
    ("You take a moment to rest, and recover your strength."@, Tint::Violet)
}

pub open spec fn descend_note() -> (Seq<char>, Tint) {
    ("After a rare moment of peace, you descend deeper into the heart of the dungeon..."@, Tint::Red)
}

/// Half of `m`, truncated toward zero.
pub open spec fn half(m: int) -> int {
    if m >= 0 {
        m / 2
    } else {
        -((-m) / 2)
    }
}

/// Rests the player (healing half the maximum hp) and moves the game one
/// dungeon level deeper; returns that level, for which the caller builds the
/// new map.
pub fn next_level(objects: &mut [Object], game_state: &mut GameState) -> (r: u32)
    requires
        old(objects)@.len() > PLAYER,
        old(game_state).dungeon_level < u32::MAX,
        fits_i32(max_hp_of(old(objects)@[PLAYER as int], old(game_state).inventory@)),
        old(objects)@[PLAYER as int].fighter.is_some() ==> i32::MIN <= old(
            objects,
        )@[PLAYER as int].fighter.unwrap().hp + half(
            max_hp_of(old(objects)@[PLAYER as int], old(game_state).inventory@),
        ),
    ensures
        ({
            let p = old(objects)@[PLAYER as int];
            let m = max_hp_of(p, old(game_state).inventory@);
            final(objects)@ == old(objects)@.update(PLAYER as int, healed(p, m, half(m)))
        }),
        final(game_state).log@ == old(game_state).log@.push(rest_note()).push(descend_note()),
        final(game_state).dungeon_level == old(game_state).dungeon_level + 1,
        r == final(game_state).dungeon_level,
        final(game_state).inventory == old(game_state).inventory,
        final(game_state).world == old(game_state).world,
{
    game_state.log.add(
        String::from_str("You take a moment to rest, and recover your strength."),
        Tint::Violet,
    );
    let m = objects[PLAYER].max_hp(game_state);
    let heal_hp: i32 = if m >= 0 {
        m / 2
    } else {
        -((-(m as i64)) / 2) as i32
    };
    objects[PLAYER].heal(game_state, heal_hp);
    game_state.log.add(
        String::from_str(
            "After a rare moment of peace, you descend deeper into the heart of the dungeon...",
        ),
        Tint::Red,
    );
    game_state.dungeon_level = game_state.dungeon_level + 1;
    game_state.dungeon_level
}

/// Whether `next_level` may run: the dungeon level can grow and the
/// player's maximum hp and healed hp stay within `i32`.
pub fn next_level_in_range(objects: &[Object], game_state: &GameState) -> (r: bool)
    requires
        objects@.len() > PLAYER,
    ensures
        r == ({
            let p = objects@[PLAYER as int];
            let m = max_hp_of(p, game_state.inventory@);
            &&& game_state.dungeon_level < u32::MAX
            &&& fits_i32(m)
            &&& p.fighter.is_some() ==> i32::MIN <= p.fighter.unwrap().hp + half(m)
        }),
{
    if game_state.dungeon_level == u32::MAX {
        return false;
    }
    let m = objects[PLAYER].stat_wide(game_state, Bonus::MaxHp);
    if m < i32::MIN as i128 || m > i32::MAX as i128 {
        return false;
    }
    let h: i128 = if m >= 0 {
        m / 2
    } else {
        -((-m) / 2)
    };
    match objects[PLAYER].fighter {
        Some(f) => i32::MIN as i128 <= f.hp as i128 + h,
        None => true,
    }
}

/// The value of the last transition whose level has been reached, or 0.
pub open spec fn table_value(table: Seq<Transition>, level: u32) -> u32
    decreases table.len(),
{
    if table.len() == 0 {
        0
    } else if level >= table.last().level {
        table.last().value
    } else {
        table_value(table.drop_last(), level)
    }
}

/// Returns a value that depends on the dungeon level; 0 before the first
/// transition applies.
pub fn from_dungeon_level(table: &[Transition], level: u32) -> (r: u32)
    ensures
        r == table_value(table@, level),
{
    let mut i: usize = table.len();
    assert(table@.subrange(0, i as int) =~= table@);
    while i > 0
        invariant
            0 <= i <= table@.len(),
            table_value(table@, level) == table_value(table@.subrange(0, i as int), level),
        decreases i,
    {
        let t = table[i - 1];
        assert(table@.subrange(0, i as int).drop_last() =~= table@.subrange(0, i - 1));
        if level >= t.level {
            return t.value;
        }
        i -= 1;
    }
    0
}


/// Experience needed to leave `level`.
pub open spec fn threshold(level: int) -> int {
    LEVEL_UP_BASE + level * LEVEL_UP_FACTOR
}

/// The player has a fighter with enough experience to level up.
pub open spec fn due_for_level(p: Object) -> bool {
    p.fighter.is_some() && p.fighter.unwrap().xp >= threshold(p.level as int)
}

pub open spec fn raised(f: Fighter, choice: StatChoice) -> Fighter {
    match choice {
        StatChoice::Constitution => Fighter {
            base_max_hp: (f.base_max_hp + 20) as i32,
            hp: (f.hp + 20) as i32,
            ..f
        },
        StatChoice::Strength => Fighter { base_power: (f.base_power + 1) as i32, ..f },
        StatChoice::Agility => Fighter { base_defense: (f.base_defense + 1) as i32, ..f },
    }
}

/// The player after one level-up: one level more, the threshold of the old
/// level paid from xp, and the chosen stat raised.
pub open spec fn leveled(p: Object, choice: StatChoice) -> Object {
    let f = p.fighter.unwrap();
    Object {
        level: (p.level + 1) as i32,
        fighter: Some(raised(Fighter { xp: (f.xp - threshold(p.level as int)) as i32, ..f }, choice)),
        ..p
    }
}

pub open spec fn level_up_fits(p: Object, choice: StatChoice) -> bool {
    let f = p.fighter.unwrap();
    &&& fits_i32(p.level + 1)
    &&& fits_i32(f.xp - threshold(p.level as int))
    &&& match choice {
        StatChoice::Constitution => fits_i32(f.base_max_hp + 20) && fits_i32(f.hp + 20),
        StatChoice::Strength => fits_i32(f.base_power + 1),
        StatChoice::Agility => fits_i32(f.base_defense + 1),
    }
}

pub open spec fn level_note(level: int) -> (Seq<char>, Tint) {
    ("Your battle skills grow stronger! You reached level "@ + int_text(level) + "!"@, Tint::Yellow)
}

fn threshold_of(level: i32) -> (r: i64)
    ensures
        r == threshold(level as int),
{
    LEVEL_UP_BASE as i64 + level as i64 * LEVEL_UP_FACTOR as i64
}

/// Whether the player has earned a level-up this tick.
pub fn level_up_due(objects: &[Object]) -> (r: bool)
    requires
        objects@.len() > PLAYER,
    ensures
        r == due_for_level(objects@[PLAYER as int]),
{
    let p = &objects[PLAYER];
    match p.fighter {
        Some(f) => f.xp as i64 >= threshold_of(p.level),
        None => false,
    }
}

impl StatChoice {
    /// The choice behind a menu index; `None` for an index out of the menu.
    pub fn from_index(index: usize) -> (r: Option<StatChoice>)
        ensures
            index == 0 ==> r == Some(StatChoice::Constitution),
            index == 1 ==> r == Some(StatChoice::Strength),
            index == 2 ==> r == Some(StatChoice::Agility),
            index > 2 ==> r.is_none(),
    {
        if index == 0 {
            Some(StatChoice::Constitution)
        } else if index == 1 {
            Some(StatChoice::Strength)
        } else if index == 2 {
            Some(StatChoice::Agility)
        } else {
            None
        }
    }
}

pub open spec fn option_texts(f: Fighter) -> Seq<Seq<char>> {
    seq![
        "Constitution (+20 HP, from "@ + int_text(f.base_max_hp as int) + ")"@,
        "Strength (+1 attack, from "@ + int_text(f.base_power as int) + ")"@,
        "Agility (+1 defense, from "@ + int_text(f.base_defense as int) + ")"@,
    ]
}

fn option_text(head: &str, value: i32) -> (r: String)
    ensures
        r@ == head@ + int_text(value as int) + ")"@,
{
    let mut s = String::from_str(head);
    push_int_text(&mut s, value);
    s.append(")");
    s
}

/// The three entries of the level-up menu, in menu-index order.
pub fn level_up_options(fighter: &Fighter) -> (r: Vec<String>)
    ensures
        r@.len() == 3,
        forall|i: int| 0 <= i < 3 ==> #[trigger] r@[i]@ == option_texts(*fighter)[i],
{
    let a = option_text("Constitution (+20 HP, from ", fighter.base_max_hp);
    let b = option_text("Strength (+1 attack, from ", fighter.base_power);
    let c = option_text("Agility (+1 defense, from ", fighter.base_defense);
    let r = vec![a, b, c];
    assert forall|i: int| 0 <= i < 3 implies #[trigger] r@[i]@ == option_texts(*fighter)[i] by {
        if i == 0 {
            assert(r@[0] == a);
        } else if i == 1 {
            assert(r@[1] == b);
        } else {
            assert(r@[2] == c);
        }
    }
    r
}

/// Whether a level-up with `choice`, if due, keeps every changed number
/// within `i32`.
pub fn level_up_in_range(objects: &[Object], choice: StatChoice) -> (r: bool)
    requires
        objects@.len() > PLAYER,
    ensures
        r == (due_for_level(objects@[PLAYER as int]) ==> level_up_fits(objects@[PLAYER as int], choice)),
{
    if !level_up_due(objects) {
        return true;
    }
    let p = &objects[PLAYER];
    match p.fighter {
        Some(f) => {
            let level_ok = p.level < i32::MAX;
            let xp_left = f.xp as i64 - threshold_of(p.level);
            let xp_ok = i32::MIN as i64 <= xp_left && xp_left <= i32::MAX as i64;
            let stat_ok = match choice {
                StatChoice::Constitution => f.base_max_hp <= i32::MAX - 20 && f.hp <= i32::MAX - 20,
                StatChoice::Strength => f.base_power < i32::MAX,
                StatChoice::Agility => f.base_defense < i32::MAX,
            };
            level_ok && xp_ok && stat_ok
        },
        None => true,
    }
}

/// One level-up check for the player. When it is due, the level rises by
/// one, the chosen stat is raised and the old level's threshold is taken
/// from xp; experience left over waits for the next tick.
pub fn level_up(objects: &mut [Object], game_state: &mut GameState, choice: StatChoice) -> (r: bool)
    requires
        old(objects)@.len() > PLAYER,
        due_for_level(old(objects)@[PLAYER as int]) ==> level_up_fits(
            old(objects)@[PLAYER as int],
            choice,
        ),
    ensures
        r == due_for_level(old(objects)@[PLAYER as int]),
        r ==> final(objects)@ == old(objects)@.update(
            PLAYER as int,
            leveled(old(objects)@[PLAYER as int], choice),
        ),
        r ==> final(game_state).log@ == old(game_state).log@.push(
            level_note(old(objects)@[PLAYER as int].level + 1),
        ),
        !r ==> final(objects)@ == old(objects)@,
        !r ==> final(game_state).log@ == old(game_state).log@,
        final(game_state).inventory == old(game_state).inventory,
        final(game_state).world == old(game_state).world,
        final(game_state).dungeon_level == old(game_state).dungeon_level,
{
    if !level_up_due(objects) {
        return false;
    }
    let player = &mut objects[PLAYER];
    let level_up_xp = threshold_of(player.level);
    player.level = player.level + 1;
    let mut text = String::from_str("Your battle skills grow stronger! You reached level ");
    push_int_text(&mut text, player.level);
    text.append("!");
    game_state.log.add(text, Tint::Yellow);
    match &mut player.fighter {
        Some(fighter) => {
            fighter.xp = (fighter.xp as i64 - level_up_xp) as i32;
            match choice {
                StatChoice::Constitution => {
                    fighter.base_max_hp = fighter.base_max_hp + 20;
                    fighter.hp = fighter.hp + 20;
                },
                StatChoice::Strength => {
                    fighter.base_power = fighter.base_power + 1;
                },
                StatChoice::Agility => {
                    fighter.base_defense = fighter.base_defense + 1;
                },
            }
        },
        None => {},
    }
    true
}

/// Whether the map's field of view needs recomputing: the player moved since
/// the previous tick.
pub fn fov_recompute(previous_player_position: (i32, i32), objects: &[Object]) -> (r: bool)
    requires
        objects@.len() > PLAYER,
    ensures
        r == (previous_player_position != (objects@[PLAYER as int].x, objects@[PLAYER as int].y)),
{
    let p = objects[PLAYER].pos();
    !(previous_player_position.0 == p.0 && previous_player_position.1 == p.1)
}

/// Whether the monsters act after the player's action: the player is alive
/// and spent the turn.
pub fn monsters_take_turn(objects: &[Object], action: PlayerAction) -> (r: bool)
    requires
        objects@.len() > PLAYER,
    ensures
        r == (objects@[PLAYER as int].alive && action == PlayerAction::TookTurn),
{
    objects[PLAYER].alive && action == PlayerAction::TookTurn
}

/// The lowest id at or after `from` of an entity that still has an AI.
/// Entities that died earlier in the tick have lost their AI and are skipped.
pub fn next_ai_actor(objects: &[Object], from: usize) -> (r: Option<usize>)
    ensures
        match r {
            Some(id) => {
                &&& from <= id < objects@.len()
                &&& objects@[id as int].ai.is_some()
                &&& forall|j: int| from <= j < id ==> (#[trigger] objects@[j]).ai.is_none()
            },
            None => forall|j: int| from <= j < objects@.len() ==> (#[trigger] objects@[j]).ai.is_none(),
        },
{
    let mut i: usize = from;
    while i < objects.len()
        invariant
            from <= i,
            forall|j: int| from <= j < i && j < objects@.len() ==> (#[trigger] objects@[j]).ai.is_none(),
        decreases objects@.len() - i,
    {
        if objects[i].ai.is_some() {
            return Some(i);
        }
        i += 1;
    }
    None
}

} // verus!
