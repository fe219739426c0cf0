use vstd::prelude::*;

use crate::fighter::{death_applied, DeathCallback, Fighter};
use crate::game_state::GameState;
use crate::gui::{debug_quoted, debug_text, int_text, push_int_text, Messages, Tint};

verus! {

/// Behaviour tag of a computer-controlled entity.
#[derive(Clone, Copy, Debug, PartialEq, Eq, Structural)]
pub enum Ai {
    Basic,
    Confused { num_turns: i32 },
}

/// Kind of a pick-up item.
#[derive(Clone, Copy, Debug, PartialEq, Eq, Structural)]
pub enum Item {
    Heal,
    Lightning,
    Confuse,
    Fireball,
    Sword,
    Shield,
}

/// Body slot that a piece of equipment occupies.
#[derive(Clone, Copy, Debug, PartialEq, Eq, Structural)]
pub enum Slot {
    LeftHand,
    RightHand,
    Head,
}

/// Stat bonuses that an item grants while it is equipped.
#[derive(Clone, Copy, Debug, PartialEq, Eq, Structural)]
pub struct Equipment {
    pub slot: Slot,
    pub equipped: bool,
    pub max_hp_bonus: i32,
    pub defense_bonus: i32,
    pub power_bonus: i32,
}

/// Any actor or thing in the world: the player, a monster, an item.
#[derive(Debug)]
pub struct Object {
    pub x: i32,
    pub y: i32,
    pub name: String,
    pub blocks: bool,
    pub alive: bool,
    pub chr: char,
    pub color: Tint,
    pub fighter: Option<Fighter>,
    pub ai: Option<Ai>,
    pub item: Option<Item>,
    pub always_visible: bool,
    pub level: i32,
    pub equipment: Option<Equipment>,
}


/// Which bonus of a piece of equipment is meant.
#[derive(Clone, Copy, Debug, PartialEq, Eq, Structural)]
pub enum Bonus {
    Power,
    Defense,
    MaxHp,
}

pub open spec fn bonus_of(e: Equipment, kind: Bonus) -> int {
    match kind {
        Bonus::Power => e.power_bonus as int,
        Bonus::Defense => e.defense_bonus as int,
        Bonus::MaxHp => e.max_hp_bonus as int,
    }
}

pub open spec fn bonus_sum(es: Seq<Equipment>, kind: Bonus) -> int
    decreases es.len(),
{
    if es.len() == 0 {
        0
    } else {
        bonus_sum(es.drop_last(), kind) + bonus_of(es.last(), kind)
    }
}

pub open spec fn is_equipped(o: Object) -> bool {
    o.equipment.is_some() && o.equipment.unwrap().equipped
}

/// The equipment of the inventory items that are equipped, in inventory order.
pub open spec fn equipped_items(inventory: Seq<Object>) -> Seq<Equipment>
    decreases inventory.len(),
{
    if inventory.len() == 0 {
        Seq::empty()
    } else if is_equipped(inventory.last()) {
        equipped_items(inventory.drop_last()).push(inventory.last().equipment.unwrap())
    } else {
        equipped_items(inventory.drop_last())
    }
}

/// Only the entity named "player" owns the inventory; others wear nothing.
pub open spec fn equipment_of(o: Object, inventory: Seq<Object>) -> Seq<Equipment> {
    if o.name@ == "player"@ {
        equipped_items(inventory)
    } else {
        Seq::empty()
    }
}

pub open spec fn base_stat(o: Object, kind: Bonus) -> int {
    match o.fighter {
        Some(f) => match kind {
            Bonus::Power => f.base_power as int,
            Bonus::Defense => f.base_defense as int,
            Bonus::MaxHp => f.base_max_hp as int,
        },
        None => 0,
    }
}

/// Base stat plus the matching bonus of everything the entity has equipped.
pub open spec fn stat_of(o: Object, inventory: Seq<Object>, kind: Bonus) -> int {
    base_stat(o, kind) + bonus_sum(equipment_of(o, inventory), kind)
}

pub open spec fn power_of(o: Object, inventory: Seq<Object>) -> int {
    stat_of(o, inventory, Bonus::Power)
}

pub open spec fn defense_of(o: Object, inventory: Seq<Object>) -> int {
    stat_of(o, inventory, Bonus::Defense)
}

pub open spec fn max_hp_of(o: Object, inventory: Seq<Object>) -> int {
    stat_of(o, inventory, Bonus::MaxHp)
}

pub open spec fn fits_i32(v: int) -> bool {
    i32::MIN <= v <= i32::MAX
}

fn sum_bonus(es: &Vec<Equipment>, kind: Bonus) -> (r: i128)
    ensures
        r == bonus_sum(es@, kind),
        -0x8000_0000_0000_0000_0000_0000 <= r <= 0x8000_0000_0000_0000_0000_0000,
{
    let mut acc: i128 = 0;
    let mut i: usize = 0;
    while i < es.len()
        invariant
            0 <= i <= es@.len(),
            acc == bonus_sum(es@.subrange(0, i as int), kind),
            -(i as int) * 0x8000_0000 <= acc <= (i as int) * 0x8000_0000,
        decreases es@.len() - i,
    {
        let e = es[i];
        let b: i32 = match kind {
            Bonus::Power => e.power_bonus,
            Bonus::Defense => e.defense_bonus,
            Bonus::MaxHp => e.max_hp_bonus,
        };
        assert(es@.subrange(0, i + 1).drop_last() =~= es@.subrange(0, i as int));
        acc = acc + b as i128;
        i += 1;
    }
    assert(es@.subrange(0, i as int) =~= es@);
    acc
}


/// Hit points left after `damage` lands; damage that is not positive, or an
/// entity without a fighter, leaves the entity as it was.
pub open spec fn struck(o: Object, damage: int) -> Object {
    if o.fighter.is_some() && damage > 0 {
        Object {
            fighter: Some(Fighter { hp: (o.fighter.unwrap().hp - damage) as i32, ..o.fighter.unwrap() }),
            ..o
        }
    } else {
        o
    }
}

/// The death transition fires: a living fighter whose hit points are down to zero.
pub open spec fn fells(o: Object) -> bool {
    o.alive && o.fighter.is_some() && o.fighter.unwrap().hp <= 0
}

pub open spec fn damage_fits(o: Object, damage: int) -> bool {
    o.fighter.is_some() && damage > 0 ==> fits_i32(o.fighter.unwrap().hp - damage)
}

/// Experience that a hit of `damage` yields: a monster's xp when it dies of it.
pub open spec fn xp_yield(o: Object, damage: int) -> Option<i32> {
    let s = struck(o, damage);
    if fells(s) && s.fighter.unwrap().on_death == DeathCallback::Monster {
        Some(s.fighter.unwrap().xp)
    } else {
        None
    }
}

/// The entity and log after `damage` is applied and, if lethal, the death
/// transition has run.
pub open spec fn damage_taken(
    before: Object,
    damage: int,
    after: Object,
    log_before: Seq<(Seq<char>, Tint)>,
    log_after: Seq<(Seq<char>, Tint)>,
) -> bool {
    let s = struck(before, damage);
    if fells(s) {
        death_applied(
            s.fighter.unwrap().on_death,
            Object { alive: false, ..s },
            after,
            log_before,
            log_after,
        )
    } else {
        after == s && log_after == log_before
    }
}

/// Hit points raised by `amount`, capped at `max_hp`.
pub open spec fn healed(o: Object, max_hp: int, amount: int) -> Object {
    match o.fighter {
        Some(f) => {
            let h = f.hp + amount;
            Object { fighter: Some(Fighter { hp: (if h > max_hp { max_hp } else { h }) as i32, ..f }), ..o }
        },
        None => o,
    }
}

pub open spec fn attack_damage(attacker: Object, target: Object, inventory: Seq<Object>) -> int {
    power_of(attacker, inventory) - defense_of(target, inventory)
}

/// The attacker after it is credited with `gain`.
pub open spec fn credited(attacker: Object, gain: Option<i32>) -> Object {
    match gain {
        Some(xp) => Object {
            fighter: Some(
                Fighter { xp: (attacker.fighter.unwrap().xp + xp) as i32, ..attacker.fighter.unwrap() },
            ),
            ..attacker
        },
        None => attacker,
    }
}

pub open spec fn hit_note(attacker: Seq<char>, target: Seq<char>, damage: int) -> (Seq<char>, Tint) {
    (
        attacker + " attacks "@ + target + " for "@ + int_text(damage) + " hit points."@,
        Tint::White,
    )
}

pub open spec fn miss_note(attacker: Seq<char>, target: Seq<char>) -> (Seq<char>, Tint) {
    (attacker + " attacks "@ + target + " but it has no effect!"@, Tint::White)
}

/// Machine bounds for an attack: stats, damage, remaining hp and the credited
/// xp all fit in `i32`.
pub open spec fn attack_fits(attacker: Object, target: Object, inventory: Seq<Object>) -> bool {
    let d = attack_damage(attacker, target, inventory);
    &&& fits_i32(power_of(attacker, inventory))
    &&& fits_i32(defense_of(target, inventory))
    &&& fits_i32(d)
    &&& damage_fits(target, d)
    &&& (d > 0 && xp_yield(target, d).is_some()) ==> fits_i32(
        attacker.fighter.unwrap().xp + xp_yield(target, d).unwrap(),
    )
}

/// The outcome of one attack on attacker, target and the log.
pub open spec fn attack_done(
    attacker: Object,
    target: Object,
    inventory: Seq<Object>,
    attacker_after: Object,
    target_after: Object,
    log_before: Seq<(Seq<char>, Tint)>,
    log_after: Seq<(Seq<char>, Tint)>,
) -> bool {
    let d = attack_damage(attacker, target, inventory);
    if d > 0 {
        &&& damage_taken(
            target,
            d,
            target_after,
            log_before.push(hit_note(attacker.name@, target.name@, d)),
            log_after,
        )
        &&& attacker_after == credited(attacker, xp_yield(target, d))
    } else {
        &&& target_after == target
        &&& attacker_after == attacker
        &&& log_after == log_before.push(miss_note(attacker.name@, target.name@))
    }
}

pub open spec fn equip_note_missing_item(name: Seq<char>, verb: Seq<char>) -> (Seq<char>, Tint) {
    ("Can't "@ + verb + " "@ + name + " because it's not an item."@, Tint::Red)
}

pub open spec fn equip_note_missing_equipment(name: Seq<char>, verb: Seq<char>) -> (
    Seq<char>,
    Tint,
) {
    ("Can't "@ + verb + " "@ + name + " because it's not an Equipment."@, Tint::Red)
}

pub open spec fn slot_text(slot: Slot) -> Seq<char> {
    match slot {
        Slot::LeftHand => "left hand"@,
        Slot::RightHand => "right hand"@,
        Slot::Head => "head"@,
    }
}

pub open spec fn verb_text(on: bool) -> Seq<char> {
    if on { "equip"@ } else { "unequip"@ }
}

/// The line logged when an item is put on or taken off; `shown` is how the
/// item's name appears in it.
pub open spec fn worn_note(shown: Seq<char>, slot: Slot, on: bool) -> (Seq<char>, Tint) {
    if on {
        ("Equipped "@ + shown + " on "@ + slot_text(slot) + "."@, Tint::LightGreen)
    } else {
        ("Unequipped "@ + shown + " from "@ + slot_text(slot) + "."@, Tint::LightYellow)
    }
}

/// Equipping (`on`) or unequipping an entity: only an item with equipment
/// changes, and only when its state differs; the other cases log why not,
/// naming the entity by its plain name. `shown` is how the name appears in
/// the line that reports a change.
pub open spec fn equip_outcome(
    before: Object,
    after: Object,
    log_before: Seq<(Seq<char>, Tint)>,
    log_after: Seq<(Seq<char>, Tint)>,
    on: bool,
    shown: Seq<char>,
) -> bool {
    if before.item.is_none() {
        after == before && log_after == log_before.push(
            equip_note_missing_item(before.name@, verb_text(on)),
        )
    } else if before.equipment.is_none() {
        after == before && log_after == log_before.push(
            equip_note_missing_equipment(before.name@, verb_text(on)),
        )
    } else if before.equipment.unwrap().equipped == on {
        after == before && log_after == log_before
    } else {
        &&& after == (Object {
            equipment: Some(Equipment { equipped: on, ..before.equipment.unwrap() }),
            ..before
        })
        &&& log_after == log_before.push(worn_note(shown, before.equipment.unwrap().slot, on))
    }
}

fn slot_str(slot: Slot) -> (r: &'static str)
    ensures
        r@ == slot_text(slot),
{
    match slot {
        Slot::LeftHand => "left hand",
        Slot::RightHand => "right hand",
        Slot::Head => "head",
    }
}


impl Object {
    pub fn new(x: i32, y: i32, name: &str, blocks: bool, chr: char, color: Tint) -> (r: Object)
        ensures
            r.x == x && r.y == y && r.name@ == name@,
            r.blocks == blocks && r.chr == chr && r.color == color,
            !r.alive && !r.always_visible && r.level == 1,
            r.fighter.is_none() && r.ai.is_none() && r.item.is_none() && r.equipment.is_none(),
    {
        Object {
            x: x,
            y: y,
            name: String::from_str(name),
            blocks: blocks,
            alive: false,
            chr: chr,
            color: color,
            fighter: None,
            ai: None,
            item: None,
            always_visible: false,
            level: 1,
            equipment: None,
        }
    }

    pub fn pos(&self) -> (r: (i32, i32))
        ensures
            r == (self.x, self.y),
    {
        (self.x, self.y)
    }

    pub fn set_pos(&mut self, x: i32, y: i32)
        ensures
            *final(self) == (Object { x: x, y: y, ..*old(self) }),
    {
        self.x = x;
        self.y = y;
    }

    /// All equipped items of this entity.
    pub fn get_all_equipped(&self, game_state: &GameState) -> (r: Vec<Equipment>)
        ensures
            r@ == equipment_of(*self, game_state.inventory@),
    {
        let mut r: Vec<Equipment> = Vec::new();
        let player_name = String::from_str("player");
        if self.name == player_name {
            let inv = &game_state.inventory;
            let mut i: usize = 0;
            while i < inv.len()
                invariant
                    0 <= i <= inv@.len(),
                    r@ == equipped_items(inv@.subrange(0, i as int)),
                decreases inv@.len() - i,
            {
                assert(inv@.subrange(0, i + 1).drop_last() =~= inv@.subrange(0, i as int));
                match inv[i].equipment {
                    Some(e) => {
                        if e.equipped {
                            r.push(e);
                        }
                    },
                    None => {},
                }
                i += 1;
            }
            assert(inv@.subrange(0, i as int) =~= inv@);
        }
        r
    }

    /// A stat computed without narrowing, so that it cannot overflow.
    pub(crate) fn stat_wide(&self, game_state: &GameState, kind: Bonus) -> (r: i128)
        ensures
            r == stat_of(*self, game_state.inventory@, kind),
    {
        let base: i32 = match self.fighter {
            Some(f) => match kind {
                Bonus::Power => f.base_power,
                Bonus::Defense => f.base_defense,
                Bonus::MaxHp => f.base_max_hp,
            },
            None => 0,
        };
        let equipped = self.get_all_equipped(game_state);
        let bonus = sum_bonus(&equipped, kind);
        base as i128 + bonus
    }

    fn stat(&self, game_state: &GameState, kind: Bonus) -> (r: i32)
        requires
            fits_i32(stat_of(*self, game_state.inventory@, kind)),
        ensures
            r == stat_of(*self, game_state.inventory@, kind),
    {
        self.stat_wide(game_state, kind) as i32
    }

    pub fn power(&self, game_state: &GameState) -> (r: i32)
        requires
            fits_i32(power_of(*self, game_state.inventory@)),
        ensures
            r == power_of(*self, game_state.inventory@),
    {
        self.stat(game_state, Bonus::Power)
    }

    pub fn defense(&self, game_state: &GameState) -> (r: i32)
        requires
            fits_i32(defense_of(*self, game_state.inventory@)),
        ensures
            r == defense_of(*self, game_state.inventory@),
    {
        self.stat(game_state, Bonus::Defense)
    }

    pub fn max_hp(&self, game_state: &GameState) -> (r: i32)
        requires
            fits_i32(max_hp_of(*self, game_state.inventory@)),
        ensures
            r == max_hp_of(*self, game_state.inventory@),
    {
        self.stat(game_state, Bonus::MaxHp)
    }

    /// Heals by `amount`, never above the maximum.
    pub fn heal(&mut self, game_state: &GameState, amount: i32)
        requires
            fits_i32(max_hp_of(*old(self), game_state.inventory@)),
            old(self).fighter.is_some() ==> i32::MIN <= old(self).fighter.unwrap().hp + amount,
        ensures
            *final(self) == healed(*old(self), max_hp_of(*old(self), game_state.inventory@), amount as int),
    {
        let max_hp = self.max_hp(game_state);
        match &mut self.fighter {
            Some(fighter) => {
                let h: i64 = fighter.hp as i64 + amount as i64;
                if h > max_hp as i64 {
                    fighter.hp = max_hp;
                } else {
                    fighter.hp = h as i32;
                }
            },
            None => {},
        }
    }

    /// Applies `damage` and runs the death transition when it is lethal.
    /// Returns the experience that a freshly killed monster yields.
    pub fn take_damage(&mut self, damage: i32, game_state: &mut GameState) -> (r: Option<i32>)
        requires
            damage_fits(*old(self), damage as int),
        ensures
            damage_taken(*old(self), damage as int, *final(self), old(game_state).log@, final(game_state).log@),
            r == xp_yield(*old(self), damage as int),
            final(game_state).inventory == old(game_state).inventory,
            final(game_state).world == old(game_state).world,
            final(game_state).dungeon_level == old(game_state).dungeon_level,
    {
        match &mut self.fighter {
            Some(fighter) => {
                if damage > 0 {
                    fighter.hp = fighter.hp - damage;
                }
            },
            None => {},
        }
        match self.fighter {
            Some(fighter) => {
                if self.alive && fighter.hp <= 0 {
                    self.alive = false;
                    fighter.on_death.callback(self, &mut game_state.log);
                    match fighter.on_death {
                        DeathCallback::Monster => Some(fighter.xp),
                        DeathCallback::Player => None,
                    }
                } else {
                    None
                }
            },
            None => None,
        }
    }

    /// Attacks `target`; a kill credits the target's xp to this attacker.
    pub fn attack(&mut self, target: &mut Object, game_state: &mut GameState)
        requires
            old(self).fighter.is_some(),
            old(target).fighter.is_some(),
            attack_fits(*old(self), *old(target), old(game_state).inventory@),
        ensures
            attack_done(
                *old(self),
                *old(target),
                old(game_state).inventory@,
                *final(self),
                *final(target),
                old(game_state).log@,
                final(game_state).log@,
            ),
            final(game_state).inventory == old(game_state).inventory,
            final(game_state).world == old(game_state).world,
            final(game_state).dungeon_level == old(game_state).dungeon_level,
    {
        let damage = self.power(game_state) - target.defense(game_state);
        let mut text = self.name.clone();
        text.append(" attacks ");
        text.append(target.name.as_str());
        if damage > 0 {
            text.append(" for ");
            push_int_text(&mut text, damage);
            text.append(" hit points.");
            game_state.log.add(text, Tint::White);
            match target.take_damage(damage, game_state) {
                Some(xp) => {
                    match &mut self.fighter {
                        Some(f) => {
                            f.xp = f.xp + xp;
                        },
                        None => {},
                    }
                },
                None => {},
            }
        } else {
            text.append(" but it has no effect!");
            game_state.log.add(text, Tint::White);
        }
    }
    /// Marks this item's equipment as worn and logs it, the name written as
    /// its `Debug` form (quoted). A refusal names the entity plainly.
    pub fn equip(&mut self, log: &mut Messages)
        ensures
            equip_outcome(*old(self), *final(self), old(log)@, final(log)@, true, debug_text(old(self).name@)),
    {
        let shown = debug_quoted(self.name.as_str());
        self.set_equipped(log, true, shown.as_str());
    }

    /// Marks this item's equipment as taken off and logs it. A refusal names
    /// the entity plainly.
    pub fn unequip(&mut self, log: &mut Messages)
        ensures
            equip_outcome(*old(self), *final(self), old(log)@, final(log)@, false, old(self).name@),
    {
        let shown = self.name.clone();
        self.set_equipped(log, false, shown.as_str());
    }

    /// Puts on (`on`) or takes off this item's equipment; a change is logged
    /// with the name written as `shown`.
    pub fn set_equipped(&mut self, log: &mut Messages, on: bool, shown: &str)
        ensures
            equip_outcome(*old(self), *final(self), old(log)@, final(log)@, on, shown@),
    {
        let verb = if on { "equip" } else { "unequip" };
        if self.item.is_none() {
            let mut text = String::from_str("Can't ");
            text.append(verb);
            text.append(" ");
            text.append(self.name.as_str());
            text.append(" because it's not an item.");
            log.add(text, Tint::Red);
            return;
        }
        match self.equipment {
            Some(e) => {
                if e.equipped != on {
                    let mut text = String::from_str(if on { "Equipped " } else { "Unequipped " });
                    text.append(shown);
                    text.append(if on { " on " } else { " from " });
                    text.append(slot_str(e.slot));
                    text.append(".");
                    log.add(text, if on { Tint::LightGreen } else { Tint::LightYellow });
                    self.equipment = Some(Equipment { equipped: on, ..e });
                }
            },
            None => {
                let mut text = String::from_str("Can't ");
                text.append(verb);
                text.append(" ");
                text.append(self.name.as_str());
                text.append(" because it's not an Equipment.");
                log.add(text, Tint::Red);
            },
        }
    }
}

} // verus!
