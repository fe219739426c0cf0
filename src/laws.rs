use vstd::prelude::*;

use crate::fighter::{
    monster_death_note, player_death_note, DeathCallback, CORPSE,
};
use crate::game_state::{leveled, level_up_fits, threshold, StatChoice};
use crate::gui::Tint;
use crate::object::{
    attack_damage, attack_done, damage_fits, damage_taken, fells, fits_i32, healed, hit_note,
    miss_note, struck, xp_yield, Object,
};

verus! {

/// An attack whose damage is not positive leaves both sides untouched and
/// logs that it had no effect.
pub proof fn lemma_harmless_attack(
    attacker: Object,
    target: Object,
    inventory: Seq<Object>,
    attacker_after: Object,
    target_after: Object,
    log_before: Seq<(Seq<char>, Tint)>,
    log_after: Seq<(Seq<char>, Tint)>,
)
    requires
        attack_done(attacker, target, inventory, attacker_after, target_after, log_before, log_after),
        attack_damage(attacker, target, inventory) <= 0,
    ensures
        target_after == target,
        attacker_after == attacker,
        log_after == log_before.push(miss_note(attacker.name@, target.name@)),
{
}

/// An attack with positive damage takes exactly that many hit points from
/// the target (whose fighter a player keeps even in death), and the log
/// records the hit with the exact damage, followed by a death notice when
/// the hit was lethal.
pub proof fn lemma_damaging_attack(
    attacker: Object,
    target: Object,
    inventory: Seq<Object>,
    attacker_after: Object,
    target_after: Object,
    log_before: Seq<(Seq<char>, Tint)>,
    log_after: Seq<(Seq<char>, Tint)>,
)
    requires
        target.fighter.is_some(),
        attack_done(attacker, target, inventory, attacker_after, target_after, log_before, log_after),
        attack_damage(attacker, target, inventory) > 0,
        damage_fits(target, attack_damage(attacker, target, inventory)),
    ensures
        ({
            let d = attack_damage(attacker, target, inventory);
            &&& struck(target, d).fighter.unwrap().hp == target.fighter.unwrap().hp - d
            &&& target_after.fighter.is_some() ==> target_after.fighter.unwrap().hp
                == target.fighter.unwrap().hp - d
            &&& log_after.len() > log_before.len()
            &&& log_after.subrange(0, log_before.len() as int) == log_before
            &&& log_after[log_before.len() as int] == hit_note(attacker.name@, target.name@, d)
            &&& log_after.len() == log_before.len() + (if fells(struck(target, d)) {
                2int
            } else {
                1int
            })
        }),
{
    let d = attack_damage(attacker, target, inventory);
    let l1 = log_before.push(hit_note(attacker.name@, target.name@, d));
    assert(l1.subrange(0, log_before.len() as int) =~= log_before);
    if fells(struck(target, d)) {
        assert(log_after.subrange(0, log_before.len() as int) =~= log_before);
    }
}

/// The death transition fires exactly when a living fighter's hit points
/// are down to zero after the damage, and at most once: a second blow to
/// what it left changes nothing but hit points and logs nothing.
pub proof fn lemma_death_fires_once(
    o0: Object,
    d1: int,
    o1: Object,
    d2: int,
    o2: Object,
    l0: Seq<(Seq<char>, Tint)>,
    l1: Seq<(Seq<char>, Tint)>,
    l2: Seq<(Seq<char>, Tint)>,
)
    requires
        damage_taken(o0, d1, o1, l0, l1),
        damage_taken(o1, d2, o2, l1, l2),
    ensures
        (o0.alive && !o1.alive) == (o0.alive && o0.fighter.is_some() && struck(o0, d1).fighter.unwrap().hp
            <= 0),
        (o0.alive && !o1.alive) ==> o2 == struck(o1, d2) && l2 == l1,
{
}

/// A monster killed by `damage` stops blocking, loses its fighter and AI,
/// is renamed "remains of ...", and yields exactly the xp its fighter had.
pub proof fn lemma_monster_death(
    before: Object,
    damage: int,
    after: Object,
    log_before: Seq<(Seq<char>, Tint)>,
    log_after: Seq<(Seq<char>, Tint)>,
)
    requires
        damage_taken(before, damage, after, log_before, log_after),
        fells(struck(before, damage)),
        before.fighter.unwrap().on_death == DeathCallback::Monster,
    ensures
        !after.blocks,
        after.fighter.is_none(),
        after.ai.is_none(),
        !after.alive,
        after.chr == CORPSE,
        after.name@ == "remains of "@ + before.name@,
        xp_yield(before, damage) == Some(before.fighter.unwrap().xp),
        log_after == log_before.push(monster_death_note(before.name@, before.fighter.unwrap().xp as int)),
{
}

/// A player killed by `damage` turns into a corpse glyph and keeps the
/// fighter, hit points included; no xp is handed out.
pub proof fn lemma_player_death(
    before: Object,
    damage: int,
    after: Object,
    log_before: Seq<(Seq<char>, Tint)>,
    log_after: Seq<(Seq<char>, Tint)>,
)
    requires
        damage_taken(before, damage, after, log_before, log_after),
        fells(struck(before, damage)),
        before.fighter.unwrap().on_death == DeathCallback::Player,
    ensures
        after.chr == CORPSE,
        after.fighter == struck(before, damage).fighter,
        !after.alive,
        xp_yield(before, damage).is_none(),
        log_after == log_before.push(player_death_note()),
{
}

/// One level-up raises the level by exactly one, pays the old level's
/// threshold from xp, and raises exactly the chosen stat, once.
pub proof fn lemma_single_level_up(p: Object, choice: StatChoice)
    requires
        p.fighter.is_some(),
        p.fighter.unwrap().xp >= threshold(p.level as int),
        level_up_fits(p, choice),
    ensures
        ({
            let f = p.fighter.unwrap();
            let g = leveled(p, choice).fighter.unwrap();
            &&& leveled(p, choice).level == p.level + 1
            &&& g.xp == f.xp - threshold(p.level as int)
            &&& g.xp >= 0
            &&& g.on_death == f.on_death
            &&& match choice {
                StatChoice::Constitution => {
                    &&& g.base_max_hp == f.base_max_hp + 20
                    &&& g.hp == f.hp + 20
                    &&& g.base_power == f.base_power
                    &&& g.base_defense == f.base_defense
                },
                StatChoice::Strength => {
                    &&& g.base_power == f.base_power + 1
                    &&& g.base_max_hp == f.base_max_hp
                    &&& g.hp == f.hp
                    &&& g.base_defense == f.base_defense
                },
                StatChoice::Agility => {
                    &&& g.base_defense == f.base_defense + 1
                    &&& g.base_max_hp == f.base_max_hp
                    &&& g.hp == f.hp
                    &&& g.base_power == f.base_power
                },
            }
        }),
{
}

/// Healing never lifts hit points above the maximum, and never lowers
/// them unless they were already above it or the amount is negative.
pub proof fn lemma_heal_capped(o: Object, max_hp: int, amount: int)
    requires
        o.fighter.is_some(),
        fits_i32(max_hp),
        fits_i32(o.fighter.unwrap().hp + amount),
    ensures
        healed(o, max_hp, amount).fighter.unwrap().hp <= max_hp,
        amount >= 0 && o.fighter.unwrap().hp <= max_hp ==> healed(o, max_hp, amount).fighter.unwrap().hp
            >= o.fighter.unwrap().hp,
{
}

} // verus!
