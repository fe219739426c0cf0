use vstd::prelude::*;

use crate::gui::{int_text, push_int_text, Messages, Tint};
use crate::object::Object;

verus! {

/// Combat component: hit points, base stats and experience.
#[derive(Clone, Copy, Debug, PartialEq, Eq, Structural)]
pub struct Fighter {
    pub hp: i32,
    pub base_max_hp: i32,
    pub base_defense: i32,
    pub base_power: i32,
    pub on_death: DeathCallback,
    pub xp: i32,
}

/// Which death transition an entity undergoes.
#[derive(Clone, Copy, Debug, PartialEq, Eq, Structural)]
pub enum DeathCallback {
    Player,
    Monster,
}

/// Glyph of a corpse.
pub const CORPSE: char = '%';

/// The player's corpse: new glyph and colour, everything else kept (the
/// fighter included).
pub open spec fn player_corpse(before: Object, after: Object) -> bool {
    after == (Object { chr: CORPSE, color: Tint::DarkRed, ..before })
}

/// A monster's remains: no longer blocking, no fighter, no AI, renamed.
pub open spec fn monster_remains(before: Object, after: Object) -> bool {
    &&& after == (Object {
        chr: CORPSE,
        color: Tint::DarkRed,
        blocks: false,
        fighter: None,
        ai: None,
        name: after.name,
        ..before
    })
    &&& after.name@ == "remains of "@ + before.name@
}

pub open spec fn player_death_note() -> (Seq<char>, Tint) {
    ("You died!"@, Tint::Red)
}

pub open spec fn monster_death_note(name: Seq<char>, xp: int) -> (Seq<char>, Tint) {
    (name + " is dead! You gain "@ + int_text(xp) + " XP"@, Tint::Orange)
}

/// What a death transition of the given kind does to an entity and its log.
pub open spec fn death_applied(
    kind: DeathCallback,
    before: Object,
    after: Object,
    log_before: Seq<(Seq<char>, Tint)>,
    log_after: Seq<(Seq<char>, Tint)>,
) -> bool {
    match kind {
        DeathCallback::Player => {
            &&& player_corpse(before, after)
            &&& log_after == log_before.push(player_death_note())
        },
        DeathCallback::Monster => {
            &&& monster_remains(before, after)
            &&& log_after == log_before.push(
                monster_death_note(before.name@, before.fighter.unwrap().xp as int),
            )
        },
    }
}

impl DeathCallback {
    /// Runs the death transition that this variant stands for.
    pub fn callback(self, object: &mut Object, messages: &mut Messages)
        requires
            self == DeathCallback::Monster ==> old(object).fighter.is_some(),
        ensures
            death_applied(self, *old(object), *final(object), old(messages)@, final(messages)@),
    {
        match self {
            DeathCallback::Player => player_death(object, messages),
            DeathCallback::Monster => monster_death(object, messages),
        }
    }
}

pub fn player_death(player: &mut Object, messages: &mut Messages)
    ensures
        player_corpse(*old(player), *final(player)),
        final(messages)@ == old(messages)@.push(player_death_note()),
{
    messages.add(String::from_str("You died!"), Tint::Red);
    player.chr = CORPSE;
    player.color = Tint::DarkRed;
}

pub fn monster_death(monster: &mut Object, messages: &mut Messages)
    requires
        old(monster).fighter.is_some(),
    ensures
        monster_remains(*old(monster), *final(monster)),
        final(messages)@ == old(messages)@.push(
            monster_death_note(old(monster).name@, old(monster).fighter.unwrap().xp as int),
        ),
{
    let xp = match &monster.fighter {
        Some(f) => f.xp,
        None => 0,
    };
    let mut text = monster.name.clone();
    text.append(" is dead! You gain ");
    push_int_text(&mut text, xp);
    text.append(" XP");
    messages.add(text, Tint::Orange);
    monster.chr = CORPSE;
    monster.color = Tint::DarkRed;
    monster.blocks = false;
    monster.fighter = None;
    monster.ai = None;
    let mut remains = String::from_str("remains of ");
    remains.append(monster.name.as_str());
    monster.name = remains;
}

} // verus!
