//! The sound effects that the game's rules ask for.

use vstd::prelude::*;

verus! {

/// A sound effect; each stands for one audio file.
#[derive(Clone, Copy, Debug, PartialEq, Eq, Structural)]
pub enum Sound {
    /// The player is hit.
    Stab,
    /// The player's health is low.
    ScaredBreath,
    /// An enemy steals from the player's score.
    ScoreSteal,
    /// An enemy narrows the player's view.
    FovDown,
    /// A view-narrowing enemy dies.
    WraithDeath,
    /// An all-seeing enemy dies (first cry).
    OkulosDeath1,
    /// An all-seeing enemy dies (second cry).
    OkulosDeath2,
    /// An armor-ignoring enemy dies.
    AngelDeath,
    /// The player dies.
    PlayerDeathScream,
    /// The player reaches the tome.
    Victory,
    /// The player's view widens.
    Bubble,
    /// The player picks up gold.
    Coin,
    /// The player picks up a weapon.
    SwordUnsheathe,
    /// The player picks up another item.
    ItemPickup,
    /// The whole map is revealed.
    MapReveal,
    /// A healing potion is drunk.
    Bottle,
    /// Armor is put on.
    Chainmail,
    /// Poison resistance is gained.
    PoisonResistance,
}

} // verus!
