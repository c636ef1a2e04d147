//! The health of a character and what damage does to it.

use vstd::prelude::*;

verus! {

/// How much health a character has left, and how much it can have.
#[derive(Debug, Clone, Copy, PartialEq, Eq, Structural)]
pub struct Health {
    /// The health left.
    pub current: u32,
    /// The health of an unharmed character.
    pub max: u32,
}

impl Health {
    /// The health left once `damage` is dealt: none if the damage exceeds
    /// it.
    pub open spec fn after_damage(self, damage: u32) -> Health {
        Health {
            current: if self.current >= damage {
                (self.current - damage) as u32
            } else {
                0
            },
            ..self
        }
    }

    /// Whether no health is left.
    pub fn is_dead(&self) -> (dead: bool)
        ensures
            dead == (self.current == 0),
    {
        self.current == 0
    }
}

/// Deals `damage` to `health`. Health never falls below zero.
pub fn deal_damage(health: &mut Health, damage: u32)
    ensures
        *final(health) == old(health).after_damage(damage),
{
    health.current = health.current.saturating_sub(damage);
}

/// Damage adds up, to the point where no health is left: two blows leave
/// what one blow of their sum leaves.
pub proof fn lemma_damage_adds_up(health: Health, first: u32, second: u32)
    requires
        first + second <= u32::MAX,
    ensures
        health.after_damage(first).after_damage(second) == health.after_damage(
            (first + second) as u32,
        ),
{
}

/// Damage never heals, and it kills exactly when it is no less than the
/// health left.
pub proof fn lemma_damage_harms(health: Health, damage: u32)
    ensures
        health.after_damage(damage).current <= health.current,
        health.after_damage(damage).max == health.max,
        health.after_damage(damage).current == 0 <==> damage >= health.current,
{
}

} // verus!
