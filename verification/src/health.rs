//! Hit points of one entity: a ceiling (`max_hp`) and the amount now left
//! (`current_hp`).
//!
//! At rest the game keeps `current_hp <= max_hp`; the two operations that may
//! break that bound on purpose (`add_health`, which over-heals, and
//! `remove_max_hp`, which lowers the ceiling without touching the current
//! amount) say so in their contracts. `lemma_health_ops_preserve_bounds`
//! states the law that `heal`, `damage` and `reduce_max_hp` always land back
//! inside `0 <= current <= max`.

use vstd::prelude::*;

verus! {

/// Hit points: a ceiling and the amount now left. Constructible directly,
/// or through `with_max_and_current`, which rejects `current > max`.
#[derive(Clone, Copy, Debug, PartialEq, Eq, Structural)]
pub struct Health {
    pub max_hp: u64,
    pub current_hp: u64,
}

/// The current amount after healing by `amount`: capped at the ceiling.
pub open spec fn healed_current(max: int, current: int, amount: int) -> int {
    if current + amount <= max {
        current + amount
    } else {
        max
    }
}

/// The current amount after taking `amount` damage: clamped at zero.
pub open spec fn damaged_current(current: int, amount: int) -> int {
    if amount >= current {
        0
    } else {
        current - amount
    }
}

/// Ceiling and current amount after `reduce_max_hp(loss)`: the ceiling drops
/// (clamped at zero) and the current amount is clamped down to the new
/// ceiling.
pub open spec fn reduced_health(max: int, current: int, loss: int) -> (int, int) {
    if loss >= max {
        (0, 0)
    } else if current <= max - loss {
        (max - loss, current)
    } else {
        (max - loss, max - loss)
    }
}

impl Health {
    /// A full health pool: `current == max`.
    pub fn new(max_hp: u64) -> (h: Health)
        ensures
            h.max_hp == max_hp,
            h.current_hp == max_hp,
    {
        Health { max_hp, current_hp: max_hp }
    }

    /// Builds a health value, rejecting `current_hp > max_hp`.
    pub fn with_max_and_current(max_hp: u64, current_hp: u64) -> (h: Option<Health>)
        ensures
            h is Some <==> current_hp <= max_hp,
            h matches Some(v) ==> v.max_hp == max_hp && v.current_hp == current_hp,
    {
        if current_hp > max_hp {
            None
        } else {
            Some(Health { max_hp, current_hp })
        }
    }

    pub fn max_health(&self) -> (m: u64)
        ensures
            m == self.max_hp,
    {
        self.max_hp
    }

    pub fn current_health(&self) -> (c: u64)
        ensures
            c == self.current_hp,
    {
        self.current_hp
    }

    /// Heals by `heal_amount`, capped at the ceiling. To heal past the
    /// ceiling use `add_health`.
    pub fn heal(&mut self, heal_amount: u64)
        ensures
            final(self).max_hp == old(self).max_hp,
            final(self).current_hp == healed_current(
                old(self).max_hp as int,
                old(self).current_hp as int,
                heal_amount as int,
            ),
    {
        if heal_amount <= self.max_hp && self.current_hp <= self.max_hp - heal_amount {
            self.current_hp = self.current_hp + heal_amount;
        } else {
            self.current_hp = self.max_hp;
        }
    }

    /// Heals by `heal_amount` without capping at the ceiling; the sum
    /// saturates only at the type's maximum.
    pub fn add_health(&mut self, heal_amount: u64)
        ensures
            final(self).max_hp == old(self).max_hp,
            final(self).current_hp == if old(self).current_hp + heal_amount <= u64::MAX {
                old(self).current_hp + heal_amount
            } else {
                u64::MAX as int
            },
    {
        if heal_amount <= u64::MAX - self.current_hp {
            self.current_hp = self.current_hp + heal_amount;
        } else {
            self.current_hp = u64::MAX;
        }
    }

    /// Deals `damage_amount` damage, clamping the current amount at zero.
    /// Returns whether the hit brought the current amount to zero.
    pub fn damage(&mut self, damage_amount: u64) -> (dead: bool)
        ensures
            final(self).max_hp == old(self).max_hp,
            final(self).current_hp == damaged_current(
                old(self).current_hp as int,
                damage_amount as int,
            ),
            dead <==> final(self).current_hp == 0,
            dead <==> damage_amount >= old(self).current_hp,
    {
        if damage_amount >= self.current_hp {
            self.current_hp = 0;
            true
        } else {
            self.current_hp = self.current_hp - damage_amount;
            false
        }
    }

    /// Raises the ceiling; the sum saturates only at the type's maximum.
    /// The current amount is untouched.
    pub fn add_max_hp(&mut self, extra_max_hp: u64)
        ensures
            final(self).current_hp == old(self).current_hp,
            final(self).max_hp == if old(self).max_hp + extra_max_hp <= u64::MAX {
                old(self).max_hp + extra_max_hp
            } else {
                u64::MAX as int
            },
    {
        if extra_max_hp <= u64::MAX - self.max_hp {
            self.max_hp = self.max_hp + extra_max_hp;
        } else {
            self.max_hp = u64::MAX;
        }
    }

    /// Lowers the ceiling, clamping it at zero, and clamps the current
    /// amount down to the new ceiling. Returns whether the ceiling reached
    /// zero. To leave the current amount untouched use `remove_max_hp`.
    pub fn reduce_max_hp(&mut self, max_hp_loss: u64) -> (zeroed: bool)
        ensures
            final(self).max_hp == reduced_health(
                old(self).max_hp as int,
                old(self).current_hp as int,
                max_hp_loss as int,
            ).0,
            final(self).current_hp == reduced_health(
                old(self).max_hp as int,
                old(self).current_hp as int,
                max_hp_loss as int,
            ).1,
            zeroed <==> max_hp_loss >= old(self).max_hp,
    {
        if max_hp_loss >= self.max_hp {
            self.max_hp = 0;
            self.current_hp = 0;
            true
        } else {
            self.max_hp = self.max_hp - max_hp_loss;
            if self.current_hp > self.max_hp {
                self.current_hp = self.max_hp;
            }
            false
        }
    }

    /// Lowers the ceiling, clamping it at zero, without touching the current
    /// amount. Returns whether the ceiling reached zero.
    pub fn remove_max_hp(&mut self, max_hp_loss: u64) -> (zeroed: bool)
        ensures
            final(self).current_hp == old(self).current_hp,
            final(self).max_hp == if max_hp_loss >= old(self).max_hp {
                0
            } else {
                old(self).max_hp - max_hp_loss
            },
            zeroed <==> max_hp_loss >= old(self).max_hp,
    {
        if max_hp_loss >= self.max_hp {
            self.max_hp = 0;
            true
        } else {
            self.max_hp = self.max_hp - max_hp_loss;
            false
        }
    }

    pub fn set_max_hp(&mut self, new_max_hp: u64)
        ensures
            final(self).max_hp == new_max_hp,
            final(self).current_hp == old(self).current_hp,
    {
        self.max_hp = new_max_hp;
    }

    pub fn set_current_hp(&mut self, new_hp: u64)
        ensures
            final(self).max_hp == old(self).max_hp,
            final(self).current_hp == new_hp,
    {
        self.current_hp = new_hp;
    }

    /// Replaces the ceiling, returning the previous one.
    pub fn swap_max_hp(&mut self, new_max_hp: u64) -> (prev: u64)
        ensures
            final(self).max_hp == new_max_hp,
            final(self).current_hp == old(self).current_hp,
            prev == old(self).max_hp,
    {
        let prev = self.max_hp;
        self.max_hp = new_max_hp;
        prev
    }

    /// Replaces the current amount, returning the previous one.
    pub fn swap_current_hp(&mut self, new_hp: u64) -> (prev: u64)
        ensures
            final(self).max_hp == old(self).max_hp,
            final(self).current_hp == new_hp,
            prev == old(self).current_hp,
    {
        let prev = self.current_hp;
        self.current_hp = new_hp;
        prev
    }
}

/// Law: starting from any at-rest health state (`0 <= current <= max`),
/// healing, damaging and ceiling reduction each land back inside
/// `0 <= current <= max` (with ceiling reduction also keeping the new
/// current under the new ceiling).
pub proof fn lemma_health_ops_preserve_bounds(max: int, current: int, amount: int)
    requires
        0 <= current <= max,
        0 <= amount,
    ensures
        0 <= healed_current(max, current, amount) <= max,
        0 <= damaged_current(current, amount) <= max,
        0 <= reduced_health(max, current, amount).1 <= reduced_health(max, current, amount).0,
        reduced_health(max, current, amount).0 <= max,
{
}

} // verus!
