// Combat components: health, mana and combat statistics.

use vstd::prelude::*;

verus! {

/// Health points.
#[derive(Debug, Clone, Copy)]
pub struct Health {
    pub current: i32,
    pub max: i32,
}

impl Health {
    pub fn new(max: i32) -> (h: Self)
        ensures
            h.current == max,
            h.max == max,
    {
        Health { current: max, max }
    }

    pub fn is_alive(&self) -> (b: bool)
        ensures
            b == (self.current > 0),
    {
        self.current > 0
    }

    /// Subtracts `damage`, never going below zero.
    pub fn take_damage(&mut self, damage: i32)
        requires
            i32::MIN <= old(self).current - damage <= i32::MAX,
        ensures
            final(self).current == if old(self).current - damage > 0 {
                old(self).current - damage
            } else {
                0
            },
            final(self).max == old(self).max,
    {
        let v = self.current - damage;
        self.current = if v > 0 {
            v
        } else {
            0
        };
    }

    /// Adds `amount`, never going above the maximum.
    pub fn heal(&mut self, amount: i32)
        requires
            i32::MIN <= old(self).current + amount <= i32::MAX,
        ensures
            final(self).current == if old(self).current + amount < old(self).max {
                old(self).current + amount
            } else {
                old(self).max as int
            },
            final(self).max == old(self).max,
    {
        let v = self.current + amount;
        self.current = if v < self.max {
            v
        } else {
            self.max
        };
    }
}

/// Mana points.
#[derive(Debug, Clone, Copy)]
pub struct Mana {
    pub current: i32,
    pub max: i32,
}

impl Mana {
    pub fn new(max: i32) -> (m: Self)
        ensures
            m.current == max,
            m.max == max,
    {
        Mana { current: max, max }
    }

    pub fn has_enough(&self, cost: i32) -> (b: bool)
        ensures
            b == (self.current >= cost),
    {
        self.current >= cost
    }

    /// Spends `cost` when there is enough mana; reports whether it did.
    pub fn consume(&mut self, cost: i32) -> (ok: bool)
        requires
            old(self).current >= cost ==> old(self).current - cost <= i32::MAX,
        ensures
            ok == (old(self).current >= cost),
            final(self).current == if ok {
                old(self).current - cost
            } else {
                old(self).current as int
            },
            final(self).max == old(self).max,
    {
        if self.current >= cost {
            self.current = self.current - cost;
            true
        } else {
            false
        }
    }

    /// Adds `amount`, never going above the maximum.
    pub fn restore(&mut self, amount: i32)
        requires
            i32::MIN <= old(self).current + amount <= i32::MAX,
        ensures
            final(self).current == if old(self).current + amount < old(self).max {
                old(self).current + amount
            } else {
                old(self).max as int
            },
            final(self).max == old(self).max,
    {
        let v = self.current + amount;
        self.current = if v < self.max {
            v
        } else {
            self.max
        };
    }
}

/// Combat statistics of a player or monster.
#[derive(Debug, Clone)]
pub struct CombatStats {
    pub level: u16,
    pub attack_min: i32,
    pub attack_max: i32,
    pub defense: i32,
    pub magic_defense: i32,
    pub accuracy: u8,
    pub agility: u8,
}

} // verus!
