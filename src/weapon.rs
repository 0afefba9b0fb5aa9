use vstd::prelude::*;
use crate::ledger::{Ammo, Energy, Move};

verus! {

/// The fixed characteristics of a kind of weapon, shared by its instances.
/// Accuracy, agility limit and speed limit are carried for the rules of hit
/// chance; an attack here always hits a target that is not evading.
#[derive(Clone, Copy, Debug, PartialEq, Eq, Structural)]
pub struct WeaponStats {
    pub armor_piercing: u8,
    pub accuracy: u8,
    pub damage: u8,
    pub agility_limit: u8,
    pub speed_limit: Move,
    pub max_ammo: Ammo,
    pub energy_cost: Energy,
}

/// A weapon instance: its stats and the ammunition it has left.
#[derive(Clone, Copy, Debug, PartialEq, Eq, Structural)]
pub struct Weapon {
    pub stats: WeaponStats,
    pub current_ammo: Ammo,
}

/// Which of a unit's weapon slots an attack uses.
#[derive(Clone, Copy, Debug, PartialEq, Eq, Structural)]
pub enum WeaponChoice {
    Unarmed,
    Primary,
    Secondary,
    Tertiary,
}

/// Why firing a weapon failed.
#[derive(Clone, Copy, Debug, PartialEq, Eq, Structural)]
pub enum FireError {
    OutOfAmmo,
}

impl WeaponStats {
    /// Stats whose firing cost is a non-negative amount of energy.
    pub open spec fn wf(self) -> bool {
        self.energy_cost.0 >= 0
    }

    pub fn new(
        armor_piercing: u8,
        accuracy: u8,
        damage: u8,
        agility_limit: u8,
        speed_limit: Move,
        max_ammo: Ammo,
        energy_cost: Energy,
    ) -> (r: WeaponStats)
        ensures
            r == (WeaponStats {
                armor_piercing,
                accuracy,
                damage,
                agility_limit,
                speed_limit,
                max_ammo,
                energy_cost,
            }),
    {
        WeaponStats {
            armor_piercing,
            accuracy,
            damage,
            agility_limit,
            speed_limit,
            max_ammo,
            energy_cost,
        }
    }
}

/// The stats of the standard weapon: no armor piercing, accuracy 64,
/// damage 4, agility limit 32, no speed limit, 10 rounds, 32 energy a shot.
pub open spec fn standard_weapon_stats() -> WeaponStats {
    WeaponStats {
        armor_piercing: 0,
        accuracy: 64,
        damage: 4,
        agility_limit: 32,
        speed_limit: Move(255),
        max_ammo: Ammo(10),
        energy_cost: Energy(32),
    }
}

impl Default for WeaponStats {
    /// The standard weapon, as `standard_weapon_stats` gives it.
    fn default() -> (r: WeaponStats)
        ensures
            r == standard_weapon_stats(),
    {
        WeaponStats {
            armor_piercing: 0,
            accuracy: 64,
            damage: 4,
            agility_limit: 32,
            speed_limit: Move(255),
            max_ammo: Ammo(10),
            energy_cost: Energy(32),
        }
    }
}

impl Weapon {
    /// Ammunition within the magazine's size, and a valid firing cost.
    pub open spec fn wf(self) -> bool {
        self.current_ammo.0 <= self.stats.max_ammo.0 && self.stats.wf()
    }

    /// A fully loaded weapon with the given stats.
    pub fn new(stats: WeaponStats) -> (r: Weapon)
        ensures
            r.stats == stats,
            r.current_ammo == stats.max_ammo,
            stats.wf() ==> r.wf(),
    {
        Weapon { stats, current_ammo: stats.max_ammo }
    }

    /// Uses one round; fails, changing nothing, when none is left.
    pub fn fire(&mut self) -> (r: Result<(), FireError>)
        ensures
            final(self).stats == old(self).stats,
            old(self).current_ammo.0 == 0 ==> r == Err::<(), FireError>(FireError::OutOfAmmo)
                && final(self).current_ammo == old(self).current_ammo,
            old(self).current_ammo.0 > 0 ==> r == Ok::<(), FireError>(()) && final(self).current_ammo.0
                == old(self).current_ammo.0 - 1,
            old(self).wf() ==> final(self).wf(),
    {
        if self.current_ammo.0 == 0 {
            Err(FireError::OutOfAmmo)
        } else {
            self.current_ammo = Ammo(self.current_ammo.0 - 1);
            Ok(())
        }
    }
}

} // verus!
