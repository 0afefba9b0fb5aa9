use vstd::prelude::*;

verus! {

/// An amount of energy.
#[derive(Clone, Copy, Debug, PartialEq, Eq, Structural)]
pub struct Energy(pub i32);

/// An amount of hit points.
#[derive(Clone, Copy, Debug, PartialEq, Eq, Structural)]
pub struct HitPoints(pub u8);

/// An amount of armor points.
#[derive(Clone, Copy, Debug, PartialEq, Eq, Structural)]
pub struct ArmorPoints(pub u8);

/// A number of rounds of ammunition.
#[derive(Clone, Copy, Debug, PartialEq, Eq, Structural)]
pub struct Ammo(pub u8);

/// A movement speed.
#[derive(Clone, Copy, Debug, PartialEq, Eq, Structural)]
pub struct Move(pub u8);

/// How far a unit sees, in cells.
#[derive(Clone, Copy, Debug, PartialEq, Eq, Structural)]
pub struct VisionRange(pub u8);

/// What `spend(amount)` leaves of `current`: the difference when it is
/// affordable, else `current` itself.
pub open spec fn spent(current: int, amount: int) -> int {
    if amount <= current {
        current - amount
    } else {
        current
    }
}

/// What `restore(amount)` leaves of `current`: the sum, clamped to `max`.
pub open spec fn restored(current: int, amount: int, max: int) -> int {
    if current + amount > max {
        max
    } else {
        current + amount
    }
}

/// One mutation of a ledger, with a non-negative amount.
#[derive(Clone, Copy, Debug, PartialEq, Eq, Structural)]
pub enum LedgerOp {
    Spend(u32),
    Restore(u32),
}

/// The current value of a ledger with bound `max` after the operations `ops`,
/// applied in order from `current`.
pub open spec fn apply_ops(current: int, max: int, ops: Seq<LedgerOp>) -> int
    decreases ops.len(),
{
    if ops.len() == 0 {
        current
    } else {
        let next = match ops[0] {
            LedgerOp::Spend(a) => spent(current, a as int),
            LedgerOp::Restore(a) => restored(current, a as int, max),
        };
        apply_ops(next, max, ops.drop_first())
    }
}

/// A ledger whose current value lies in `[0, max]` keeps it there through
/// any sequence of spends and restores.
pub proof fn lemma_ledger_stays_in_range(current: int, max: int, ops: Seq<LedgerOp>)
    requires
        0 <= current <= max,
    ensures
        0 <= apply_ops(current, max, ops) <= max,
    decreases ops.len(),
{
    if ops.len() > 0 {
        let next = match ops[0] {
            LedgerOp::Spend(a) => spent(current, a as int),
            LedgerOp::Restore(a) => restored(current, a as int, max),
        };
        lemma_ledger_stays_in_range(next, max, ops.drop_first());
    }
}

/// A spend larger than the current value fails and changes nothing.
pub proof fn lemma_unaffordable_spend_keeps_current(current: int, amount: int)
    requires
        amount > current,
    ensures
        spent(current, amount) == current,
{
}

/// A unit's energy: a current value bounded by a maximum.
#[derive(Clone, Copy, Debug, PartialEq, Eq, Structural)]
pub struct UnitEnergy {
    pub current_energy: Energy,
    pub max_energy: Energy,
}

/// A unit's hit points: a current value bounded by a maximum.
#[derive(Clone, Copy, Debug, PartialEq, Eq, Structural)]
pub struct UnitHitPoints {
    pub current: HitPoints,
    pub max: HitPoints,
}

/// A unit's armor points: a current value bounded by a maximum.
#[derive(Clone, Copy, Debug, PartialEq, Eq, Structural)]
pub struct UnitArmorPoints {
    pub current: ArmorPoints,
    pub max: ArmorPoints,
}

impl UnitEnergy {
    pub open spec fn wf(self) -> bool {
        0 <= self.current_energy.0 <= self.max_energy.0
    }

    /// A full ledger with maximum `max_energy`.
    pub fn new(max_energy: Energy) -> (r: UnitEnergy)
        requires
            max_energy.0 >= 0,
        ensures
            r.current_energy == max_energy,
            r.max_energy == max_energy,
            r.wf(),
    {
        UnitEnergy { current_energy: max_energy, max_energy }
    }

    /// Takes `amount` when the current value covers it, and says whether it did.
    pub fn spend(&mut self, amount: Energy) -> (r: bool)
        requires
            amount.0 >= 0,
        ensures
            r == (amount.0 <= old(self).current_energy.0),
            final(self).current_energy.0 == spent(
                old(self).current_energy.0 as int,
                amount.0 as int,
            ),
            final(self).max_energy == old(self).max_energy,
            old(self).wf() ==> final(self).wf(),
    {
        if self.current_energy.0 < amount.0 {
            false
        } else {
            self.current_energy = Energy(self.current_energy.0 - amount.0);
            true
        }
    }

    /// Adds `amount`, clamped to the maximum.
    pub fn restore(&mut self, amount: Energy)
        requires
            old(self).wf(),
            amount.0 >= 0,
        ensures
            final(self).current_energy.0 == restored(
                old(self).current_energy.0 as int,
                amount.0 as int,
                old(self).max_energy.0 as int,
            ),
            final(self).max_energy == old(self).max_energy,
            final(self).wf(),
    {
        if amount.0 > self.max_energy.0 - self.current_energy.0 {
            self.current_energy = self.max_energy;
        } else {
            self.current_energy = Energy(self.current_energy.0 + amount.0);
        }
    }
}

impl UnitHitPoints {
    pub open spec fn wf(self) -> bool {
        self.current.0 <= self.max.0
    }

    /// A full ledger with maximum `max`.
    pub fn new(max: HitPoints) -> (r: UnitHitPoints)
        ensures
            r.current == max,
            r.max == max,
            r.wf(),
    {
        UnitHitPoints { current: HitPoints(max.0), max }
    }

    /// Takes `amount` when the current value covers it, and says whether it did.
    pub fn spend(&mut self, amount: HitPoints) -> (r: bool)
        ensures
            r == (amount.0 <= old(self).current.0),
            final(self).current.0 == spent(old(self).current.0 as int, amount.0 as int),
            final(self).max == old(self).max,
            old(self).wf() ==> final(self).wf(),
    {
        if self.current.0 < amount.0 {
            false
        } else {
            self.current = HitPoints(self.current.0 - amount.0);
            true
        }
    }

    /// Adds `amount`, clamped to the maximum.
    pub fn restore(&mut self, amount: HitPoints)
        requires
            old(self).wf(),
        ensures
            final(self).current.0 == restored(
                old(self).current.0 as int,
                amount.0 as int,
                old(self).max.0 as int,
            ),
            final(self).max == old(self).max,
            final(self).wf(),
    {
        if amount.0 > self.max.0 - self.current.0 {
            self.current = self.max;
        } else {
            self.current = HitPoints(self.current.0 + amount.0);
        }
    }

    /// Removes `amount`, stopping at zero.
    pub fn damage(&mut self, amount: u8)
        ensures
            final(self).current.0 == (if amount <= old(self).current.0 {
                old(self).current.0 - amount
            } else {
                0
            }),
            final(self).max == old(self).max,
            old(self).wf() ==> final(self).wf(),
    {
        if amount <= self.current.0 {
            self.current = HitPoints(self.current.0 - amount);
        } else {
            self.current = HitPoints(0);
        }
    }
}

impl UnitArmorPoints {
    pub open spec fn wf(self) -> bool {
        self.current.0 <= self.max.0
    }

    /// A full ledger with maximum `max`.
    pub fn new(max: ArmorPoints) -> (r: UnitArmorPoints)
        ensures
            r.current == max,
            r.max == max,
            r.wf(),
    {
        UnitArmorPoints { current: ArmorPoints(max.0), max }
    }

    /// Takes `amount` when the current value covers it, and says whether it did.
    pub fn spend(&mut self, amount: ArmorPoints) -> (r: bool)
        ensures
            r == (amount.0 <= old(self).current.0),
            final(self).current.0 == spent(old(self).current.0 as int, amount.0 as int),
            final(self).max == old(self).max,
            old(self).wf() ==> final(self).wf(),
    {
        if self.current.0 < amount.0 {
            false
        } else {
            self.current = ArmorPoints(self.current.0 - amount.0);
            true
        }
    }

    /// Adds `amount`, clamped to the maximum.
    pub fn restore(&mut self, amount: ArmorPoints)
        requires
            old(self).wf(),
        ensures
            final(self).current.0 == restored(
                old(self).current.0 as int,
                amount.0 as int,
                old(self).max.0 as int,
            ),
            final(self).max == old(self).max,
            final(self).wf(),
    {
        if amount.0 > self.max.0 - self.current.0 {
            self.current = self.max;
        } else {
            self.current = ArmorPoints(self.current.0 + amount.0);
        }
    }
}

} // verus!
