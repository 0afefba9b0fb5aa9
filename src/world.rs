use vstd::prelude::*;
use crate::grid::{step, Direction, Grid, GridPosition};
use crate::ledger::{Ammo, ArmorPoints, Energy, HitPoints, UnitEnergy, spent};
use crate::unit::{
    ActionError, ActionKind, ActionRequest, AttackRequest, kind_of, HealRequest, RepairRequest, Unit, UnitMove,
};
use crate::ledger::{UnitArmorPoints, UnitHitPoints, restored};
use crate::weapon::{Weapon, WeaponStats};

verus! {

/// The board: a grid and the arena of units on it, each known by its index.
#[derive(Debug)]
pub struct World {
    pub grid: Grid,
    pub units: Vec<Unit>,
}

/// Every unit is well formed and stands on `grid`.
pub open spec fn units_wf(units: Seq<Unit>, grid: Grid) -> bool {
    forall|k: int| 0 <= k < units.len() ==> #[trigger] units[k].wf() && grid.contains(units[k].position)
}

impl World {
    pub open spec fn wf(&self) -> bool {
        self.grid.wf() && units_wf(self.units@, self.grid)
    }
}

/// Two arenas of the same size whose units have the same pending requests.
pub open spec fn same_requests(a: Seq<Unit>, b: Seq<Unit>) -> bool {
    a.len() == b.len() && forall|k: int|
        #![trigger a[k]]
        #![trigger b[k]]
        0 <= k < a.len() ==> a[k].request == b[k].request
}

/// Replacing one unit by a well-formed unit on the grid keeps the arena well formed.
proof fn lemma_units_wf_update(units: Seq<Unit>, k: int, u: Unit, grid: Grid)
    requires
        units_wf(units, grid),
        0 <= k < units.len(),
        u.wf(),
        grid.contains(u.position),
    ensures
        units_wf(units.update(k, u), grid),
{
    assert forall|m: int| 0 <= m < units.update(k, u).len() implies #[trigger] units.update(
        k,
        u,
    )[m].wf() && grid.contains(units.update(k, u)[m].position) by {
        if m != k {
            assert(units[m].wf());
        }
    }
}

/// What a move of `u` in direction `d` on `grid` leaves of it, and its result.
/// The destination is checked first, then the energy: the move either takes
/// both the step and its cost, or neither.
pub open spec fn move_outcome(u: Unit, d: Direction, grid: Grid) -> (Unit, Result<(), ActionError>) {
    let dest = step(u.position, d);
    if !grid.contains(dest) {
        (u, Err(ActionError::OutOfBounds))
    } else if u.movement.energy_cost.0 > u.energy.current_energy.0 {
        (u, Err(ActionError::InsufficientEnergy))
    } else {
        (Unit { position: dest, ..u.with_energy_spent(u.movement.energy_cost) }, Ok(()))
    }
}

/// Moves the unit at `unit_position` one cell in `direction` when the
/// destination lies on `grid` and `unit_energy` covers the cost in
/// `unit_move`. On failure neither the position nor the energy changes.
pub fn try_move_unit(
    unit_position: &mut GridPosition,
    unit_move: &UnitMove,
    unit_energy: &mut UnitEnergy,
    direction: Direction,
    grid: Grid,
) -> (r: Result<(), ActionError>)
    requires
        grid.contains(*old(unit_position)),
        unit_move.energy_cost.0 >= 0,
    ensures
        ({
            let dest = step(*old(unit_position), direction);
            if !grid.contains(dest) {
                r == Err::<(), ActionError>(ActionError::OutOfBounds)
                    && *final(unit_position) == *old(unit_position)
                    && *final(unit_energy) == *old(unit_energy)
            } else if unit_move.energy_cost.0 > old(unit_energy).current_energy.0 {
                r == Err::<(), ActionError>(ActionError::InsufficientEnergy)
                    && *final(unit_position) == *old(unit_position)
                    && *final(unit_energy) == *old(unit_energy)
            } else {
                r == Ok::<(), ActionError>(()) && *final(unit_position) == dest
                    && final(unit_energy).current_energy.0 == old(unit_energy).current_energy.0
                    - unit_move.energy_cost.0
                    && final(unit_energy).max_energy == old(unit_energy).max_energy
            }
        }),
{
    match unit_position.neighbor(direction, grid) {
        None => Err(ActionError::OutOfBounds),
        Some(dest) => {
            if unit_energy.spend(unit_move.energy_cost) {
                *unit_position = dest;
                Ok(())
            } else {
                Err(ActionError::InsufficientEnergy)
            }
        },
    }
}

/// Carries out a move of `u`, as `move_outcome` says.
fn resolve_move(u: &mut Unit, direction: Direction, grid: Grid) -> (r: Result<(), ActionError>)
    requires
        old(u).wf(),
        grid.contains(old(u).position),
    ensures
        (*final(u), r) == move_outcome(*old(u), direction, grid),
        final(u).wf(),
        grid.contains(final(u).position),
{
    try_move_unit(&mut u.position, &u.movement, &mut u.energy, direction, grid)
}

/// The index of the first unit in `units`, from index `k` on, that stands at `p`.
pub open spec fn first_at_from(units: Seq<Unit>, p: GridPosition, k: int) -> Option<int>
    decreases units.len() - k,
{
    if k < 0 || k >= units.len() {
        None
    } else if units[k].position == p {
        Some(k)
    } else {
        first_at_from(units, p, k + 1)
    }
}

/// The index of the first unit in `units` that stands at `p`.
pub open spec fn first_at(units: Seq<Unit>, p: GridPosition) -> Option<int> {
    first_at_from(units, p, 0)
}

/// A unit found from index `k` on stands at `p`, at an index in range.
pub proof fn lemma_first_at_from_found(units: Seq<Unit>, p: GridPosition, k: int, j: int)
    requires
        first_at_from(units, p, k) == Some(j),
    ensures
        k <= j < units.len(),
        0 <= j,
        units[j].position == p,
    decreases units.len() - k,
{
    if 0 <= k < units.len() && units[k].position != p {
        lemma_first_at_from_found(units, p, k + 1, j);
    }
}

/// The index of the first unit in `units` that stands at `p`, if any.
pub fn unit_at(units: &Vec<Unit>, p: GridPosition) -> (r: Option<usize>)
    ensures
        match r {
            Some(j) => first_at(units@, p) == Some(j as int),
            None => first_at(units@, p) is None,
        },
{
    let mut k: usize = 0;
    while k < units.len()
        invariant
            k <= units.len(),
            first_at(units@, p) == first_at_from(units@, p, k as int),
        decreases units.len() - k,
    {
        if units[k].position == p {
            return Some(k);
        }
        k = k + 1;
    }
    None
}

/// What a dodge leaves of `u`, and its result: the dodge cost is taken and
/// the unit evades the next attack, or nothing changes when it cannot pay.
pub open spec fn dodge_outcome(u: Unit) -> (Unit, Result<(), ActionError>) {
    if u.dodge.energy_cost.0 > u.energy.current_energy.0 {
        (u, Err(ActionError::InsufficientEnergy))
    } else {
        (Unit { evading: true, ..u.with_energy_spent(u.dodge.energy_cost) }, Ok(()))
    }
}

fn resolve_dodge(u: &mut Unit) -> (r: Result<(), ActionError>)
    requires
        old(u).wf(),
    ensures
        (*final(u), r) == dodge_outcome(*old(u)),
        final(u).wf(),
{
    if u.energy.spend(u.dodge.energy_cost) {
        u.evading = true;
        Ok(())
    } else {
        Err(ActionError::InsufficientEnergy)
    }
}

/// What a hit with a weapon of `stats` leaves of the unit `t`.
///
/// An evading unit is missed, and stops evading. Otherwise the part of the
/// damage up to the weapon's armor piercing goes straight to hit points; the
/// rest is absorbed by armor points as far as they go, and what armor does not
/// absorb goes to hit points too. Hit points stop at zero.
pub open spec fn struck(t: Unit, stats: WeaponStats) -> Unit {
    if t.evading {
        Unit { evading: false, ..t }
    } else {
        let damage = stats.damage as int;
        let pierce = if stats.armor_piercing < stats.damage {
            stats.armor_piercing as int
        } else {
            damage
        };
        let rest = damage - pierce;
        let armor = t.armor_points.current.0 as int;
        let absorbed = if rest < armor {
            rest
        } else {
            armor
        };
        let loss = pierce + rest - absorbed;
        let hp = t.hit_points.current.0 as int;
        Unit {
            armor_points: UnitArmorPoints {
                current: ArmorPoints((armor - absorbed) as u8),
                ..t.armor_points
            },
            hit_points: UnitHitPoints {
                current: HitPoints(
                    (if loss <= hp {
                        hp - loss
                    } else {
                        0
                    }) as u8,
                ),
                ..t.hit_points
            },
            ..t
        }
    }
}

/// Applies to `t` a hit with a weapon of `stats`, as `struck` says.
fn take_hit(t: &mut Unit, stats: WeaponStats)
    requires
        old(t).wf(),
    ensures
        *final(t) == struck(*old(t), stats),
        final(t).wf(),
{
    if t.evading {
        t.evading = false;
    } else {
        let pierce: u8 = if stats.armor_piercing < stats.damage {
            stats.armor_piercing
        } else {
            stats.damage
        };
        let rest: u8 = stats.damage - pierce;
        let absorbed: u8 = if rest < t.armor_points.current.0 {
            rest
        } else {
            t.armor_points.current.0
        };
        t.armor_points.current = ArmorPoints(t.armor_points.current.0 - absorbed);
        t.hit_points.damage(pierce + (rest - absorbed));
    }
}

/// The neighbour of unit `i` in direction `d` when it stands on `grid` and
/// is held by a unit; the first such unit's index.
pub open spec fn target_in(units: Seq<Unit>, i: int, d: Direction, grid: Grid) -> Option<int> {
    let dest = step(units[i].position, d);
    if grid.contains(dest) {
        first_at(units, dest)
    } else {
        None
    }
}

/// What an attack by unit `i` leaves of `units`, and its result.
///
/// The target is the unit in the neighbouring cell in the request's
/// direction, and must belong to another faction. The chosen slot must hold a
/// weapon, the attacker's energy must cover its cost, and it must have a
/// round left. Then the cost and the round are taken and the target is
/// struck. On any failure nothing changes.
pub open spec fn attack_outcome(
    units: Seq<Unit>,
    i: int,
    request: AttackRequest,
    grid: Grid,
) -> (Seq<Unit>, Result<(), ActionError>) {
    let a = units[i];
    match target_in(units, i, request.direction, grid) {
        None => (units, Err(ActionError::NoValidTarget)),
        Some(j) => if units[j].faction == a.faction {
            (units, Err(ActionError::NoValidTarget))
        } else {
            match a.weapon_in(request.weapon_choice) {
                None => (units, Err(ActionError::NoWeapon)),
                Some(w) => if w.stats.energy_cost.0 > a.energy.current_energy.0 {
                    (units, Err(ActionError::InsufficientEnergy))
                } else if w.current_ammo.0 == 0 {
                    (units, Err(ActionError::OutOfAmmo))
                } else {
                    let fired = Weapon { current_ammo: Ammo((w.current_ammo.0 - 1) as u8), ..w };
                    let a2 = a.with_energy_spent(w.stats.energy_cost).with_weapon(
                        request.weapon_choice,
                        fired,
                    );
                    (units.update(i, a2).update(j, struck(units[j], w.stats)), Ok(()))
                },
            }
        },
    }
}

/// Carries out an attack by unit `i`, as `attack_outcome` says.
fn resolve_attack(units: &mut Vec<Unit>, i: usize, request: AttackRequest, grid: Grid) -> (r:
    Result<(), ActionError>)
    requires
        units_wf(old(units)@, grid),
        i < old(units).len(),
    ensures
        (final(units)@, r) == attack_outcome(old(units)@, i as int, request, grid),
        units_wf(final(units)@, grid),
        same_requests(old(units)@, final(units)@),
{
    let attacker = units[i];
    proof {
        assert(units@[i as int].wf());
    }
    let dest = match attacker.position.neighbor(request.direction, grid) {
        None => {
            return Err(ActionError::NoValidTarget);
        },
        Some(dest) => dest,
    };
    let j = match unit_at(units, dest) {
        None => {
            return Err(ActionError::NoValidTarget);
        },
        Some(j) => j,
    };
    proof {
        lemma_first_at_from_found(units@, dest, 0, j as int);
    }
    proof {
        assert(units@[j as int].wf());
    }
    if units[j].faction == attacker.faction {
        return Err(ActionError::NoValidTarget);
    }
    let mut weapon = match attacker.weapon(request.weapon_choice) {
        None => {
            return Err(ActionError::NoWeapon);
        },
        Some(w) => w,
    };
    let mut a = attacker;
    if !a.energy.spend(weapon.stats.energy_cost) {
        return Err(ActionError::InsufficientEnergy);
    }
    if weapon.fire().is_err() {
        return Err(ActionError::OutOfAmmo);
    }
    a.set_weapon(request.weapon_choice, weapon);
    let mut target = units[j];
    proof {
        lemma_units_wf_update(units@, i as int, a, grid);
    }
    units.set(i, a);
    take_hit(&mut target, weapon.stats);
    proof {
        lemma_units_wf_update(units@, j as int, target, grid);
    }
    units.set(j, target);
    Ok(())
}

/// The ally of unit `i` in the neighbouring cell in direction `d`, if any.
pub open spec fn ally_in(units: Seq<Unit>, i: int, d: Direction, grid: Grid) -> Option<int> {
    match target_in(units, i, d, grid) {
        Some(j) => if units[j].faction == units[i].faction {
            Some(j)
        } else {
            None
        },
        None => None,
    }
}

/// The ally of unit `i` in the neighbouring cell in `direction`, if any.
fn find_ally(units: &Vec<Unit>, i: usize, direction: Direction, grid: Grid) -> (r: Option<usize>)
    requires
        units_wf(units@, grid),
        i < units.len(),
    ensures
        match r {
            Some(j) => ally_in(units@, i as int, direction, grid) == Some(j as int) && j
                < units.len() && j != i,
            None => ally_in(units@, i as int, direction, grid) is None,
        },
{
    proof {
        assert(units@[i as int].wf());
    }
    let dest = match units[i].position.neighbor(direction, grid) {
        None => {
            return None;
        },
        Some(dest) => dest,
    };
    match unit_at(units, dest) {
        None => None,
        Some(j) => {
            proof {
                lemma_first_at_from_found(units@, dest, 0, j as int);
            }
            if units[j].faction == units[i].faction {
                Some(j)
            } else {
                None
            }
        },
    }
}

/// What a heal by unit `i` leaves of `units`, and its result: the ally in
/// the requested direction regains the healer's amount of hit points,
/// clamped to its maximum, for the healer's heal cost. On failure nothing
/// changes.
pub open spec fn heal_outcome(units: Seq<Unit>, i: int, request: HealRequest, grid: Grid) -> (
    Seq<Unit>,
    Result<(), ActionError>,
) {
    let h = units[i];
    match ally_in(units, i, request.direction, grid) {
        None => (units, Err(ActionError::NoValidTarget)),
        Some(j) => if h.heal.energy_cost.0 > h.energy.current_energy.0 {
            (units, Err(ActionError::InsufficientEnergy))
        } else {
            let t = units[j];
            let t2 = Unit {
                hit_points: UnitHitPoints {
                    current: HitPoints(
                        restored(
                            t.hit_points.current.0 as int,
                            h.heal.amount.0 as int,
                            t.hit_points.max.0 as int,
                        ) as u8,
                    ),
                    ..t.hit_points
                },
                ..t
            };
            (units.update(i, h.with_energy_spent(h.heal.energy_cost)).update(j, t2), Ok(()))
        },
    }
}

/// Carries out a heal by unit `i`, as `heal_outcome` says.
fn resolve_heal(units: &mut Vec<Unit>, i: usize, request: HealRequest, grid: Grid) -> (r: Result<
    (),
    ActionError,
>)
    requires
        units_wf(old(units)@, grid),
        i < old(units).len(),
    ensures
        (final(units)@, r) == heal_outcome(old(units)@, i as int, request, grid),
        units_wf(final(units)@, grid),
        same_requests(old(units)@, final(units)@),
{
    let j = match find_ally(units, i, request.direction, grid) {
        None => {
            return Err(ActionError::NoValidTarget);
        },
        Some(j) => j,
    };
    let mut h = units[i];
    proof {
        assert(units@[i as int].wf());
        assert(units@[j as int].wf());
    }
    if !h.energy.spend(h.heal.energy_cost) {
        return Err(ActionError::InsufficientEnergy);
    }
    let mut t = units[j];
    proof {
        lemma_units_wf_update(units@, i as int, h, grid);
    }
    units.set(i, h);
    t.hit_points.restore(h.heal.amount);
    proof {
        lemma_units_wf_update(units@, j as int, t, grid);
    }
    units.set(j, t);
    Ok(())
}

/// What a repair by unit `i` leaves of `units`, and its result: the ally in
/// the requested direction regains the repairer's amount of armor points,
/// clamped to its maximum, for the repairer's repair cost. On failure nothing
/// changes.
pub open spec fn repair_outcome(
    units: Seq<Unit>,
    i: int,
    request: RepairRequest,
    grid: Grid,
) -> (Seq<Unit>, Result<(), ActionError>) {
    let h = units[i];
    match ally_in(units, i, request.direction, grid) {
        None => (units, Err(ActionError::NoValidTarget)),
        Some(j) => if h.repair.energy_cost.0 > h.energy.current_energy.0 {
            (units, Err(ActionError::InsufficientEnergy))
        } else {
            let t = units[j];
            let t2 = Unit {
                armor_points: UnitArmorPoints {
                    current: ArmorPoints(
                        restored(
                            t.armor_points.current.0 as int,
                            h.repair.amount.0 as int,
                            t.armor_points.max.0 as int,
                        ) as u8,
                    ),
                    ..t.armor_points
                },
                ..t
            };
            (units.update(i, h.with_energy_spent(h.repair.energy_cost)).update(j, t2), Ok(()))
        },
    }
}

/// Carries out a repair by unit `i`, as `repair_outcome` says.
fn resolve_repair(units: &mut Vec<Unit>, i: usize, request: RepairRequest, grid: Grid) -> (r:
    Result<(), ActionError>)
    requires
        units_wf(old(units)@, grid),
        i < old(units).len(),
    ensures
        (final(units)@, r) == repair_outcome(old(units)@, i as int, request, grid),
        units_wf(final(units)@, grid),
        same_requests(old(units)@, final(units)@),
{
    let j = match find_ally(units, i, request.direction, grid) {
        None => {
            return Err(ActionError::NoValidTarget);
        },
        Some(j) => j,
    };
    let mut h = units[i];
    proof {
        assert(units@[i as int].wf());
        assert(units@[j as int].wf());
    }
    if !h.energy.spend(h.repair.energy_cost) {
        return Err(ActionError::InsufficientEnergy);
    }
    let mut t = units[j];
    proof {
        lemma_units_wf_update(units@, i as int, h, grid);
    }
    units.set(i, h);
    t.armor_points.restore(h.repair.amount);
    proof {
        lemma_units_wf_update(units@, j as int, t, grid);
    }
    units.set(j, t);
    Ok(())
}

/// What resolving the request of unit `i` leaves of `units`, and its result:
/// `None` when the unit has no request. The request is cleared whether the
/// action succeeds or fails.
pub open spec fn resolve_outcome(units: Seq<Unit>, i: int, grid: Grid) -> (
    Seq<Unit>,
    Option<Result<(), ActionError>>,
) {
    let idle = Unit { request: None, ..units[i] };
    let cleared = units.update(i, idle);
    match units[i].request {
        None => (units, None),
        Some(ActionRequest::Move(m)) => {
            let o = move_outcome(idle, m.direction, grid);
            (units.update(i, o.0), Some(o.1))
        },
        Some(ActionRequest::Attack(a)) => {
            let o = attack_outcome(cleared, i, a, grid);
            (o.0, Some(o.1))
        },
        Some(ActionRequest::Dodge) => {
            let o = dodge_outcome(idle);
            (units.update(i, o.0), Some(o.1))
        },
        Some(ActionRequest::Heal(h)) => {
            let o = heal_outcome(cleared, i, h, grid);
            (o.0, Some(o.1))
        },
        Some(ActionRequest::Repair(r)) => {
            let o = repair_outcome(cleared, i, r, grid);
            (o.0, Some(o.1))
        },
        Some(ActionRequest::Wait) => (cleared, Some(Ok(()))),
    }
}

impl World {
    /// Resolves the pending request of unit `i`, if any, and clears it.
    /// Other units' requests stay as they were.
    pub fn resolve_unit(&mut self, i: usize) -> (r: Option<Result<(), ActionError>>)
        requires
            old(self).wf(),
            i < old(self).units.len(),
        ensures
            final(self).wf(),
            final(self).grid == old(self).grid,
            (final(self).units@, r) == resolve_outcome(old(self).units@, i as int, old(self).grid),
            final(self).units@.len() == old(self).units@.len(),
            final(self).units@[i as int].request is None,
            forall|k: int|
                0 <= k < old(self).units@.len() && k != i ==> #[trigger] final(self).units@[k].request
                    == old(self).units@[k].request,
    {
        let grid = self.grid;
        let mut u = self.units[i];
        proof {
            assert(self.units@[i as int].wf());
        }
        let request = match u.request {
            None => {
                return None;
            },
            Some(request) => request,
        };
        u.request = None;
        proof {
            lemma_units_wf_update(self.units@, i as int, u, grid);
        }
        self.units.set(i, u);
        match request {
            ActionRequest::Move(m) => {
                let r = resolve_move(&mut u, m.direction, grid);
                proof {
                    lemma_units_wf_update(self.units@, i as int, u, grid);
                }
                self.units.set(i, u);
                Some(r)
            },
            ActionRequest::Attack(a) => Some(resolve_attack(&mut self.units, i, a, grid)),
            ActionRequest::Dodge => {
                let r = resolve_dodge(&mut u);
                proof {
                    lemma_units_wf_update(self.units@, i as int, u, grid);
                }
                self.units.set(i, u);
                Some(r)
            },
            ActionRequest::Heal(h) => Some(resolve_heal(&mut self.units, i, h, grid)),
            ActionRequest::Repair(rr) => Some(resolve_repair(&mut self.units, i, rr, grid)),
            ActionRequest::Wait => Some(Ok(())),
        }
    }
}

/// A move either takes the step and its full cost and succeeds, or changes
/// nothing and fails.
pub proof fn lemma_move_all_or_nothing(u: Unit, d: Direction, grid: Grid)
    requires
        u.wf(),
        grid.contains(u.position),
    ensures
        ({
            let (after, r) = move_outcome(u, d, grid);
            (r is Ok && after.position == step(u.position, d) && after.position != u.position
                && after.energy.current_energy.0 == u.energy.current_energy.0
                - u.movement.energy_cost.0 && after.energy.max_energy == u.energy.max_energy) || (
            r is Err && after == u)
        }),
{
}

/// A move never takes a unit off the grid.
pub proof fn lemma_move_stays_on_grid(u: Unit, d: Direction, grid: Grid)
    requires
        grid.contains(u.position),
    ensures
        grid.contains(move_outcome(u, d, grid).0.position),
{
}

/// Whether `u` has a pending request of kind `kind`.
pub open spec fn has_kind(u: Unit, kind: ActionKind) -> bool {
    match u.request {
        Some(r) => kind_of(r) == kind,
        None => false,
    }
}

/// Resolving one unit keeps the number of units.
pub proof fn lemma_resolve_outcome_len(units: Seq<Unit>, i: int, grid: Grid)
    requires
        0 <= i < units.len(),
    ensures
        resolve_outcome(units, i, grid).0.len() == units.len(),
{
    let idle = Unit { request: None, ..units[i] };
    let cleared = units.update(i, idle);
    match units[i].request {
        Some(ActionRequest::Attack(a)) => {
            if let Some(j) = target_in(cleared, i, a.direction, grid) {
                let dest = step(cleared[i].position, a.direction);
                lemma_first_at_from_found(cleared, dest, 0, j);
            }
        },
        Some(ActionRequest::Heal(h)) => {
            if let Some(j) = target_in(cleared, i, h.direction, grid) {
                let dest = step(cleared[i].position, h.direction);
                lemma_first_at_from_found(cleared, dest, 0, j);
            }
        },
        Some(ActionRequest::Repair(r)) => {
            if let Some(j) = target_in(cleared, i, r.direction, grid) {
                let dest = step(cleared[i].position, r.direction);
                lemma_first_at_from_found(cleared, dest, 0, j);
            }
        },
        _ => {},
    }
}

/// The arena after resolving, in index order from `k` on, every unit whose
/// pending request is of kind `kind`.
pub open spec fn phase_from(units: Seq<Unit>, grid: Grid, kind: ActionKind, k: int) -> Seq<Unit>
    decreases units.len() - k,
{
    if k < 0 || k >= units.len() {
        units
    } else {
        let next = if has_kind(units[k], kind) {
            resolve_outcome(units, k, grid).0
        } else {
            units
        };
        // Resolution keeps the number of units; the test makes the measure visible.
        if next.len() == units.len() {
            phase_from(next, grid, kind, k + 1)
        } else {
            next
        }
    }
}

/// The arena after one tick's resolution: the phases in the order move,
/// attack, dodge, heal, repair, wait.
pub open spec fn requests_resolved(units: Seq<Unit>, grid: Grid) -> Seq<Unit> {
    let s1 = phase_from(units, grid, ActionKind::Move, 0);
    let s2 = phase_from(s1, grid, ActionKind::Attack, 0);
    let s3 = phase_from(s2, grid, ActionKind::Dodge, 0);
    let s4 = phase_from(s3, grid, ActionKind::Heal, 0);
    let s5 = phase_from(s4, grid, ActionKind::Repair, 0);
    phase_from(s5, grid, ActionKind::Wait, 0)
}

impl World {
    /// Resolves, in index order, every unit whose pending request is of kind
    /// `kind`, each exactly once; requests of other kinds stay pending.
    pub fn resolve_phase(&mut self, kind: ActionKind)
        requires
            old(self).wf(),
        ensures
            final(self).wf(),
            final(self).grid == old(self).grid,
            final(self).units@ == phase_from(old(self).units@, old(self).grid, kind, 0),
            final(self).units@.len() == old(self).units@.len(),
            forall|k: int|
                0 <= k < old(self).units@.len() ==> #[trigger] final(self).units@[k].request == (
                if has_kind(old(self).units@[k], kind) {
                    None
                } else {
                    old(self).units@[k].request
                }),
    {
        let mut i: usize = 0;
        while i < self.units.len()
            invariant
                self.wf(),
                self.grid == old(self).grid,
                i <= self.units@.len(),
                self.units@.len() == old(self).units@.len(),
                phase_from(old(self).units@, self.grid, kind, 0) == phase_from(
                    self.units@,
                    self.grid,
                    kind,
                    i as int,
                ),
                forall|k: int|
                    0 <= k < i ==> #[trigger] self.units@[k].request == (if has_kind(
                        old(self).units@[k],
                        kind,
                    ) {
                        None
                    } else {
                        old(self).units@[k].request
                    }),
                forall|k: int|
                    i <= k < self.units@.len() ==> #[trigger] self.units@[k].request == old(
                        self,
                    ).units@[k].request,
            decreases self.units@.len() - i,
        {
            let pending = match self.units[i].request {
                Some(r) => r.kind() == kind,
                None => false,
            };
            proof {
                lemma_resolve_outcome_len(self.units@, i as int, self.grid);
            }
            if pending {
                self.resolve_unit(i);
            }
            i = i + 1;
        }
    }

    /// Resolves the requests of every unit that moves.
    pub fn move_units(&mut self)
        requires
            old(self).wf(),
        ensures
            final(self).wf(),
            final(self).grid == old(self).grid,
            final(self).units@ == phase_from(old(self).units@, old(self).grid, ActionKind::Move, 0),
    {
        self.resolve_phase(ActionKind::Move)
    }

    /// Resolves every pending request, phase by phase in the order move,
    /// attack, dodge, heal, repair, wait. Afterwards no unit has a pending
    /// request, and every unit still stands on the grid.
    pub fn resolve_requests(&mut self)
        requires
            old(self).wf(),
        ensures
            final(self).wf(),
            final(self).grid == old(self).grid,
            final(self).units@ == requests_resolved(old(self).units@, old(self).grid),
            final(self).units@.len() == old(self).units@.len(),
            forall|k: int|
                0 <= k < final(self).units@.len() ==> #[trigger] final(self).units@[k].request is None,
            forall|k: int|
                0 <= k < final(self).units@.len() ==> old(self).grid.contains(
                    #[trigger] final(self).units@[k].position,
                ),
    {
        let ghost s0 = self.units@;
        self.resolve_phase(ActionKind::Move);
        let ghost s1 = self.units@;
        self.resolve_phase(ActionKind::Attack);
        let ghost s2 = self.units@;
        self.resolve_phase(ActionKind::Dodge);
        let ghost s3 = self.units@;
        self.resolve_phase(ActionKind::Heal);
        let ghost s4 = self.units@;
        self.resolve_phase(ActionKind::Repair);
        let ghost s5 = self.units@;
        self.resolve_phase(ActionKind::Wait);
        proof {
            assert forall|k: int| 0 <= k < self.units@.len() implies #[trigger] self.units@[k].request
                is None by {
                assert(s1[k].request == (if has_kind(s0[k], ActionKind::Move) {
                    None
                } else {
                    s0[k].request
                }));
                assert(s2[k].request == (if has_kind(s1[k], ActionKind::Attack) {
                    None
                } else {
                    s1[k].request
                }));
                assert(s3[k].request == (if has_kind(s2[k], ActionKind::Dodge) {
                    None
                } else {
                    s2[k].request
                }));
                assert(s4[k].request == (if has_kind(s3[k], ActionKind::Heal) {
                    None
                } else {
                    s3[k].request
                }));
                assert(s5[k].request == (if has_kind(s4[k], ActionKind::Repair) {
                    None
                } else {
                    s4[k].request
                }));
                assert(self.units@[k].request == (if has_kind(s5[k], ActionKind::Wait) {
                    None
                } else {
                    s5[k].request
                }));
            }
            assert forall|k: int| 0 <= k < self.units@.len() implies self.grid.contains(
                #[trigger] self.units@[k].position,
            ) by {
                assert(self.units@[k].wf());
            }
        }
    }
}

impl World {
    /// An empty board on `grid`.
    pub fn new(grid: Grid) -> (r: World)
        requires
            grid.wf(),
        ensures
            r.wf(),
            r.grid == grid,
            r.units@.len() == 0,
    {
        World { grid, units: Vec::new() }
    }

    /// Places `unit` on the board and returns its index; refuses a unit that
    /// does not stand on the grid.
    pub fn add_unit(&mut self, unit: Unit) -> (r: Result<usize, ActionError>)
        requires
            old(self).wf(),
            unit.wf(),
        ensures
            final(self).wf(),
            final(self).grid == old(self).grid,
            old(self).grid.contains(unit.position) ==> r == Ok::<usize, ActionError>(
                old(self).units@.len() as usize,
            ) && final(self).units@ == old(self).units@.push(unit),
            !old(self).grid.contains(unit.position) ==> r == Err::<usize, ActionError>(
                ActionError::OutOfBounds,
            ) && final(self).units@ == old(self).units@,
    {
        if !self.grid.in_bounds(unit.position) {
            return Err(ActionError::OutOfBounds);
        }
        let index = self.units.len();
        self.units.push(unit);
        proof {
            assert forall|k: int| 0 <= k < self.units@.len() implies #[trigger] self.units@[k].wf()
                && self.grid.contains(self.units@[k].position) by {
                if k < index {
                    assert(old(self).units@[k].wf());
                }
            }
        }
        Ok(index)
    }

    /// Attaches `request` to unit `i` for this tick; refused while the unit
    /// has a request pending.
    pub fn request_action(&mut self, i: usize, request: ActionRequest) -> (r: Result<(), ActionError>)
        requires
            old(self).wf(),
            i < old(self).units.len(),
        ensures
            final(self).wf(),
            final(self).grid == old(self).grid,
            old(self).units@[i as int].request is None ==> r == Ok::<(), ActionError>(())
                && final(self).units@ == old(self).units@.update(
                i as int,
                Unit { request: Some(request), ..old(self).units@[i as int] },
            ),
            old(self).units@[i as int].request is Some ==> r == Err::<(), ActionError>(
                ActionError::AlreadyRequested,
            ) && final(self).units@ == old(self).units@,
    {
        let mut u = self.units[i];
        proof {
            assert(self.units@[i as int].wf());
        }
        let r = u.assign_request(request);
        if r.is_ok() {
            proof {
                lemma_units_wf_update(self.units@, i as int, u, self.grid);
            }
            self.units.set(i, u);
        }
        r
    }
}

} // verus!
