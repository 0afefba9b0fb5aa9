use vstd::prelude::*;
use rand::Rng;
use crate::grid::{Direction, Grid, GridPosition, direction_of_index};
use crate::ledger::{
    ArmorPoints, Energy, HitPoints, UnitArmorPoints, UnitEnergy, UnitHitPoints, VisionRange,
};
use crate::unit::{
    spawn_unit, ActionRequest, BelongsToFaction, CanDodge, CanHeal, CanRepair,
    EnergyRegeneration, Faction, MoveRequest, Unit, UnitController, UnitMove, UnitVision,
};
use crate::weapon::{standard_weapon_stats, Weapon, WeaponStats};
use crate::world::{World, requests_resolved};

verus! {

/// Relies on `rand::thread_rng` and `Rng::gen_range`: a number drawn from
/// `[0, n)`; `gen_range` panics on an empty range, which `n > 0` rules out.
#[verifier::external_body]
fn random_below(n: u32) -> (r: u32)
    requires
        n > 0,
    ensures
        r < n,
{
    rand::thread_rng().gen_range(0..n)
}

/// A direction drawn uniformly at random.
pub fn random_direction() -> (r: Direction)
    ensures
        exists|n: u32| n < 4 && r == direction_of_index(n),
{
    let n = random_below(4);
    Direction::from_index(n)
}

/// Whether the AI driver gives `u` an order: it is AI-controlled and idle.
pub open spec fn awaits_order(u: Unit) -> bool {
    u.controller == UnitController::NPC && u.request is None
}

/// `units` after every AI-controlled idle unit was ordered to move in `direction`.
pub open spec fn ordered(units: Seq<Unit>, direction: Direction) -> Seq<Unit> {
    Seq::new(
        units.len(),
        |k: int|
            if awaits_order(units[k]) {
                Unit {
                    request: Some(ActionRequest::Move(MoveRequest { direction })),
                    ..units[k]
                }
            } else {
                units[k]
            },
    )
}

/// Orders every AI-controlled idle unit to move in `direction`; player
/// units and units with a pending request are left alone.
pub fn order_random_movement(world: &mut World, direction: Direction)
    requires
        old(world).wf(),
    ensures
        final(world).wf(),
        final(world).grid == old(world).grid,
        final(world).units@ == ordered(old(world).units@, direction),
{
    let mut i: usize = 0;
    while i < world.units.len()
        invariant
            world.wf(),
            world.grid == old(world).grid,
            i <= world.units@.len(),
            world.units@.len() == old(world).units@.len(),
            forall|k: int|
                0 <= k < i ==> #[trigger] world.units@[k] == ordered(old(world).units@, direction)[k],
            forall|k: int| i <= k < world.units@.len() ==> #[trigger] world.units@[k] == old(world).units@[k],
        decreases world.units@.len() - i,
    {
        let mut u = world.units[i];
        if u.controller.is_npc() && u.is_idle() {
            u.request = Some(ActionRequest::Move(MoveRequest::with_direction(direction)));
            proof {
                assert(world.units@[i as int].wf());
                assert forall|k: int| 0 <= k < world.units@.update(i as int, u).len() implies
                    #[trigger] world.units@.update(i as int, u)[k].wf() && world.grid.contains(
                    world.units@.update(i as int, u)[k].position) by {
                    assert(world.units@[k].wf());
                }
            }
            world.units.set(i, u);
        }
        i = i + 1;
    }
    assert(world.units@ =~= ordered(old(world).units@, direction));
}

/// One tick of the game: every AI-controlled idle unit is ordered to move in
/// one randomly drawn direction, then every pending request is resolved.
/// Afterwards no unit has a pending request.
pub fn tick(world: &mut World)
    requires
        old(world).wf(),
    ensures
        final(world).wf(),
        final(world).grid == old(world).grid,
        exists|d: Direction|
            final(world).units@ == requests_resolved(ordered(old(world).units@, d), old(world).grid),
        forall|k: int| 0 <= k < final(world).units@.len() ==> #[trigger] final(world).units@[k].request is None,
{
    let direction = random_direction();
    order_random_movement(world, direction);
    world.resolve_requests();
}

/// The player's unit of the opening position: faction 1, at the origin,
/// 100 hit points, no armor, three standard weapons, 128 energy regaining 4,
/// moves for 8, sees 8 cells, dodges for 32, heals 1 for 128, repairs 0 for 0.
pub open spec fn opening_unit() -> Unit {
    let w = Some(Weapon { stats: standard_weapon_stats(), current_ammo: standard_weapon_stats().max_ammo });
    Unit {
        faction: BelongsToFaction(1),
        controller: UnitController::Player,
        position: GridPosition { x: 0, y: 0 },
        hit_points: UnitHitPoints { current: HitPoints(100), max: HitPoints(100) },
        armor_points: UnitArmorPoints { current: ArmorPoints(0), max: ArmorPoints(0) },
        primary_weapon: w,
        secondary_weapon: w,
        tertiary_weapon: w,
        energy: UnitEnergy { current_energy: Energy(128), max_energy: Energy(128) },
        energy_regeneration: EnergyRegeneration { energy_regeneration: Energy(4) },
        movement: UnitMove { energy_cost: Energy(8) },
        vision: UnitVision { vision_range: VisionRange(8) },
        dodge: CanDodge { energy_cost: Energy(32) },
        heal: CanHeal { energy_cost: Energy(128), amount: HitPoints(1) },
        repair: CanRepair { energy_cost: Energy(0), amount: ArmorPoints(0) },
        evading: false,
        request: None,
    }
}

/// The opening position: the default map with the player's unit alone on it.
pub fn setup() -> (r: World)
    ensures
        r.wf(),
        r.grid == Grid::default_map_spec(),
        r.units@ == seq![opening_unit()],
{
    let faction = Faction::new("Player", 1);
    let unit = spawn_unit(
        &faction,
        UnitController::Player,
        GridPosition { x: 0, y: 0 },
        HitPoints(100),
        ArmorPoints(0),
        WeaponStats::default(),
        WeaponStats::default(),
        WeaponStats::default(),
        Energy(128),
        Energy(4),
        Energy(8),
        VisionRange(8),
        Energy(32),
        HitPoints(1),
        Energy(128),
        ArmorPoints(0),
        Energy(0),
    );
    let mut world = World::new(Grid::default_map());
    let _index = world.add_unit(unit);
    proof {
        assert(world.units@ =~= seq![opening_unit()]);
    }
    world
}

} // verus!
