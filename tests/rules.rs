use grid_tactics::driver::{order_random_movement, random_direction, setup, tick};
use grid_tactics::grid::{Direction, Grid, GridPosition, MAP_HEIGHT, MAP_WIDTH};
use grid_tactics::ledger::{
    Ammo, ArmorPoints, Energy, HitPoints, Move, UnitArmorPoints, UnitEnergy, UnitHitPoints,
    VisionRange,
};
use grid_tactics::unit::{
    spawn_unit, ActionError, ActionKind, ActionRequest, AttackRequest, BelongsToFaction, Faction,
    HealRequest, MoveRequest, RepairRequest, Unit, UnitController, UnitMove,
};
use grid_tactics::weapon::{FireError, Weapon, WeaponChoice, WeaponStats};
use grid_tactics::world::{try_move_unit, unit_at, World};

fn weapon_stats(armor_piercing: u8, damage: u8, max_ammo: u8, energy_cost: i32) -> WeaponStats {
    WeaponStats::new(
        armor_piercing,
        64,
        damage,
        32,
        Move(255),
        Ammo(max_ammo),
        Energy(energy_cost),
    )
}

fn unit(faction_id: i32, controller: UnitController, x: i32, y: i32, energy: i32, move_cost: i32) -> Unit {
    let faction = Faction::new("side", faction_id);
    spawn_unit(
        &faction,
        controller,
        GridPosition::new(x, y),
        HitPoints(20),
        ArmorPoints(5),
        weapon_stats(2, 6, 10, 3),
        WeaponStats::default(),
        weapon_stats(0, 1, 0, 1),
        Energy(energy),
        Energy(4),
        Energy(move_cost),
        VisionRange(8),
        Energy(5),
        HitPoints(7),
        Energy(6),
        ArmorPoints(3),
        Energy(2),
    )
}

fn world_of(units: Vec<Unit>) -> World {
    let mut world = World::new(Grid::new(5, 5));
    for u in units {
        world.add_unit(u).unwrap();
    }
    world
}

#[test]
fn opposite_is_an_involution() {
    for d in [Direction::Up, Direction::Down, Direction::Left, Direction::Right] {
        assert_eq!(d.opposite().opposite(), d);
    }
    assert_eq!(Direction::Up.opposite(), Direction::Down);
    assert_eq!(Direction::Left.opposite(), Direction::Right);
}

#[test]
fn direction_offsets() {
    assert_eq!(Direction::Up.vector(), (0, 1));
    assert_eq!(Direction::Down.vector(), (0, -1));
    assert_eq!(Direction::Left.vector(), (-1, 0));
    assert_eq!(Direction::Right.vector(), (1, 0));
    assert_eq!(Direction::Left.as_grid_position(), GridPosition::new(-1, 0));
    assert_eq!(Direction::Up.as_grid_position(), GridPosition::new(0, 1));
    assert_eq!(Direction::from_index(0), Direction::Up);
    assert_eq!(Direction::from_index(1), Direction::Down);
    assert_eq!(Direction::from_index(2), Direction::Left);
    assert_eq!(Direction::from_index(3), Direction::Right);
}

#[test]
fn grid_position_arithmetic() {
    let p = GridPosition::new(2, 3);
    assert_eq!(p.add(GridPosition::new(-1, 4)), GridPosition::new(1, 7));
    let mut q = p;
    q.add_assign(GridPosition::new(1, -3));
    assert_eq!(q, GridPosition::new(3, 0));
    assert_eq!(p.move_dir(Direction::Down), (2, 2));
    assert_eq!(p.move_dir(Direction::Right), (3, 3));
    q.set((4, 1));
    assert_eq!(q.get(), (4, 1));
    let grid = Grid::new(5, 5);
    assert_eq!(GridPosition::new(4, 4).neighbor(Direction::Up, grid), None);
    assert_eq!(
        GridPosition::new(4, 3).neighbor(Direction::Up, grid),
        Some(GridPosition::new(4, 4))
    );
    assert!(grid.in_bounds(GridPosition::new(0, 4)));
    assert!(!grid.in_bounds(GridPosition::new(5, 0)));
    assert!(!grid.in_bounds(GridPosition::new(0, -1)));
    let map = Grid::default_map();
    assert_eq!((map.width, map.height), (MAP_WIDTH, MAP_HEIGHT));
}

#[test]
fn ledger_stays_in_range_through_spends_and_restores() {
    let mut e = UnitEnergy::new(Energy(10));
    assert!(e.spend(Energy(4)));
    assert_eq!(e.current_energy, Energy(6));
    e.restore(Energy(100));
    assert_eq!(e.current_energy, Energy(10));
    assert!(e.spend(Energy(10)));
    assert_eq!(e.current_energy, Energy(0));
    assert!(!e.spend(Energy(1)));
    assert_eq!(e.current_energy, Energy(0));
    e.restore(Energy(3));
    assert_eq!(e.current_energy, Energy(3));

    let mut hp = UnitHitPoints::new(HitPoints(250));
    assert!(hp.spend(HitPoints(200)));
    hp.restore(HitPoints(255));
    assert_eq!(hp.current, HitPoints(250));
    hp.damage(255);
    assert_eq!(hp.current, HitPoints(0));

    let mut ap = UnitArmorPoints::new(ArmorPoints(9));
    assert!(!ap.spend(ArmorPoints(10)));
    assert!(ap.spend(ArmorPoints(9)));
    ap.restore(ArmorPoints(4));
    assert_eq!(ap.current, ArmorPoints(4));
    assert_eq!(ap.max, ArmorPoints(9));
}

#[test]
fn unaffordable_spend_changes_nothing() {
    let mut e = UnitEnergy::new(Energy(5));
    assert!(!e.spend(Energy(6)));
    assert_eq!(e.current_energy, Energy(5));
    assert_eq!(e.max_energy, Energy(5));
}

#[test]
fn move_off_the_grid_keeps_position_and_energy() {
    let mut world = world_of(vec![unit(1, UnitController::Player, 0, 0, 128, 4)]);
    world
        .request_action(0, ActionRequest::Move(MoveRequest::with_direction(Direction::Left)))
        .unwrap();
    assert_eq!(world.resolve_unit(0), Some(Err(ActionError::OutOfBounds)));
    assert_eq!(world.units[0].position, GridPosition::new(0, 0));
    assert_eq!(world.units[0].energy.current_energy, Energy(128));
    assert!(world.units[0].request.is_none());
}

#[test]
fn move_up_spends_movement_cost() {
    let mut world = world_of(vec![unit(1, UnitController::Player, 2, 2, 10, 4)]);
    world
        .request_action(0, ActionRequest::Move(MoveRequest::with_direction(Direction::Up)))
        .unwrap();
    world.resolve_requests();
    assert_eq!(world.units[0].position, GridPosition::new(2, 3));
    assert_eq!(world.units[0].energy.current_energy, Energy(6));
    assert!(world.units[0].request.is_none());
}

#[test]
fn move_without_energy_keeps_position_and_clears_request() {
    let mut world = world_of(vec![unit(1, UnitController::Player, 2, 2, 2, 4)]);
    world
        .request_action(0, ActionRequest::Move(MoveRequest::with_direction(Direction::Right)))
        .unwrap();
    assert_eq!(world.resolve_unit(0), Some(Err(ActionError::InsufficientEnergy)));
    assert_eq!(world.units[0].position, GridPosition::new(2, 2));
    assert_eq!(world.units[0].energy.current_energy, Energy(2));
    assert!(world.units[0].request.is_none());
}

#[test]
fn try_move_unit_on_its_own() {
    let grid = Grid::new(5, 5);
    let mut pos = GridPosition::new(4, 0);
    let mut energy = UnitEnergy::new(Energy(9));
    let cost = UnitMove::new(Energy(3));
    assert_eq!(
        try_move_unit(&mut pos, &cost, &mut energy, Direction::Down, grid),
        Err(ActionError::OutOfBounds)
    );
    assert_eq!(
        try_move_unit(&mut pos, &cost, &mut energy, Direction::Left, grid),
        Ok(())
    );
    assert_eq!(pos, GridPosition::new(3, 0));
    assert_eq!(energy.current_energy, Energy(6));
}

#[test]
fn eleventh_shot_is_out_of_ammo() {
    let mut w = Weapon::new(WeaponStats::default());
    assert_eq!(w.current_ammo, Ammo(10));
    for _ in 0..10 {
        assert_eq!(w.fire(), Ok(()));
    }
    assert_eq!(w.fire(), Err(FireError::OutOfAmmo));
    assert_eq!(w.current_ammo, Ammo(0));
}

#[test]
fn default_weapon_stats() {
    let s = WeaponStats::default();
    assert_eq!(s.armor_piercing, 0);
    assert_eq!(s.accuracy, 64);
    assert_eq!(s.damage, 4);
    assert_eq!(s.agility_limit, 32);
    assert_eq!(s.speed_limit, Move(255));
    assert_eq!(s.max_ammo, Ammo(10));
    assert_eq!(s.energy_cost, Energy(32));
}

#[test]
fn attack_pierces_then_hits_armor() {
    // Primary weapon: damage 6, armor piercing 2, cost 3.
    let mut world = world_of(vec![
        unit(1, UnitController::Player, 1, 1, 10, 1),
        unit(2, UnitController::NPC, 2, 1, 10, 1),
    ]);
    world
        .request_action(
            0,
            ActionRequest::Attack(AttackRequest {
                direction: Direction::Right,
                weapon_choice: WeaponChoice::Primary,
            }),
        )
        .unwrap();
    assert_eq!(world.resolve_unit(0), Some(Ok(())));
    // 2 pierce, 4 against 5 armor: armor 1, hit points 20 - 2.
    assert_eq!(world.units[1].armor_points.current, ArmorPoints(1));
    assert_eq!(world.units[1].hit_points.current, HitPoints(18));
    assert_eq!(world.units[0].energy.current_energy, Energy(7));
    assert_eq!(world.units[0].primary_weapon.unwrap().current_ammo, Ammo(9));

    // Second shot: 2 pierce, 4 against 1 armor: armor 0, hit points 18 - 5.
    world
        .request_action(
            0,
            ActionRequest::Attack(AttackRequest {
                direction: Direction::Right,
                weapon_choice: WeaponChoice::Primary,
            }),
        )
        .unwrap();
    world.resolve_requests();
    assert_eq!(world.units[1].armor_points.current, ArmorPoints(0));
    assert_eq!(world.units[1].hit_points.current, HitPoints(13));
}

#[test]
fn attack_failures_change_nothing() {
    let attack = |dir, choice| ActionRequest::Attack(AttackRequest { direction: dir, weapon_choice: choice });
    let mut world = world_of(vec![
        unit(1, UnitController::Player, 1, 1, 10, 1),
        unit(2, UnitController::NPC, 2, 1, 10, 1),
        unit(1, UnitController::NPC, 1, 2, 10, 1),
        unit(2, UnitController::NPC, 0, 0, 0, 1),
    ]);
    let before = world.units.clone();
    world.request_action(0, attack(Direction::Left, WeaponChoice::Primary)).unwrap();
    assert_eq!(world.resolve_unit(0), Some(Err(ActionError::NoValidTarget)));
    world.request_action(0, attack(Direction::Up, WeaponChoice::Primary)).unwrap();
    assert_eq!(world.resolve_unit(0), Some(Err(ActionError::NoValidTarget)));
    world.request_action(0, attack(Direction::Right, WeaponChoice::Unarmed)).unwrap();
    assert_eq!(world.resolve_unit(0), Some(Err(ActionError::NoWeapon)));
    world.request_action(0, attack(Direction::Right, WeaponChoice::Tertiary)).unwrap();
    assert_eq!(world.resolve_unit(0), Some(Err(ActionError::OutOfAmmo)));
    world.request_action(3, attack(Direction::Down, WeaponChoice::Primary)).unwrap();
    assert_eq!(world.resolve_unit(3), Some(Err(ActionError::NoValidTarget)));
    for k in 0..4 {
        assert_eq!(world.units[k].hit_points, before[k].hit_points);
        assert_eq!(world.units[k].energy, before[k].energy);
        assert_eq!(world.units[k].primary_weapon, before[k].primary_weapon);
    }
    let mut poor = world_of(vec![
        unit(1, UnitController::Player, 1, 1, 2, 1),
        unit(2, UnitController::NPC, 2, 1, 10, 1),
    ]);
    poor.request_action(0, attack(Direction::Right, WeaponChoice::Primary)).unwrap();
    assert_eq!(poor.resolve_unit(0), Some(Err(ActionError::InsufficientEnergy)));
    assert_eq!(poor.units[0].energy.current_energy, Energy(2));
    assert_eq!(poor.units[0].primary_weapon.unwrap().current_ammo, Ammo(10));
}

#[test]
fn dodge_makes_the_next_attack_miss() {
    let mut world = world_of(vec![
        unit(1, UnitController::Player, 1, 1, 40, 1),
        unit(2, UnitController::NPC, 2, 1, 10, 1),
    ]);
    world.request_action(1, ActionRequest::Dodge).unwrap();
    assert_eq!(world.resolve_unit(1), Some(Ok(())));
    assert!(world.units[1].evading);
    assert_eq!(world.units[1].energy.current_energy, Energy(5));
    world
        .request_action(
            0,
            ActionRequest::Attack(AttackRequest {
                direction: Direction::Right,
                weapon_choice: WeaponChoice::Secondary,
            }),
        )
        .unwrap();
    assert_eq!(world.resolve_unit(0), Some(Ok(())));
    assert!(!world.units[1].evading);
    assert_eq!(world.units[1].hit_points.current, HitPoints(20));
    assert_eq!(world.units[1].armor_points.current, ArmorPoints(5));
    assert_eq!(world.units[0].secondary_weapon.unwrap().current_ammo, Ammo(9));
    assert_eq!(world.units[0].energy.current_energy, Energy(8));
    // A dodge the unit cannot pay for.
    world.request_action(1, ActionRequest::Dodge).unwrap();
    assert_eq!(world.resolve_unit(1), Some(Ok(())));
    world.request_action(1, ActionRequest::Dodge).unwrap();
    assert_eq!(world.resolve_unit(1), Some(Err(ActionError::InsufficientEnergy)));
    assert_eq!(world.units[1].energy.current_energy, Energy(0));
}

#[test]
fn heal_and_repair_restore_an_ally_up_to_its_maximum() {
    let mut world = world_of(vec![
        unit(1, UnitController::Player, 1, 1, 20, 1),
        unit(1, UnitController::NPC, 1, 0, 20, 1),
        unit(2, UnitController::NPC, 0, 1, 20, 1),
    ]);
    world.units[1].hit_points.damage(10);
    world.units[1].armor_points.spend(ArmorPoints(4));
    world
        .request_action(0, ActionRequest::Heal(HealRequest { direction: Direction::Down }))
        .unwrap();
    assert_eq!(world.resolve_unit(0), Some(Ok(())));
    assert_eq!(world.units[1].hit_points.current, HitPoints(17));
    assert_eq!(world.units[0].energy.current_energy, Energy(14));
    world
        .request_action(0, ActionRequest::Heal(HealRequest { direction: Direction::Down }))
        .unwrap();
    world.resolve_requests();
    assert_eq!(world.units[1].hit_points.current, HitPoints(20));
    world
        .request_action(0, ActionRequest::Repair(RepairRequest { direction: Direction::Down }))
        .unwrap();
    assert_eq!(world.resolve_unit(0), Some(Ok(())));
    assert_eq!(world.units[1].armor_points.current, ArmorPoints(4));
    assert_eq!(world.units[0].energy.current_energy, Energy(6));
    // An enemy is no target for healing.
    world
        .request_action(0, ActionRequest::Heal(HealRequest { direction: Direction::Left }))
        .unwrap();
    assert_eq!(world.resolve_unit(0), Some(Err(ActionError::NoValidTarget)));
    world
        .request_action(0, ActionRequest::Repair(RepairRequest { direction: Direction::Left }))
        .unwrap();
    assert_eq!(world.resolve_unit(0), Some(Err(ActionError::NoValidTarget)));
    // The last 6 energy pay for one more heal, then none is left.
    world
        .request_action(0, ActionRequest::Heal(HealRequest { direction: Direction::Down }))
        .unwrap();
    assert_eq!(world.resolve_unit(0), Some(Ok(())));
    assert_eq!(world.units[0].energy.current_energy, Energy(0));
    world
        .request_action(0, ActionRequest::Heal(HealRequest { direction: Direction::Down }))
        .unwrap();
    assert_eq!(world.resolve_unit(0), Some(Err(ActionError::InsufficientEnergy)));
    assert_eq!(world.units[0].energy.current_energy, Energy(0));
}

#[test]
fn second_request_in_a_tick_is_refused() {
    let mut world = world_of(vec![unit(1, UnitController::Player, 2, 2, 10, 1)]);
    assert_eq!(world.request_action(0, ActionRequest::Wait), Ok(()));
    assert_eq!(
        world.request_action(0, ActionRequest::Dodge),
        Err(ActionError::AlreadyRequested)
    );
    assert_eq!(world.units[0].request, Some(ActionRequest::Wait));
    assert_eq!(ActionRequest::Wait.kind(), ActionKind::Wait);
    assert_eq!(world.resolve_unit(0), Some(Ok(())));
    assert_eq!(world.resolve_unit(0), None);
    assert_eq!(world.units[0].energy.current_energy, Energy(10));
}

#[test]
fn resolution_leaves_every_unit_idle_and_on_the_grid() {
    let mut world = world_of(vec![
        unit(1, UnitController::Player, 4, 4, 10, 1),
        unit(2, UnitController::NPC, 0, 4, 10, 1),
        unit(2, UnitController::NPC, 3, 3, 0, 1),
        unit(1, UnitController::NPC, 0, 0, 10, 1),
    ]);
    world.request_action(0, ActionRequest::Move(MoveRequest::with_direction(Direction::Up))).unwrap();
    world.request_action(1, ActionRequest::Heal(HealRequest { direction: Direction::Down })).unwrap();
    world.request_action(2, ActionRequest::Dodge).unwrap();
    world.request_action(3, ActionRequest::Move(MoveRequest::with_direction(Direction::Right))).unwrap();
    world.resolve_requests();
    for u in world.units.iter() {
        assert!(u.request.is_none());
        assert!(world.grid.in_bounds(u.position));
    }
    assert_eq!(world.units[0].position, GridPosition::new(4, 4));
    assert_eq!(world.units[0].energy.current_energy, Energy(10));
    assert_eq!(world.units[3].position, GridPosition::new(1, 0));
    assert_eq!(world.units[3].energy.current_energy, Energy(9));
}

#[test]
fn move_phase_resolves_only_moves() {
    let mut world = world_of(vec![
        unit(1, UnitController::Player, 1, 1, 10, 1),
        unit(1, UnitController::Player, 3, 3, 10, 1),
    ]);
    world.request_action(0, ActionRequest::Move(MoveRequest::with_direction(Direction::Up))).unwrap();
    world.request_action(1, ActionRequest::Wait).unwrap();
    world.move_units();
    assert_eq!(world.units[0].position, GridPosition::new(1, 2));
    assert!(world.units[0].request.is_none());
    assert_eq!(world.units[1].request, Some(ActionRequest::Wait));
}

#[test]
fn add_unit_refuses_positions_off_the_grid() {
    let mut world = World::new(Grid::new(5, 5));
    assert_eq!(
        world.add_unit(unit(1, UnitController::NPC, 5, 0, 1, 1)),
        Err(ActionError::OutOfBounds)
    );
    assert_eq!(world.add_unit(unit(1, UnitController::NPC, 4, 0, 1, 1)), Ok(0));
    assert_eq!(world.add_unit(unit(1, UnitController::NPC, 3, 0, 1, 1)), Ok(1));
    assert_eq!(unit_at(&world.units, GridPosition::new(3, 0)), Some(1));
    assert_eq!(unit_at(&world.units, GridPosition::new(2, 0)), None);
}

#[test]
fn ai_orders_only_idle_npc_units() {
    let mut world = world_of(vec![
        unit(1, UnitController::Player, 1, 1, 10, 1),
        unit(2, UnitController::NPC, 2, 2, 10, 1),
        unit(2, UnitController::NPC, 3, 3, 10, 1),
    ]);
    world.request_action(2, ActionRequest::Wait).unwrap();
    order_random_movement(&mut world, Direction::Left);
    assert_eq!(world.units[0].request, None);
    assert_eq!(
        world.units[1].request,
        Some(ActionRequest::Move(MoveRequest::with_direction(Direction::Left)))
    );
    assert_eq!(world.units[2].request, Some(ActionRequest::Wait));
}

#[test]
fn random_direction_varies() {
    let mut seen = Vec::new();
    for _ in 0..200 {
        let d = random_direction();
        if !seen.contains(&d) {
            seen.push(d);
        }
    }
    assert!(seen.len() >= 2);
}

#[test]
fn tick_moves_npcs_and_leaves_no_request() {
    let mut world = world_of(vec![
        unit(1, UnitController::Player, 2, 2, 10, 1),
        unit(2, UnitController::NPC, 2, 2, 10, 1),
    ]);
    tick(&mut world);
    assert_eq!(world.units[0].position, GridPosition::new(2, 2));
    assert_eq!(world.units[0].energy.current_energy, Energy(10));
    let p = world.units[1].position;
    assert_eq!((p.x - 2).abs() + (p.y - 2).abs(), 1);
    assert_eq!(world.units[1].energy.current_energy, Energy(9));
    for u in world.units.iter() {
        assert!(u.request.is_none());
    }
}

#[test]
fn setup_places_the_player_unit() {
    let world = setup();
    assert_eq!(world.grid, Grid::default_map());
    assert_eq!(world.units.len(), 1);
    let u = &world.units[0];
    assert!(u.controller.is_player());
    assert!(!u.controller.is_npc());
    assert_eq!(u.faction, BelongsToFaction::new_by_id(1));
    assert_eq!(u.position, GridPosition::new(0, 0));
    assert_eq!(u.hit_points.current, HitPoints(100));
    assert_eq!(u.energy.current_energy, Energy(128));
    assert_eq!(u.movement.energy_cost, Energy(8));
    assert_eq!(u.primary_weapon.unwrap().current_ammo, Ammo(10));
}

#[test]
fn faction_and_controller_basics() {
    let f = Faction::new("Player", 1);
    assert_eq!(f.name, "Player");
    assert_eq!(BelongsToFaction::new(&f), BelongsToFaction(1));
    assert_eq!(UnitController::default(), UnitController::NPC);
    assert!(UnitController::NPC.is_npc());
}
