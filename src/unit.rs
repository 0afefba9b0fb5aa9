use vstd::prelude::*;
use crate::grid::{Direction, GridPosition};
use crate::ledger::{
    ArmorPoints, Energy, HitPoints, UnitArmorPoints, UnitEnergy, UnitHitPoints, VisionRange,
};
use crate::weapon::{Weapon, WeaponChoice, WeaponStats};

verus! {

/// A side of the conflict, known by name and by numeric id.
#[derive(Debug)]
pub struct Faction {
    pub name: String,
    pub id: i32,
}

/// A unit's reference to its faction, by id.
#[derive(Clone, Copy, Debug, PartialEq, Eq, Structural)]
pub struct BelongsToFaction(pub i32);

/// Who chooses a unit's actions: a player's input or the AI driver.
#[derive(Clone, Copy, Debug, PartialEq, Eq, Structural)]
pub enum UnitController {
    Player,
    NPC,
}

/// How much energy a unit regains over time.
#[derive(Clone, Copy, Debug, PartialEq, Eq, Structural)]
pub struct EnergyRegeneration {
    pub energy_regeneration: Energy,
}

/// What one step costs a unit.
#[derive(Clone, Copy, Debug, PartialEq, Eq, Structural)]
pub struct UnitMove {
    pub energy_cost: Energy,
}

/// How far a unit sees.
#[derive(Clone, Copy, Debug, PartialEq, Eq, Structural)]
pub struct UnitVision {
    pub vision_range: VisionRange,
}

/// What dodging costs a unit.
#[derive(Clone, Copy, Debug, PartialEq, Eq, Structural)]
pub struct CanDodge {
    pub energy_cost: Energy,
}

/// What healing an ally costs a unit, and how many hit points it restores.
#[derive(Clone, Copy, Debug, PartialEq, Eq, Structural)]
pub struct CanHeal {
    pub energy_cost: Energy,
    pub amount: HitPoints,
}

/// What repairing an ally costs a unit, and how many armor points it restores.
#[derive(Clone, Copy, Debug, PartialEq, Eq, Structural)]
pub struct CanRepair {
    pub energy_cost: Energy,
    pub amount: ArmorPoints,
}

/// A request to step one cell.
#[derive(Clone, Copy, Debug, PartialEq, Eq, Structural)]
pub struct MoveRequest {
    pub direction: Direction,
}

/// A request to fire a weapon at the neighbouring cell.
#[derive(Clone, Copy, Debug, PartialEq, Eq, Structural)]
pub struct AttackRequest {
    pub direction: Direction,
    pub weapon_choice: WeaponChoice,
}

/// A request to restore the hit points of the ally in the neighbouring cell.
#[derive(Clone, Copy, Debug, PartialEq, Eq, Structural)]
pub struct HealRequest {
    pub direction: Direction,
}

/// A request to restore the armor points of the ally in the neighbouring cell.
#[derive(Clone, Copy, Debug, PartialEq, Eq, Structural)]
pub struct RepairRequest {
    pub direction: Direction,
}

/// The one action a unit asks to take in the current tick.
#[derive(Clone, Copy, Debug, PartialEq, Eq, Structural)]
pub enum ActionRequest {
    Move(MoveRequest),
    Attack(AttackRequest),
    Dodge,
    Heal(HealRequest),
    Repair(RepairRequest),
    Wait,
}

/// The kinds of action a unit can request, in the order in which a tick
/// resolves them.
#[derive(Clone, Copy, Debug, PartialEq, Eq, Structural)]
pub enum ActionKind {
    Move,
    Attack,
    Dodge,
    Heal,
    Repair,
    Wait,
}

/// The kind of a request.
pub open spec fn kind_of(r: ActionRequest) -> ActionKind {
    match r {
        ActionRequest::Move(_) => ActionKind::Move,
        ActionRequest::Attack(_) => ActionKind::Attack,
        ActionRequest::Dodge => ActionKind::Dodge,
        ActionRequest::Heal(_) => ActionKind::Heal,
        ActionRequest::Repair(_) => ActionKind::Repair,
        ActionRequest::Wait => ActionKind::Wait,
    }
}

impl ActionRequest {
    pub fn kind(&self) -> (r: ActionKind)
        ensures
            r == kind_of(*self),
    {
        match self {
            ActionRequest::Move(_) => ActionKind::Move,
            ActionRequest::Attack(_) => ActionKind::Attack,
            ActionRequest::Dodge => ActionKind::Dodge,
            ActionRequest::Heal(_) => ActionKind::Heal,
            ActionRequest::Repair(_) => ActionKind::Repair,
            ActionRequest::Wait => ActionKind::Wait,
        }
    }
}

/// Why a request could not be carried out, or not accepted.
#[derive(Clone, Copy, Debug, PartialEq, Eq, Structural)]
pub enum ActionError {
    /// The unit's energy does not cover the action's cost.
    InsufficientEnergy,
    /// The chosen weapon has no round left.
    OutOfAmmo,
    /// The move would leave the grid.
    OutOfBounds,
    /// No eligible unit stands in the requested direction.
    NoValidTarget,
    /// The chosen weapon slot holds no weapon.
    NoWeapon,
    /// The unit already has a request for this tick.
    AlreadyRequested,
}

/// A unit on the board.
#[derive(Clone, Copy, Debug)]
pub struct Unit {
    pub faction: BelongsToFaction,
    pub controller: UnitController,
    pub position: GridPosition,
    pub hit_points: UnitHitPoints,
    pub armor_points: UnitArmorPoints,
    pub primary_weapon: Option<Weapon>,
    pub secondary_weapon: Option<Weapon>,
    pub tertiary_weapon: Option<Weapon>,
    pub energy: UnitEnergy,
    pub energy_regeneration: EnergyRegeneration,
    pub movement: UnitMove,
    pub vision: UnitVision,
    pub dodge: CanDodge,
    pub heal: CanHeal,
    pub repair: CanRepair,
    /// Set by a dodge; the next attack on the unit misses and clears it.
    pub evading: bool,
    /// The pending request of this tick, if any.
    pub request: Option<ActionRequest>,
}

impl Faction {
    pub fn new(name: &str, id: i32) -> (r: Faction)
        ensures
            r.name@ == name@,
            r.id == id,
    {
        proof {
            broadcast use vstd::string::to_string_from_display_ensures_for_str;
        }
        Faction { name: name.to_string(), id }
    }
}

impl BelongsToFaction {
    pub fn new_by_id(id: i32) -> (r: BelongsToFaction)
        ensures
            r.0 == id,
    {
        BelongsToFaction(id)
    }

    pub fn new(faction: &Faction) -> (r: BelongsToFaction)
        ensures
            r.0 == faction.id,
    {
        BelongsToFaction(faction.id)
    }
}

impl Default for UnitController {
    /// Units are AI-controlled unless said otherwise.
    fn default() -> (r: UnitController)
        ensures
            r == UnitController::NPC,
    {
        UnitController::NPC
    }
}

impl UnitController {
    pub fn is_player(&self) -> (r: bool)
        ensures
            r == (*self == UnitController::Player),
    {
        match self {
            UnitController::Player => true,
            _ => false,
        }
    }

    pub fn is_npc(&self) -> (r: bool)
        ensures
            r == (*self == UnitController::NPC),
    {
        match self {
            UnitController::NPC => true,
            _ => false,
        }
    }
}

impl EnergyRegeneration {
    pub fn new(energy_regeneration: Energy) -> (r: EnergyRegeneration)
        ensures
            r.energy_regeneration == energy_regeneration,
    {
        EnergyRegeneration { energy_regeneration }
    }
}

impl UnitMove {
    pub fn new(energy: Energy) -> (r: UnitMove)
        ensures
            r.energy_cost == energy,
    {
        UnitMove { energy_cost: energy }
    }
}

impl UnitVision {
    pub fn new(vision_range: VisionRange) -> (r: UnitVision)
        ensures
            r.vision_range == vision_range,
    {
        UnitVision { vision_range }
    }
}

impl CanDodge {
    pub fn new(energy: Energy) -> (r: CanDodge)
        ensures
            r.energy_cost == energy,
    {
        CanDodge { energy_cost: energy }
    }
}

impl CanHeal {
    pub fn new(energy: Energy, amount: HitPoints) -> (r: CanHeal)
        ensures
            r.energy_cost == energy,
            r.amount == amount,
    {
        CanHeal { energy_cost: energy, amount }
    }
}

impl CanRepair {
    pub fn new(energy: Energy, amount: ArmorPoints) -> (r: CanRepair)
        ensures
            r.energy_cost == energy,
            r.amount == amount,
    {
        CanRepair { energy_cost: energy, amount }
    }
}

impl MoveRequest {
    pub fn with_direction(direction: Direction) -> (r: MoveRequest)
        ensures
            r.direction == direction,
    {
        MoveRequest { direction }
    }
}

/// A weapon slot that is empty or holds a well-formed weapon.
pub open spec fn slot_wf(w: Option<Weapon>) -> bool {
    match w {
        Some(w) => w.wf(),
        None => true,
    }
}

impl Unit {
    /// The ledgers hold their invariants, the weapons theirs, and every cost
    /// and rate is a non-negative amount of energy.
    pub open spec fn wf(self) -> bool {
        &&& self.hit_points.wf()
        &&& self.armor_points.wf()
        &&& self.energy.wf()
        &&& slot_wf(self.primary_weapon)
        &&& slot_wf(self.secondary_weapon)
        &&& slot_wf(self.tertiary_weapon)
        &&& self.energy_regeneration.energy_regeneration.0 >= 0
        &&& self.movement.energy_cost.0 >= 0
        &&& self.dodge.energy_cost.0 >= 0
        &&& self.heal.energy_cost.0 >= 0
        &&& self.repair.energy_cost.0 >= 0
    }

    /// The weapon in the slot that `choice` names.
    pub open spec fn weapon_in(self, choice: WeaponChoice) -> Option<Weapon> {
        match choice {
            WeaponChoice::Unarmed => None,
            WeaponChoice::Primary => self.primary_weapon,
            WeaponChoice::Secondary => self.secondary_weapon,
            WeaponChoice::Tertiary => self.tertiary_weapon,
        }
    }

    /// This unit with `w` placed in the slot that `choice` names.
    pub open spec fn with_weapon(self, choice: WeaponChoice, w: Weapon) -> Unit {
        match choice {
            WeaponChoice::Unarmed => self,
            WeaponChoice::Primary => Unit { primary_weapon: Some(w), ..self },
            WeaponChoice::Secondary => Unit { secondary_weapon: Some(w), ..self },
            WeaponChoice::Tertiary => Unit { tertiary_weapon: Some(w), ..self },
        }
    }

    /// This unit with `amount` less energy.
    pub open spec fn with_energy_spent(self, amount: Energy) -> Unit {
        Unit {
            energy: UnitEnergy {
                current_energy: Energy((self.energy.current_energy.0 - amount.0) as i32),
                ..self.energy
            },
            ..self
        }
    }

    /// The weapon in the slot that `choice` names, if any.
    pub fn weapon(&self, choice: WeaponChoice) -> (r: Option<Weapon>)
        ensures
            r == self.weapon_in(choice),
    {
        match choice {
            WeaponChoice::Unarmed => None,
            WeaponChoice::Primary => self.primary_weapon,
            WeaponChoice::Secondary => self.secondary_weapon,
            WeaponChoice::Tertiary => self.tertiary_weapon,
        }
    }

    /// Puts `w` in the slot that `choice` names; `Unarmed` changes nothing.
    pub fn set_weapon(&mut self, choice: WeaponChoice, w: Weapon)
        ensures
            *final(self) == old(self).with_weapon(choice, w),
    {
        match choice {
            WeaponChoice::Unarmed => {},
            WeaponChoice::Primary => {
                self.primary_weapon = Some(w);
            },
            WeaponChoice::Secondary => {
                self.secondary_weapon = Some(w);
            },
            WeaponChoice::Tertiary => {
                self.tertiary_weapon = Some(w);
            },
        }
    }

    /// Whether the unit has no pending request.
    pub fn is_idle(&self) -> (r: bool)
        ensures
            r == (self.request is None),
    {
        self.request.is_none()
    }

    /// Attaches `request` for this tick. A unit may hold one request at a
    /// time: while one is pending, the new one is refused and nothing changes.
    pub fn assign_request(&mut self, request: ActionRequest) -> (r: Result<(), ActionError>)
        ensures
            old(self).request is None ==> r == Ok::<(), ActionError>(()) && *final(self) == (Unit {
                request: Some(request),
                ..*old(self)
            }),
            old(self).request is Some ==> r == Err::<(), ActionError>(
                ActionError::AlreadyRequested,
            ) && *final(self) == *old(self),
    {
        if self.request.is_some() {
            Err(ActionError::AlreadyRequested)
        } else {
            self.request = Some(request);
            Ok(())
        }
    }
}

/// Builds a unit at full hit points, armor, energy and ammunition, with a
/// weapon of each given kind in its three slots and no pending request.
pub fn spawn_unit(
    faction: &Faction,
    unit_controller: UnitController,
    grid_position: GridPosition,
    unit_hit_points: HitPoints,
    unit_armor_points: ArmorPoints,
    primary_weapon: WeaponStats,
    secondary_weapon: WeaponStats,
    tertiary_weapon: WeaponStats,
    unit_energy: Energy,
    energy_regeneration: Energy,
    movement_cost: Energy,
    vision_range: VisionRange,
    dodge_cost: Energy,
    can_heal_amount: HitPoints,
    heal_cost: Energy,
    can_repair_amount: ArmorPoints,
    repair_cost: Energy,
) -> (r: Unit)
    requires
        primary_weapon.wf(),
        secondary_weapon.wf(),
        tertiary_weapon.wf(),
        unit_energy.0 >= 0,
        energy_regeneration.0 >= 0,
        movement_cost.0 >= 0,
        dodge_cost.0 >= 0,
        heal_cost.0 >= 0,
        repair_cost.0 >= 0,
    ensures
        r.wf(),
        r == (Unit {
            faction: BelongsToFaction(faction.id),
            controller: unit_controller,
            position: grid_position,
            hit_points: UnitHitPoints { current: unit_hit_points, max: unit_hit_points },
            armor_points: UnitArmorPoints { current: unit_armor_points, max: unit_armor_points },
            primary_weapon: Some(Weapon { stats: primary_weapon, current_ammo: primary_weapon.max_ammo }),
            secondary_weapon: Some(
                Weapon { stats: secondary_weapon, current_ammo: secondary_weapon.max_ammo },
            ),
            tertiary_weapon: Some(
                Weapon { stats: tertiary_weapon, current_ammo: tertiary_weapon.max_ammo },
            ),
            energy: UnitEnergy { current_energy: unit_energy, max_energy: unit_energy },
            energy_regeneration: EnergyRegeneration { energy_regeneration },
            movement: UnitMove { energy_cost: movement_cost },
            vision: UnitVision { vision_range },
            dodge: CanDodge { energy_cost: dodge_cost },
            heal: CanHeal { energy_cost: heal_cost, amount: can_heal_amount },
            repair: CanRepair { energy_cost: repair_cost, amount: can_repair_amount },
            evading: false,
            request: None,
        }),
{
    Unit {
        faction: BelongsToFaction::new(faction),
        controller: unit_controller,
        position: grid_position,
        hit_points: UnitHitPoints::new(unit_hit_points),
        armor_points: UnitArmorPoints::new(unit_armor_points),
        primary_weapon: Some(Weapon::new(primary_weapon)),
        secondary_weapon: Some(Weapon::new(secondary_weapon)),
        tertiary_weapon: Some(Weapon::new(tertiary_weapon)),
        energy: UnitEnergy::new(unit_energy),
        energy_regeneration: EnergyRegeneration::new(energy_regeneration),
        movement: UnitMove::new(movement_cost),
        vision: UnitVision::new(vision_range),
        dodge: CanDodge::new(dodge_cost),
        heal: CanHeal::new(heal_cost, can_heal_amount),
        repair: CanRepair::new(repair_cost, can_repair_amount),
        evading: false,
        request: None,
    }
}

} // verus!
