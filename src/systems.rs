use vstd::prelude::*;

use crate::input::InputEvent;
use crate::model::{Asteroid, Cargo, FUEL_MAX, Grid, Rect, Resource, ResourceNode, Ship};

verus! {

/// Fuel burnt each frame, in tenths.
pub const FUEL_DECAY: u16 = 5;

/// Fuel a crystal gives back, in tenths.
pub const CRYSTAL_REFUEL: u16 = 200;

/// The cell a ship at (x, y) reaches on `intent`: one step along one axis,
/// or no step where the edge of the field is in the way.
pub open spec fn moved(intent: InputEvent, x: u16, y: u16, grid: Grid) -> (u16, u16) {
    match intent {
        InputEvent::Up => if y > 0 { (x, (y - 1) as u16) } else { (x, y) },
        InputEvent::Down => if y + 1 < grid.h { (x, (y + 1) as u16) } else { (x, y) },
        InputEvent::Left => if x > 0 { ((x - 1) as u16, y) } else { (x, y) },
        InputEvent::Right => if x + 1 < grid.w { ((x + 1) as u16, y) } else { (x, y) },
        _ => (x, y),
    }
}

/// Fuel after one frame's burn, never below zero.
pub open spec fn decayed(fuel: u16) -> u16 {
    if fuel >= FUEL_DECAY { (fuel - FUEL_DECAY) as u16 } else { 0 }
}

/// Fuel after a crystal is taken on, never above a full tank.
pub open spec fn refueled(fuel: u16) -> u16 {
    if fuel + CRYSTAL_REFUEL <= FUEL_MAX { (fuel + CRYSTAL_REFUEL) as u16 } else { FUEL_MAX }
}

/// Moves the ship by one intent, within the field, then burns a frame's fuel.
pub fn physics_system(input: &InputEvent, ship: &mut Ship, grid: &Grid)
    ensures
        (final(ship).x, final(ship).y) == moved(*input, old(ship).x, old(ship).y, *grid),
        final(ship).fuel == decayed(old(ship).fuel),
        old(ship).fuel <= FUEL_MAX ==> final(ship).fuel <= FUEL_MAX,
        final(ship).cargo == old(ship).cargo,
        final(ship).upgrades@ == old(ship).upgrades@,
{
    match input {
        InputEvent::Up => {
            if ship.y > 0 {
                ship.y = ship.y - 1;
            }
        },
        InputEvent::Down => {
            if grid.h > 0 && ship.y < grid.h - 1 {
                ship.y = ship.y + 1;
            }
        },
        InputEvent::Left => {
            if ship.x > 0 {
                ship.x = ship.x - 1;
            }
        },
        InputEvent::Right => {
            if grid.w > 0 && ship.x < grid.w - 1 {
                ship.x = ship.x + 1;
            }
        },
        _ => {},
    }
    if ship.fuel >= FUEL_DECAY {
        ship.fuel = ship.fuel - FUEL_DECAY;
    } else {
        ship.fuel = 0;
    }
}

/// Whether some asteroid of `asteroids` lies on cell (x, y).
pub open spec fn hazard_at(asteroids: Seq<Asteroid>, x: u16, y: u16) -> bool {
    exists|i: int| 0 <= i < asteroids.len() && asteroids[i].x == x && asteroids[i].y == y
}

/// Whether the ship shares its cell with an asteroid.
pub fn collision_system(ship: &Ship, asteroids: &Vec<Asteroid>) -> (hit: bool)
    ensures
        hit == hazard_at(asteroids@, ship.x, ship.y),
{
    let mut i: usize = 0;
    while i < asteroids.len()
        invariant
            0 <= i <= asteroids@.len(),
            forall|j: int| 0 <= j < i ==> !(asteroids@[j].x == ship.x && asteroids@[j].y == ship.y),
        decreases asteroids@.len() - i,
    {
        if asteroids[i].x == ship.x && asteroids[i].y == ship.y {
            return true;
        }
        i = i + 1;
    }
    false
}

/// Whether two boxes share at least one cell.
pub open spec fn overlaps(a: Rect, b: Rect) -> bool {
    &&& a.x < b.x + b.w
    &&& a.x + a.w > b.x
    &&& a.y < b.y + b.h
    &&& a.y + a.h > b.y
}

/// Whether the box of the ship and the box of another entity overlap.
pub fn check_collision(ship: &Rect, entity: &Rect) -> (r: bool)
    ensures
        r == overlaps(*ship, *entity),
{
    (ship.x as u32) < (entity.x as u32) + (entity.w as u32)
        && (ship.x as u32) + (ship.w as u32) > (entity.x as u32)
        && (ship.y as u32) < (entity.y as u32) + (entity.h as u32)
        && (ship.y as u32) + (ship.h as u32) > (entity.y as u32)
}

/// Whether node `n` lies on cell (x, y).
pub open spec fn node_at(n: ResourceNode, x: u16, y: u16) -> bool {
    n.x == x && n.y == y
}

/// Whether no node of `nodes` lies on cell (x, y).
pub open spec fn no_node_at(nodes: Seq<ResourceNode>, x: u16, y: u16) -> bool {
    forall|j: int| 0 <= j < nodes.len() ==> !node_at(#[trigger] nodes[j], x, y)
}

/// Whether `i` is the first position of `nodes` whose node lies on cell (x, y).
pub open spec fn first_node_at(nodes: Seq<ResourceNode>, x: u16, y: u16, i: int) -> bool {
    &&& 0 <= i < nodes.len()
    &&& node_at(nodes[i], x, y)
    &&& forall|j: int| 0 <= j < i ==> !node_at(#[trigger] nodes[j], x, y)
}

/// What one mining action by a ship on cell (x, y) does: fuel, cargo and
/// nodes go from `fuel0`, `cargo0`, `nodes0` to `fuel1`, `cargo1`, `nodes1`,
/// and `r` is the kind mined. On `Mine`, the first node on the cell is taken,
/// its kind gains one in the cargo, and a crystal refuels; otherwise, or with
/// no node there, nothing changes and nothing is mined.
pub open spec fn mine_effect(
    intent: InputEvent,
    x: u16,
    y: u16,
    fuel0: u16,
    cargo0: Cargo,
    nodes0: Seq<ResourceNode>,
    fuel1: u16,
    cargo1: Cargo,
    nodes1: Seq<ResourceNode>,
    r: Option<Resource>,
) -> bool {
    &&& r is None <==> (intent != InputEvent::Mine || no_node_at(nodes0, x, y))
    &&& r is None ==> cargo1 == cargo0 && fuel1 == fuel0 && nodes1 == nodes0
    &&& r is Some ==> exists|i: int|
        {
            &&& first_node_at(nodes0, x, y, i)
            &&& r == Some(nodes0[i].kind)
            &&& nodes1 == nodes0.remove(i)
        }
    &&& forall|k: Resource|
        #[trigger] cargo1.count(k) == cargo0.count(k) + if r == Some(k) {
            1int
        } else {
            0int
        }
    &&& fuel1 == if r == Some(Resource::Crystal) {
        refueled(fuel0)
    } else {
        fuel0
    }
}

/// Mines the first node on the ship's cell when the intent is `Mine`: the node
/// leaves `resources`, the cargo gains one of its kind, and a crystal refuels.
/// Returns the kind mined, or `None` when nothing was.
pub fn mining_system(input: &InputEvent, ship: &mut Ship, resources: &mut Vec<ResourceNode>) -> (r:
    Option<Resource>)
    requires
        forall|i: int|
            *input == InputEvent::Mine && first_node_at(old(resources)@, old(ship).x, old(ship).y, i)
                ==> old(ship).cargo.count(#[trigger] old(resources)@[i].kind) < u32::MAX,
    ensures
        final(ship).x == old(ship).x && final(ship).y == old(ship).y,
        final(ship).upgrades@ == old(ship).upgrades@,
        final(ship).cargo.total() + final(resources)@.len() == old(ship).cargo.total() + old(
            resources,
        )@.len(),
        old(ship).fuel <= FUEL_MAX ==> final(ship).fuel <= FUEL_MAX,
        mine_effect(
            *input,
            old(ship).x,
            old(ship).y,
            old(ship).fuel,
            old(ship).cargo,
            old(resources)@,
            final(ship).fuel,
            final(ship).cargo,
            final(resources)@,
            r,
        ),
{
    if *input != InputEvent::Mine {
        return None;
    }
    let mut i: usize = 0;
    while i < resources.len()
        invariant
            0 <= i <= resources@.len(),
            resources@ == old(resources)@,
            *ship == *old(ship),
            *input == InputEvent::Mine,
            forall|k: int|
                first_node_at(resources@, ship.x, ship.y, k) ==> ship.cargo.count(
                    #[trigger] resources@[k].kind,
                ) < u32::MAX,
            forall|j: int| 0 <= j < i ==> !node_at(#[trigger] resources@[j], ship.x, ship.y),
        decreases resources@.len() - i,
    {
        if resources[i].x == ship.x && resources[i].y == ship.y {
            let ghost before = resources@;
            assert(first_node_at(before, ship.x, ship.y, i as int));
            let node = resources.remove(i);
            ship.cargo.credit(node.kind);
            if node.kind == Resource::Crystal {
                if ship.fuel <= FUEL_MAX - CRYSTAL_REFUEL {
                    ship.fuel = ship.fuel + CRYSTAL_REFUEL;
                } else {
                    ship.fuel = FUEL_MAX;
                }
            }
            return Some(node.kind);
        }
        i = i + 1;
    }
    None
}

} // verus!
