use vstd::prelude::*;

use crate::input::InputEvent;
use crate::model::{Cargo, Grid, Resource, ResourceNode};
use crate::spawner::{ramped, MIN_SPAWN_RATE, RAMP_PERIOD, RAMP_STEP, START_SPAWN_RATE};
use crate::systems::{first_node_at, mine_effect, moved, no_node_at, node_at};

verus! {

/// The cell a ship reaches from (x, y) by taking `intents` in order.
pub open spec fn after_moves(intents: Seq<InputEvent>, x: u16, y: u16, grid: Grid) -> (u16, u16)
    decreases intents.len(),
{
    if intents.len() == 0 {
        (x, y)
    } else {
        let (nx, ny) = moved(intents[0], x, y, grid);
        after_moves(intents.drop_first(), nx, ny, grid)
    }
}

/// A single step from a cell on the field lands on the field.
pub proof fn lemma_move_stays_on_field(intent: InputEvent, x: u16, y: u16, grid: Grid)
    requires
        grid.contains(x as int, y as int),
    ensures
        grid.contains(moved(intent, x, y, grid).0 as int, moved(intent, x, y, grid).1 as int),
{
}

/// Whatever sequence of intents is taken from a cell on the field, the ship
/// stays on the field.
pub proof fn lemma_moves_stay_on_field(intents: Seq<InputEvent>, x: u16, y: u16, grid: Grid)
    requires
        grid.contains(x as int, y as int),
    ensures
        grid.contains(
            after_moves(intents, x, y, grid).0 as int,
            after_moves(intents, x, y, grid).1 as int,
        ),
    decreases intents.len(),
{
    if intents.len() > 0 {
        lemma_move_stays_on_field(intents[0], x, y, grid);
        let (nx, ny) = moved(intents[0], x, y, grid);
        lemma_moves_stay_on_field(intents.drop_first(), nx, ny, grid);
    }
}

/// Mining twice on a cell that holds exactly one node: the first action takes
/// the node and adds exactly one unit to the cargo; the second finds nothing
/// and changes nothing.
pub proof fn lemma_mining_twice(
    x: u16,
    y: u16,
    fuel0: u16,
    cargo0: Cargo,
    nodes0: Seq<ResourceNode>,
    fuel1: u16,
    cargo1: Cargo,
    nodes1: Seq<ResourceNode>,
    r1: Option<Resource>,
    fuel2: u16,
    cargo2: Cargo,
    nodes2: Seq<ResourceNode>,
    r2: Option<Resource>,
)
    requires
        !no_node_at(nodes0, x, y),
        forall|i: int, j: int|
            0 <= i < nodes0.len() && 0 <= j < nodes0.len() && node_at(nodes0[i], x, y) && node_at(
                nodes0[j],
                x,
                y,
            ) ==> i == j,
        mine_effect(InputEvent::Mine, x, y, fuel0, cargo0, nodes0, fuel1, cargo1, nodes1, r1),
        mine_effect(InputEvent::Mine, x, y, fuel1, cargo1, nodes1, fuel2, cargo2, nodes2, r2),
    ensures
        r1 is Some,
        cargo1.total() == cargo0.total() + 1,
        r2 is None,
        cargo2 == cargo1 && fuel2 == fuel1 && nodes2 == nodes1,
{
    let i = choose|i: int|
        {
            &&& first_node_at(nodes0, x, y, i)
            &&& r1 == Some(nodes0[i].kind)
            &&& nodes1 == nodes0.remove(i)
        };
    assert forall|j: int| 0 <= j < nodes1.len() implies !node_at(#[trigger] nodes1[j], x, y) by {
        if j < i {
            assert(nodes1[j] == nodes0[j]);
        } else {
            assert(nodes1[j] == nodes0[j + 1]);
        }
    }
    let k = r1->0;
    assert(cargo1.count(k) == cargo0.count(k) + 1);
    assert(cargo1.count(Resource::Iron) == cargo0.count(Resource::Iron) + if k == Resource::Iron {
        1int
    } else {
        0int
    });
    assert(cargo1.count(Resource::Crystal) == cargo0.count(Resource::Crystal) + if k
        == Resource::Crystal {
        1int
    } else {
        0int
    });
    assert(cargo1.count(Resource::Gold) == cargo0.count(Resource::Gold) + if k == Resource::Gold {
        1int
    } else {
        0int
    });
}

/// The spawn rate once ticks 1 to `t` have each gone through the ramp,
/// starting from the opening rate.
pub open spec fn rate_after(t: nat) -> u32
    decreases t,
{
    if t == 0 {
        START_SPAWN_RATE
    } else {
        ramped(t as u32, rate_after((t - 1) as nat))
    }
}

/// The opening rate less one step per full ramp period, but never under the
/// floor.
pub open spec fn scheduled_rate(t: nat) -> int {
    let r = START_SPAWN_RATE - RAMP_STEP * (t / RAMP_PERIOD as nat);
    if r >= MIN_SPAWN_RATE {
        r
    } else {
        MIN_SPAWN_RATE as int
    }
}

/// Over a session the spawn rate follows the schedule: it drops by a step at
/// each multiple of the ramp period until it reaches the floor, and then stays
/// there. So it never rises and never goes under the floor.
pub proof fn lemma_spawn_rate_schedule(t: nat)
    requires
        t <= u32::MAX,
    ensures
        rate_after(t) == scheduled_rate(t),
        MIN_SPAWN_RATE <= rate_after(t) <= START_SPAWN_RATE,
        rate_after(t) % RAMP_STEP == 0,
        t > 0 ==> rate_after(t) <= rate_after((t - 1) as nat),
    decreases t,
{
    if t > 0 {
        let p = (t - 1) as nat;
        lemma_spawn_rate_schedule(p);
        if t % 500 == 0 {
            assert(t / 500 == p / 500 + 1);
        } else {
            assert(t / 500 == p / 500);
        }
    }
    let q = t / 500;
    assert((50 - 5 * q) % 5 == 0) by (nonlinear_arith);
}

/// A frame keeps a session begun at the opening rate on the schedule. If the
/// rate before the frame that takes the tick from `t` to `t + 1` is the
/// scheduled rate for `t`, the rate the frame leaves, `ramped(t + 1, rate)`,
/// is the scheduled rate for `t + 1`: no higher than before, between the floor
/// and the opening rate, and a whole number of steps.
pub proof fn lemma_frame_follows_schedule(t: nat, rate: u32)
    requires
        t + 1 <= u32::MAX,
        rate == rate_after(t),
    ensures
        ramped((t + 1) as u32, rate) == rate_after(t + 1),
        ramped((t + 1) as u32, rate) == scheduled_rate(t + 1),
        ramped((t + 1) as u32, rate) <= rate,
        MIN_SPAWN_RATE <= ramped((t + 1) as u32, rate) <= START_SPAWN_RATE,
        ramped((t + 1) as u32, rate) % RAMP_STEP == 0,
{
    lemma_spawn_rate_schedule(t + 1);
    assert((t + 1 - 1) as nat == t);
}

} // verus!
