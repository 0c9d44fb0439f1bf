use vstd::prelude::*;

use crate::model::{Asteroid, Grid};

verus! {

/// Frames between spawns at the start of a session.
pub const START_SPAWN_RATE: u32 = 50;

/// The spawn rate never goes below this many frames.
pub const MIN_SPAWN_RATE: u32 = 10;

/// Every this many ticks the spawn rate tightens.
pub const RAMP_PERIOD: u32 = 500;

/// How much the spawn rate tightens each period.
pub const RAMP_STEP: u32 = 5;

/// The asteroids after tick `tick`: one more, at `cell`, when the tick is a
/// multiple of the spawn rate.
pub open spec fn spawned(asteroids: Seq<Asteroid>, tick: u32, rate: u32, cell: Asteroid) -> Seq<
    Asteroid,
> {
    if tick % rate == 0 {
        asteroids.push(cell)
    } else {
        asteroids
    }
}

/// The spawn rate after tick `tick`: on each multiple of the ramp period it
/// drops by a step, but not below the floor; a rate already at or under the
/// floor stays.
pub open spec fn ramped(tick: u32, rate: u32) -> u32 {
    if tick % RAMP_PERIOD == 0 && rate > MIN_SPAWN_RATE {
        if rate - RAMP_STEP >= MIN_SPAWN_RATE {
            (rate - RAMP_STEP) as u32
        } else {
            MIN_SPAWN_RATE
        }
    } else {
        rate
    }
}

/// Adds an asteroid at `cell` when `tick` is a multiple of `rate`. The cell is
/// not checked against what else lies there.
pub fn spawn_system(tick: u32, rate: u32, asteroids: &mut Vec<Asteroid>, cell: Asteroid)
    requires
        rate > 0,
    ensures
        final(asteroids)@ == spawned(old(asteroids)@, tick, rate, cell),
{
    if tick % rate == 0 {
        asteroids.push(cell);
    }
}

/// The spawn rate to use after tick `tick`. It never grows, and once at or
/// above the floor it never falls under it.
pub fn difficulty_system(tick: u32, rate: u32) -> (r: u32)
    ensures
        r == ramped(tick, rate),
        r <= rate,
        rate >= MIN_SPAWN_RATE ==> r >= MIN_SPAWN_RATE,
{
    if tick % RAMP_PERIOD == 0 && rate > MIN_SPAWN_RATE {
        if rate - RAMP_STEP >= MIN_SPAWN_RATE {
            rate - RAMP_STEP
        } else {
            MIN_SPAWN_RATE
        }
    } else {
        rate
    }
}

#[verifier::external_type_specification]
#[verifier::external_body]
pub struct ExThreadRng(rand::rngs::ThreadRng);

/// Relies on rand::thread_rng, which hands out the thread's generator.
pub assume_specification[ rand::thread_rng ]() -> rand::rngs::ThreadRng;

/// Relies on rand::Rng::gen_range: a value drawn from `0..n`. It panics only on
/// an empty range, which `n > 0` rules out.
#[verifier::external_body]
fn draw_below(rng: &mut rand::rngs::ThreadRng, n: u16) -> (r: u16)
    requires
        n > 0,
    ensures
        r < n,
{
    rand::Rng::gen_range(rng, 0..n)
}

/// A cell drawn at random from the whole field, where a new asteroid may
/// appear. What else lies there is not looked at.
pub fn random_cell(grid: &Grid) -> (c: Asteroid)
    requires
        grid.valid(),
    ensures
        grid.contains(c.x as int, c.y as int),
{
    let mut rng = rand::thread_rng();
    let x = draw_below(&mut rng, grid.w);
    let y = draw_below(&mut rng, grid.h);
    Asteroid { x, y }
}

} // verus!
