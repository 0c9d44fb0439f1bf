use vstd::prelude::*;

use crate::input::InputEvent;
use crate::model::{Asteroid, FUEL_MAX, GRID_H, GRID_W, Grid, Resource, ResourceNode, Ship};
use crate::spawner::{
    difficulty_system,
    ramped,
    spawn_system,
    spawned,
    MIN_SPAWN_RATE,
    START_SPAWN_RATE,
};
use crate::systems::{
    collision_system,
    decayed,
    hazard_at,
    mine_effect,
    mining_system,
    moved,
    physics_system,
};

verus! {

/// Points for each successful mining action.
pub const MINE_REWARD: u32 = 10;

/// How a frame ended.
#[derive(Debug, Clone, Copy, PartialEq, Eq)]
pub enum FrameOutcome {
    /// The game goes on; `mined` is the kind mined this frame, if any.
    Running { mined: Option<Resource> },
    /// The player quit. Nothing changed and no final score is announced.
    Quit,
    /// The ship hit an asteroid or ran out of fuel: the game is lost, and the
    /// final frame and score are to be shown.
    GameOver,
}

/// All the state of one game.
#[derive(Debug, Clone)]
pub struct Session {
    pub ship: Ship,
    pub asteroids: Vec<Asteroid>,
    pub resources: Vec<ResourceNode>,
    pub score: u32,
    pub tick: u32,
    pub spawn_rate: u32,
    pub grid: Grid,
}

impl Session {
    /// The state that every frame keeps: the ship on the field with fuel
    /// within a full tank, a spawn rate at or above the floor, and room in the
    /// counters for every node still to be mined.
    pub open spec fn wf(&self) -> bool {
        &&& self.grid.valid()
        &&& self.grid.contains(self.ship.x as int, self.ship.y as int)
        &&& self.ship.fuel <= FUEL_MAX
        &&& self.spawn_rate >= MIN_SPAWN_RATE
        &&& self.ship.cargo.total() + self.resources@.len() <= u32::MAX
        &&& self.score + MINE_REWARD * self.resources@.len() <= u32::MAX
    }

    /// A new game on the standard field: the ship at (10, 10) with a full
    /// tank, three asteroids, one node of each kind, and the starting spawn rate.
    pub fn new() -> (s: Session)
        ensures
            s.wf(),
            s.ship.x == 10 && s.ship.y == 10 && s.ship.fuel == FUEL_MAX,
            forall|k: Resource| s.ship.cargo.count(k) == 0,
            s.asteroids@ == seq![
                Asteroid { x: 5, y: 5 },
                Asteroid { x: 20, y: 8 },
                Asteroid { x: 15, y: 12 },
            ],
            s.resources@ == seq![
                ResourceNode { x: 8, y: 3, kind: Resource::Iron },
                ResourceNode { x: 25, y: 10, kind: Resource::Crystal },
                ResourceNode { x: 12, y: 7, kind: Resource::Gold },
            ],
            s.score == 0 && s.tick == 0,
            s.spawn_rate == START_SPAWN_RATE,
            s.grid.w == GRID_W && s.grid.h == GRID_H,
    {
        let asteroids = vec![
            Asteroid { x: 5, y: 5 },
            Asteroid { x: 20, y: 8 },
            Asteroid { x: 15, y: 12 },
        ];
        let resources = vec![
            ResourceNode { x: 8, y: 3, kind: Resource::Iron },
            ResourceNode { x: 25, y: 10, kind: Resource::Crystal },
            ResourceNode { x: 12, y: 7, kind: Resource::Gold },
        ];
        Session {
            ship: Ship::new(),
            asteroids,
            resources,
            score: 0,
            tick: 0,
            spawn_rate: START_SPAWN_RATE,
            grid: Grid::standard(),
        }
    }

    /// Runs one frame on `intent`. `spawn` is where an asteroid appears should
    /// this tick spawn one.
    ///
    /// `Quit` ends the game and changes nothing. Otherwise the ship moves and
    /// burns fuel, the tick advances, an asteroid may spawn and the spawn rate
    /// may tighten. If the ship then shares a cell with an asteroid or has no
    /// fuel left, the game is over; else the ship mines, and each kind mined
    /// scores the reward.
    pub fn frame(&mut self, intent: InputEvent, spawn: Asteroid) -> (r: FrameOutcome)
        requires
            old(self).wf(),
            old(self).tick < u32::MAX,
        ensures
            final(self).wf(),
            final(self).spawn_rate <= old(self).spawn_rate,
            intent == InputEvent::Quit ==> r == FrameOutcome::Quit && *final(self) == *old(self),
            intent != InputEvent::Quit ==> {
                let (nx, ny) = moved(intent, old(self).ship.x, old(self).ship.y, old(self).grid);
                let fuel = decayed(old(self).ship.fuel);
                let tick = (old(self).tick + 1) as u32;
                let asteroids = spawned(old(self).asteroids@, tick, old(self).spawn_rate, spawn);
                let lost = hazard_at(asteroids, nx, ny) || fuel == 0;
                &&& final(self).grid == old(self).grid
                &&& final(self).tick == tick
                &&& final(self).asteroids@ == asteroids
                &&& final(self).spawn_rate == ramped(tick, old(self).spawn_rate)
                &&& final(self).ship.x == nx && final(self).ship.y == ny
                &&& final(self).ship.upgrades@ == old(self).ship.upgrades@
                &&& lost ==> {
                    &&& r == FrameOutcome::GameOver
                    &&& final(self).ship.fuel == fuel
                    &&& final(self).ship.cargo == old(self).ship.cargo
                    &&& final(self).resources@ == old(self).resources@
                    &&& final(self).score == old(self).score
                }
                &&& !lost ==> {
                    &&& r is Running
                    &&& mine_effect(
                        intent,
                        nx,
                        ny,
                        fuel,
                        old(self).ship.cargo,
                        old(self).resources@,
                        final(self).ship.fuel,
                        final(self).ship.cargo,
                        final(self).resources@,
                        r->mined,
                    )
                    &&& final(self).score == old(self).score + if r->mined is Some {
                        MINE_REWARD as int
                    } else {
                        0
                    }
                }
            },
    {
        if intent == InputEvent::Quit {
            return FrameOutcome::Quit;
        }
        physics_system(&intent, &mut self.ship, &self.grid);
        self.tick = self.tick + 1;
        spawn_system(self.tick, self.spawn_rate, &mut self.asteroids, spawn);
        self.spawn_rate = difficulty_system(self.tick, self.spawn_rate);
        if collision_system(&self.ship, &self.asteroids) || self.ship.fuel == 0 {
            return FrameOutcome::GameOver;
        }
        let mined = mining_system(&intent, &mut self.ship, &mut self.resources);
        if mined.is_some() {
            self.score = self.score + MINE_REWARD;
        }
        FrameOutcome::Running { mined }
    }

}

} // verus!
