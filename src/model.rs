use vstd::prelude::*;

verus! {

/// Default width of the playing field, in cells.
pub const GRID_W: u16 = 32;

/// Default height of the playing field, in cells.
pub const GRID_H: u16 = 15;

/// Fuel is kept in tenths of a unit: a full tank of 100.0 is 1000.
pub const FUEL_MAX: u16 = 1000;

/// The kinds of resource that a node can hold.
#[derive(Debug, Clone, Copy, PartialEq, Eq, Structural, Hash)]
pub enum Resource {
    Iron,
    Crystal,
    Gold,
}

/// Upgrades a ship may carry. They are stored and have no effect on play.
#[derive(Debug, Clone, Copy, PartialEq, Eq, Structural)]
pub enum Upgrade {
    Laser,
    Shields,
    Thrusters,
}

/// How many units of each resource the ship holds, one counter per kind.
#[derive(Debug, Clone, Copy, PartialEq, Eq, Structural)]
pub struct Cargo {
    pub iron: u32,
    pub crystal: u32,
    pub gold: u32,
}

impl Cargo {
    /// The count held of one kind.
    pub open spec fn count(self, kind: Resource) -> int {
        match kind {
            Resource::Iron => self.iron as int,
            Resource::Crystal => self.crystal as int,
            Resource::Gold => self.gold as int,
        }
    }

    /// The count held over all kinds.
    pub open spec fn total(self) -> int {
        self.iron + self.crystal + self.gold
    }

    /// An empty hold: every counter at zero.
    pub fn empty() -> (c: Cargo)
        ensures
            forall|k: Resource| c.count(k) == 0,
            c.total() == 0,
    {
        Cargo { iron: 0, crystal: 0, gold: 0 }
    }

    /// The count held of one kind.
    pub fn get(&self, kind: Resource) -> (n: u32)
        ensures
            n == self.count(kind),
    {
        match kind {
            Resource::Iron => self.iron,
            Resource::Crystal => self.crystal,
            Resource::Gold => self.gold,
        }
    }

    /// The sum of all counters.
    pub fn sum(&self) -> (n: u32)
        requires
            self.total() <= u32::MAX,
        ensures
            n == self.total(),
    {
        self.iron + self.crystal + self.gold
    }

    /// Adds one unit of `kind`, leaving the other counters as they were.
    pub fn credit(&mut self, kind: Resource)
        requires
            old(self).count(kind) < u32::MAX,
        ensures
            final(self).count(kind) == old(self).count(kind) + 1,
            forall|k: Resource| k != kind ==> final(self).count(k) == old(self).count(k),
            final(self).total() == old(self).total() + 1,
    {
        match kind {
            Resource::Iron => self.iron = self.iron + 1,
            Resource::Crystal => self.crystal = self.crystal + 1,
            Resource::Gold => self.gold = self.gold + 1,
        }
    }
}

/// The player's ship: its cell, its fuel in tenths, its cargo and upgrades.
#[derive(Debug, Clone)]
pub struct Ship {
    pub fuel: u16,
    pub cargo: Cargo,
    pub upgrades: Vec<Upgrade>,
    pub x: u16,
    pub y: u16,
}

impl Ship {
    /// A ship at cell (10, 10) with a full tank, an empty hold and no upgrades.
    pub fn new() -> (s: Ship)
        ensures
            s.x == 10 && s.y == 10,
            s.fuel == FUEL_MAX,
            forall|k: Resource| s.cargo.count(k) == 0,
            s.cargo.total() == 0,
            s.upgrades@ == Seq::<Upgrade>::empty(),
    {
        Ship { fuel: FUEL_MAX, cargo: Cargo::empty(), upgrades: Vec::new(), x: 10, y: 10 }
    }
}

/// The bounds of the playing field: cells (x, y) with x < w and y < h.
#[derive(Debug, Clone, Copy, PartialEq, Eq, Structural)]
pub struct Grid {
    pub w: u16,
    pub h: u16,
}

impl Grid {
    /// A field holds at least one cell.
    pub open spec fn valid(self) -> bool {
        self.w >= 1 && self.h >= 1
    }

    /// Whether cell (x, y) lies on the field.
    pub open spec fn contains(self, x: int, y: int) -> bool {
        0 <= x < self.w && 0 <= y < self.h
    }

    /// The default field, `GRID_W` by `GRID_H`.
    pub fn standard() -> (g: Grid)
        ensures
            g.w == GRID_W && g.h == GRID_H,
            g.valid(),
    {
        Grid { w: GRID_W, h: GRID_H }
    }
}

/// A hazard occupying one cell. It never moves.
#[derive(Debug, Clone, Copy, PartialEq, Eq, Structural)]
pub struct Asteroid {
    pub x: u16,
    pub y: u16,
}

/// A resource lying on one cell until it is mined.
#[derive(Debug, Clone, Copy, PartialEq, Eq, Structural)]
pub struct ResourceNode {
    pub x: u16,
    pub y: u16,
    pub kind: Resource,
}

/// An axis-aligned box of cells.
#[derive(Debug, Clone, Copy, PartialEq, Eq, Structural)]
pub struct Rect {
    pub x: u16,
    pub y: u16,
    pub w: u16,
    pub h: u16,
}

} // verus!
