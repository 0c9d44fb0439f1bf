use vstd::prelude::*;

use crate::model::{Asteroid, Grid, Resource, ResourceNode, Ship};

verus! {

/// Segments of the fuel gauge.
pub const GAUGE_SEGMENTS: u16 = 10;

/// One frame of the game, ready to be drawn: the field's rows of glyphs and
/// the figures of the footer.
#[derive(Debug, Clone)]
pub struct Frame {
    pub rows: Vec<Vec<char>>,
    pub fuel_bars: u16,
    pub cargo: u32,
    pub score: u32,
}

/// The glyph of a resource node.
pub open spec fn resource_glyph(kind: Resource) -> char {
    match kind {
        Resource::Iron => '*',
        Resource::Crystal => '♦',
        Resource::Gold => '$',
    }
}

/// The glyph of the ship, `>A<`, at offset `k` from its cell.
pub open spec fn ship_glyph(k: int) -> char {
    if k == 0 {
        '>'
    } else if k == 1 {
        'A'
    } else {
        '<'
    }
}

/// Whether some asteroid lies on cell (x, y).
pub open spec fn hazard_on(asteroids: Seq<Asteroid>, x: int, y: int) -> bool {
    exists|i: int| 0 <= i < asteroids.len() && asteroids[i].x == x && asteroids[i].y == y
}

/// Whether `i` is the first position of `nodes` whose node lies on cell (x, y).
pub open spec fn first_on(nodes: Seq<ResourceNode>, x: int, y: int, i: int) -> bool {
    &&& 0 <= i < nodes.len()
    &&& nodes[i].x == x && nodes[i].y == y
    &&& forall|j: int| 0 <= j < i ==> !(#[trigger] nodes[j].x == x && nodes[j].y == y)
}

/// The kind of the first node on cell (x, y), if any.
pub open spec fn resource_on(nodes: Seq<ResourceNode>, x: int, y: int) -> Option<Resource> {
    if exists|i: int| first_on(nodes, x, y, i) {
        Some(nodes[choose|i: int| first_on(nodes, x, y, i)].kind)
    } else {
        None
    }
}

/// What cell (x, y) of a field `w` cells wide shows, by precedence: the
/// ship's three-wide glyph, then an asteroid, then a resource, else a blank.
/// The glyph covers the cells to the right of the ship that lie within the
/// field, whatever lies there, and is cut at the field's edge.
pub open spec fn cell_glyph(
    w: int,
    sx: u16,
    sy: u16,
    asteroids: Seq<Asteroid>,
    nodes: Seq<ResourceNode>,
    x: int,
    y: int,
) -> char {
    if y == sy && sx <= x <= sx + 2 && x < w {
        ship_glyph(x - sx)
    } else if hazard_on(asteroids, x, y) {
        'O'
    } else {
        match resource_on(nodes, x, y) {
            Some(kind) => resource_glyph(kind),
            None => ' ',
        }
    }
}

/// Filled segments of the fuel gauge: the fuel in whole units over ten,
/// rounded half up.
pub open spec fn gauge_of(fuel: u16) -> int {
    (fuel + 50) / 100
}

fn hazard_in_cell(asteroids: &Vec<Asteroid>, x: usize, y: usize) -> (r: bool)
    ensures
        r == hazard_on(asteroids@, x as int, y as int),
{
    let mut i: usize = 0;
    while i < asteroids.len()
        invariant
            0 <= i <= asteroids@.len(),
            forall|j: int|
                0 <= j < i ==> !(asteroids@[j].x == x as int && asteroids@[j].y == y as int),
        decreases asteroids@.len() - i,
    {
        if asteroids[i].x as usize == x && asteroids[i].y as usize == y {
            return true;
        }
        i = i + 1;
    }
    false
}

fn resource_in_cell(nodes: &Vec<ResourceNode>, x: usize, y: usize) -> (r: Option<Resource>)
    ensures
        r == resource_on(nodes@, x as int, y as int),
{
    let mut i: usize = 0;
    while i < nodes.len()
        invariant
            0 <= i <= nodes@.len(),
            forall|j: int|
                0 <= j < i ==> !(#[trigger] nodes@[j].x == x as int && nodes@[j].y == y as int),
        decreases nodes@.len() - i,
    {
        if nodes[i].x as usize == x && nodes[i].y as usize == y {
            assert(first_on(nodes@, x as int, y as int, i as int));
            let ghost k = choose|k: int| first_on(nodes@, x as int, y as int, k);
            assert(k == i);
            return Some(nodes[i].kind);
        }
        i = i + 1;
    }
    None
}

fn cell_char(
    w: usize,
    ship: &Ship,
    asteroids: &Vec<Asteroid>,
    nodes: &Vec<ResourceNode>,
    x: usize,
    y: usize,
) -> (c: char)
    ensures
        c == cell_glyph(w as int, ship.x, ship.y, asteroids@, nodes@, x as int, y as int),
{
    let sx = ship.x as usize;
    if y == ship.y as usize && sx <= x && x <= sx + 2 && x < w {
        if x == sx {
            '>'
        } else if x == sx + 1 {
            'A'
        } else {
            '<'
        }
    } else if hazard_in_cell(asteroids, x, y) {
        'O'
    } else {
        match resource_in_cell(nodes, x, y) {
            Some(Resource::Iron) => '*',
            Some(Resource::Crystal) => '♦',
            Some(Resource::Gold) => '$',
            None => ' ',
        }
    }
}

/// Projects the game's state onto a frame, changing nothing. The field has
/// `grid.h` rows of `grid.w` cells.
pub fn render(
    ship: &Ship,
    asteroids: &Vec<Asteroid>,
    resources: &Vec<ResourceNode>,
    score: u32,
    grid: &Grid,
) -> (f: Frame)
    requires
        ship.cargo.total() <= u32::MAX,
    ensures
        f.rows@.len() == grid.h,
        forall|y: int| 0 <= y < grid.h ==> (#[trigger] f.rows@[y])@.len() == grid.w,
        forall|y: int, x: int|
            0 <= y < grid.h && 0 <= x < grid.w ==> #[trigger] f.rows@[y]@[x] == cell_glyph(
                grid.w as int,
                ship.x,
                ship.y,
                asteroids@,
                resources@,
                x,
                y,
            ),
        f.fuel_bars == gauge_of(ship.fuel),
        f.cargo == ship.cargo.total(),
        f.score == score,
{
    let width: usize = grid.w as usize;
    let mut rows: Vec<Vec<char>> = Vec::new();
    let mut y: usize = 0;
    while y < grid.h as usize
        invariant
            0 <= y <= grid.h,
            width == grid.w,
            rows@.len() == y,
            forall|yy: int| 0 <= yy < y ==> (#[trigger] rows@[yy])@.len() == width,
            forall|yy: int, x: int|
                0 <= yy < y && 0 <= x < width ==> #[trigger] rows@[yy]@[x] == cell_glyph(
                    width as int,
                    ship.x,
                    ship.y,
                    asteroids@,
                    resources@,
                    x,
                    yy,
                ),
        decreases grid.h - y,
    {
        let mut row: Vec<char> = Vec::new();
        let mut x: usize = 0;
        while x < width
            invariant
                0 <= x <= width,
                y < grid.h,
                row@.len() == x,
                forall|xx: int|
                    0 <= xx < x ==> row@[xx] == cell_glyph(
                        width as int,
                        ship.x,
                        ship.y,
                        asteroids@,
                        resources@,
                        xx,
                        y as int,
                    ),
            decreases width - x,
        {
            let c = cell_char(width, ship, asteroids, resources, x, y);
            row.push(c);
            x = x + 1;
        }
        rows.push(row);
        y = y + 1;
    }
    let fuel_bars = (ship.fuel as u32 + 50) / 100;
    Frame { rows, fuel_bars: fuel_bars as u16, cargo: ship.cargo.sum(), score }
}

} // verus!
