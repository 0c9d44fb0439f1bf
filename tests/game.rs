use space_miner::{
    check_collision, collision_system, difficulty_system, mining_system, physics_system,
    random_cell, render, spawn_system, Asteroid, Cargo, FrameOutcome, Grid, InputEvent, Rect,
    Resource, ResourceNode, Session, Ship, FUEL_MAX, GRID_H, GRID_W, MIN_SPAWN_RATE,
    START_SPAWN_RATE,
};

fn ship_at(x: u16, y: u16) -> Ship {
    let mut s = Ship::new();
    s.x = x;
    s.y = y;
    s
}

fn node(x: u16, y: u16, kind: Resource) -> ResourceNode {
    ResourceNode { x, y, kind }
}

fn session_with(ship: Ship, asteroids: Vec<Asteroid>, resources: Vec<ResourceNode>) -> Session {
    let mut s = Session::new();
    s.ship = ship;
    s.asteroids = asteroids;
    s.resources = resources;
    s
}

#[test]
fn new_ship_is_full_and_empty() {
    let s = Ship::new();
    assert_eq!((s.x, s.y), (10, 10));
    assert_eq!(s.fuel, FUEL_MAX);
    assert_eq!(s.cargo, Cargo { iron: 0, crystal: 0, gold: 0 });
    assert!(s.upgrades.is_empty());
}

#[test]
fn keys_map_to_intents() {
    assert_eq!(InputEvent::from_key(Some('w')), InputEvent::Up);
    assert_eq!(InputEvent::from_key(Some('a')), InputEvent::Left);
    assert_eq!(InputEvent::from_key(Some('s')), InputEvent::Down);
    assert_eq!(InputEvent::from_key(Some('d')), InputEvent::Right);
    assert_eq!(InputEvent::from_key(Some(' ')), InputEvent::Mine);
    assert_eq!(InputEvent::from_key(Some('q')), InputEvent::Quit);
    assert_eq!(InputEvent::from_key(Some('x')), InputEvent::Idle);
    assert_eq!(InputEvent::from_key(Some('W')), InputEvent::Idle);
    assert_eq!(InputEvent::from_key(None), InputEvent::Idle);
}

#[test]
fn physics_moves_one_cell_and_burns_fuel() {
    let grid = Grid::standard();
    let mut s = ship_at(10, 10);
    physics_system(&InputEvent::Right, &mut s, &grid);
    assert_eq!((s.x, s.y, s.fuel), (11, 10, 995));
    physics_system(&InputEvent::Up, &mut s, &grid);
    assert_eq!((s.x, s.y, s.fuel), (11, 9, 990));
    physics_system(&InputEvent::Mine, &mut s, &grid);
    assert_eq!((s.x, s.y, s.fuel), (11, 9, 985));
}

#[test]
fn physics_clamps_at_every_edge() {
    let grid = Grid::standard();
    let mut s = ship_at(0, 0);
    physics_system(&InputEvent::Up, &mut s, &grid);
    physics_system(&InputEvent::Left, &mut s, &grid);
    assert_eq!((s.x, s.y), (0, 0));
    let mut s = ship_at(GRID_W - 1, GRID_H - 1);
    physics_system(&InputEvent::Right, &mut s, &grid);
    physics_system(&InputEvent::Down, &mut s, &grid);
    assert_eq!((s.x, s.y), (31, 14));
}

#[test]
fn long_walk_stays_on_field() {
    let grid = Grid { w: 4, h: 3 };
    let mut s = ship_at(1, 1);
    let intents = [InputEvent::Right, InputEvent::Down, InputEvent::Left, InputEvent::Up];
    for k in 0..200usize {
        let intent = intents[(k * 7 + k / 3) % 4];
        physics_system(&intent, &mut s, &grid);
        assert!(s.x < 4 && s.y < 3);
    }
}

#[test]
fn fuel_floors_at_zero() {
    let grid = Grid::standard();
    let mut s = ship_at(3, 3);
    s.fuel = 3;
    physics_system(&InputEvent::Idle, &mut s, &grid);
    assert_eq!(s.fuel, 0);
    physics_system(&InputEvent::Idle, &mut s, &grid);
    assert_eq!(s.fuel, 0);
}

#[test]
fn collision_same_cell_only() {
    let s = ship_at(5, 5);
    assert!(collision_system(&s, &vec![Asteroid { x: 5, y: 5 }]));
    assert!(!collision_system(&s, &vec![Asteroid { x: 5, y: 6 }]));
    assert!(!collision_system(&s, &vec![]));
    assert!(collision_system(&s, &vec![Asteroid { x: 1, y: 1 }, Asteroid { x: 5, y: 5 }]));
}

#[test]
fn rect_overlap() {
    let ship = Rect { x: 5, y: 5, w: 1, h: 1 };
    assert!(check_collision(&ship, &Rect { x: 5, y: 5, w: 1, h: 1 }));
    assert!(!check_collision(&ship, &Rect { x: 5, y: 6, w: 1, h: 1 }));
    assert!(check_collision(&Rect { x: 0, y: 0, w: 3, h: 2 }, &Rect { x: 2, y: 1, w: 4, h: 4 }));
    assert!(!check_collision(&Rect { x: 0, y: 0, w: 3, h: 2 }, &Rect { x: 3, y: 0, w: 1, h: 1 }));
    let big = Rect { x: 65535, y: 65535, w: 65535, h: 65535 };
    assert!(check_collision(&big, &big));
}

#[test]
fn mining_takes_first_node_on_cell() {
    let mut s = ship_at(4, 4);
    let mut res = vec![
        node(1, 1, Resource::Iron),
        node(4, 4, Resource::Gold),
        node(4, 4, Resource::Iron),
    ];
    let r = mining_system(&InputEvent::Mine, &mut s, &mut res);
    assert_eq!(r, Some(Resource::Gold));
    assert_eq!(res, vec![node(1, 1, Resource::Iron), node(4, 4, Resource::Iron)]);
    assert_eq!(s.cargo, Cargo { iron: 0, crystal: 0, gold: 1 });
}

#[test]
fn mining_twice_finds_nothing_second_time() {
    let mut s = ship_at(8, 3);
    let mut res = vec![node(8, 3, Resource::Iron), node(2, 2, Resource::Gold)];
    assert_eq!(mining_system(&InputEvent::Mine, &mut s, &mut res), Some(Resource::Iron));
    assert_eq!(s.cargo.iron, 1);
    assert_eq!(mining_system(&InputEvent::Mine, &mut s, &mut res), None);
    assert_eq!(s.cargo, Cargo { iron: 1, crystal: 0, gold: 0 });
    assert_eq!(res, vec![node(2, 2, Resource::Gold)]);
}

#[test]
fn mining_needs_the_mine_intent() {
    let mut s = ship_at(8, 3);
    let mut res = vec![node(8, 3, Resource::Iron)];
    assert_eq!(mining_system(&InputEvent::Up, &mut s, &mut res), None);
    assert_eq!(res.len(), 1);
    assert_eq!(s.cargo.iron, 0);
}

#[test]
fn crystal_refuels_by_twenty() {
    let mut s = ship_at(0, 0);
    s.fuel = 500;
    let mut res = vec![node(0, 0, Resource::Crystal)];
    assert_eq!(mining_system(&InputEvent::Mine, &mut s, &mut res), Some(Resource::Crystal));
    assert_eq!(s.fuel, 700);
    assert_eq!(s.cargo.crystal, 1);
}

#[test]
fn crystal_refuel_clamps_at_full() {
    let mut s = ship_at(0, 0);
    s.fuel = 950;
    let mut res = vec![node(0, 0, Resource::Crystal), node(0, 0, Resource::Crystal)];
    mining_system(&InputEvent::Mine, &mut s, &mut res);
    assert_eq!(s.fuel, 1000);
    mining_system(&InputEvent::Mine, &mut s, &mut res);
    assert_eq!(s.fuel, 1000);
    assert_eq!(s.cargo.crystal, 2);
}

#[test]
fn gold_does_not_refuel() {
    let mut s = ship_at(0, 0);
    s.fuel = 500;
    let mut res = vec![node(0, 0, Resource::Gold)];
    mining_system(&InputEvent::Mine, &mut s, &mut res);
    assert_eq!(s.fuel, 500);
}

#[test]
fn spawn_on_multiples_of_rate() {
    let mut a = vec![];
    spawn_system(49, 50, &mut a, Asteroid { x: 1, y: 2 });
    assert!(a.is_empty());
    spawn_system(100, 50, &mut a, Asteroid { x: 1, y: 2 });
    assert_eq!(a, vec![Asteroid { x: 1, y: 2 }]);
    spawn_system(100, 50, &mut a, Asteroid { x: 1, y: 2 });
    assert_eq!(a.len(), 2);
}

#[test]
fn spawn_rate_ramp_schedule() {
    let mut rate = START_SPAWN_RATE;
    for tick in 1..=10_000u32 {
        let next = difficulty_system(tick, rate);
        assert!(next <= rate && next >= MIN_SPAWN_RATE);
        rate = next;
        match tick {
            499 => assert_eq!(rate, 50),
            500 => assert_eq!(rate, 45),
            1000 => assert_eq!(rate, 40),
            3500 => assert_eq!(rate, 15),
            4000 => assert_eq!(rate, 10),
            _ => {}
        }
    }
    assert_eq!(rate, 10);
}

#[test]
fn spawn_rate_floor_is_exact() {
    assert_eq!(difficulty_system(500, 12), 10);
    assert_eq!(difficulty_system(500, 10), 10);
    assert_eq!(difficulty_system(501, 50), 50);
}

#[test]
fn random_cells_stay_on_field() {
    let grid = Grid { w: 3, h: 2 };
    for _ in 0..500 {
        let c = random_cell(&grid);
        assert!(c.x < 3 && c.y < 2);
    }
    let one = Grid { w: 1, h: 1 };
    assert_eq!(random_cell(&one), Asteroid { x: 0, y: 0 });
}

#[test]
fn render_draws_by_precedence() {
    let grid = Grid { w: 6, h: 3 };
    let s = ship_at(1, 1);
    let asteroids = vec![Asteroid { x: 0, y: 0 }, Asteroid { x: 2, y: 1 }, Asteroid { x: 4, y: 2 }];
    let resources = vec![
        node(4, 2, Resource::Iron),
        node(5, 0, Resource::Crystal),
        node(5, 0, Resource::Iron),
        node(4, 1, Resource::Gold),
        node(3, 1, Resource::Gold),
    ];
    let f = render(&s, &asteroids, &resources, 30, &grid);
    let rows: Vec<String> = f.rows.iter().map(|r| r.iter().collect()).collect();
    assert_eq!(rows, vec!["O    ♦", " >A<$ ", "    O "]);
    assert_eq!(f.score, 30);
}

#[test]
fn render_standard_field_is_fifteen_by_thirty_two() {
    let grid = Grid::standard();
    let s = ship_at(10, 10);
    let f = render(&s, &vec![Asteroid { x: 0, y: 0 }], &vec![node(31, 14, Resource::Gold)], 0, &grid);
    assert_eq!(f.rows.len(), 15);
    assert!(f.rows.iter().all(|r| r.len() == 32));
    assert_eq!(f.rows[0][0], 'O');
    assert_eq!(f.rows[14][31], '$');
    let row: String = f.rows[10].iter().collect();
    assert_eq!(&row[10..13], ">A<");
}

#[test]
fn render_ship_glyph_is_cut_at_right_edge() {
    let grid = Grid::standard();
    let s = ship_at(31, 0);
    let f = render(&s, &vec![], &vec![], 0, &grid);
    assert_eq!(f.rows[0].len(), 32);
    let top: String = f.rows[0].iter().collect();
    assert_eq!(top, format!("{}>", " ".repeat(31)));
    let s = ship_at(30, 2);
    let f = render(&s, &vec![], &vec![], 0, &grid);
    let row: String = f.rows[2].iter().collect();
    assert_eq!(row, format!("{}>A", " ".repeat(30)));
}

#[test]
fn render_footer_figures() {
    let grid = Grid::standard();
    let mut s = ship_at(0, 0);
    s.cargo = Cargo { iron: 2, crystal: 1, gold: 4 };
    for (fuel, bars) in [(1000u16, 10u16), (985, 10), (950, 10), (949, 9), (50, 1), (45, 0), (0, 0)] {
        s.fuel = fuel;
        let f = render(&s, &vec![], &vec![], 70, &grid);
        assert_eq!(f.fuel_bars, bars);
        assert_eq!(f.cargo, 7);
    }
}

#[test]
fn new_session_layout() {
    let s = Session::new();
    assert_eq!((s.ship.x, s.ship.y), (10, 10));
    assert_eq!(s.asteroids.len(), 3);
    assert_eq!(s.resources[1], node(25, 10, Resource::Crystal));
    assert_eq!((s.score, s.tick, s.spawn_rate), (0, 0, 50));
    assert_eq!(s.grid, Grid { w: 32, h: 15 });
}

#[test]
fn scenario_move_right_twice_and_mine_gold() {
    let mut s = session_with(Ship::new(), vec![], vec![node(12, 10, Resource::Gold)]);
    let spawn = Asteroid { x: 0, y: 0 };
    for intent in [InputEvent::Right, InputEvent::Right] {
        assert_eq!(s.frame(intent, spawn), FrameOutcome::Running { mined: None });
    }
    assert_eq!(s.frame(InputEvent::Mine, spawn), FrameOutcome::Running { mined: Some(Resource::Gold) });
    assert_eq!((s.ship.x, s.ship.y), (12, 10));
    assert_eq!(s.ship.cargo.gold, 1);
    assert_eq!(s.ship.fuel, 985);
    assert_eq!(s.score, 10);
    assert_eq!(s.tick, 3);
    assert!(s.resources.is_empty());
}

#[test]
fn scenario_quit_is_silent_and_changes_nothing() {
    let mut s = Session::new();
    s.frame(InputEvent::Right, Asteroid { x: 0, y: 0 });
    let before = (s.ship.x, s.ship.y, s.ship.fuel, s.tick, s.score);
    assert_eq!(s.frame(InputEvent::Quit, Asteroid { x: 0, y: 0 }), FrameOutcome::Quit);
    assert_eq!((s.ship.x, s.ship.y, s.ship.fuel, s.tick, s.score), before);
}

#[test]
fn scenario_hazard_cell_ends_the_game() {
    let mut s = session_with(ship_at(5, 4), vec![Asteroid { x: 5, y: 5 }], vec![node(5, 5, Resource::Gold)]);
    assert_eq!(s.frame(InputEvent::Down, Asteroid { x: 0, y: 0 }), FrameOutcome::GameOver);
    assert_eq!((s.ship.x, s.ship.y), (5, 5));
    assert_eq!(s.resources.len(), 1);
    assert_eq!(s.score, 0);
}

#[test]
fn scenario_spawned_asteroid_can_end_the_game() {
    let mut s = session_with(ship_at(3, 3), vec![], vec![]);
    s.tick = 49;
    assert_eq!(s.frame(InputEvent::Idle, Asteroid { x: 3, y: 3 }), FrameOutcome::GameOver);
    assert_eq!(s.asteroids, vec![Asteroid { x: 3, y: 3 }]);
}

#[test]
fn scenario_empty_tank_ends_the_game() {
    let mut ship = ship_at(3, 3);
    ship.fuel = 5;
    let mut s = session_with(ship, vec![], vec![]);
    assert_eq!(s.frame(InputEvent::Idle, Asteroid { x: 0, y: 0 }), FrameOutcome::GameOver);
    assert_eq!(s.ship.fuel, 0);
}

#[test]
fn scenario_ramp_inside_a_session() {
    let mut s = session_with(ship_at(3, 3), vec![], vec![]);
    s.ship.fuel = 1000;
    s.tick = 499;
    let out = s.frame(InputEvent::Idle, Asteroid { x: 20, y: 14 });
    assert_eq!(out, FrameOutcome::Running { mined: None });
    assert_eq!(s.spawn_rate, 45);
    assert_eq!(s.asteroids, vec![Asteroid { x: 20, y: 14 }]);
}
