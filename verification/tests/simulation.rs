//! End-to-end simulation behavior: identity allocation, the tick schedule,
//! logging, and the capacity bound.

use playmill::building::BuildingLabel;
use playmill::world::World;

fn incremented_lines(w: &World, id: usize) -> Vec<String> {
    let prefix = format!("Incremented resource in building #{} ", id);
    w.log.lines.iter().filter(|l| l.starts_with(&prefix)).cloned().collect()
}

fn skipped_lines(w: &World, id: usize) -> Vec<String> {
    let prefix = format!("Skipped adding resource in building #{} ", id);
    w.log.lines.iter().filter(|l| l.starts_with(&prefix)).cloned().collect()
}

fn milestone_lines(w: &World) -> Vec<String> {
    w.log.lines.iter().filter(|l| l.starts_with("Reached tick ")).cloned().collect()
}

#[test]
fn monotonic_identity() {
    let mut w = World::new();
    let mut last: usize = 0;
    let mut seen: Vec<usize> = Vec::new();
    for k in 0..20 {
        let coord = (k as isize, -(k as isize));
        let label = if k % 2 == 0 { BuildingLabel::Conveyor } else { BuildingLabel::Creator };
        let id = w.add_new_building(label, coord, 0);
        assert!(id > last, "identifiers must be strictly increasing");
        assert!(!seen.contains(&id), "identifiers must never repeat");
        seen.push(id);
        last = id;
    }
}

#[test]
fn capacity_bound_holds_through_ticks() {
    let mut w = World::new();
    w.add_new_building(BuildingLabel::Creator, (0, 0), 0);
    w.add_new_building(BuildingLabel::Creator, (1, 0), 8);
    w.add_new_building(BuildingLabel::Conveyor, (2, 0), 3);
    for _ in 0..500 {
        w.tick_world();
        for b in w.buildings.iter() {
            assert!(b.contains_count <= b.contains_max);
        }
    }
}

#[test]
fn creator_accumulation_schedule() {
    let mut w = World::new();
    w.add_new_building(BuildingLabel::Creator, (25, 20), 0);
    let mut tick: u128 = 0;
    for step in 1..=8u128 {
        while tick < 25 * step {
            w.tick_world();
            tick += 1;
        }
        assert_eq!(w.buildings[0].contains_count as u128, step);
    }
    // Past capacity the count stays at 8 and due ticks are logged as skipped.
    while tick < 225 {
        w.tick_world();
        tick += 1;
    }
    assert_eq!(w.buildings[0].contains_count, 8);
    assert_eq!(skipped_lines(&w, 1).len(), 1);
    assert_eq!(
        skipped_lines(&w, 1)[0],
        "Skipped adding resource in building #1 to 8 since already at max 8"
    );
    while tick < 250 {
        w.tick_world();
        tick += 1;
    }
    assert_eq!(w.buildings[0].contains_count, 8);
    assert_eq!(skipped_lines(&w, 1).len(), 2);
}

#[test]
fn dual_path_logging() {
    let mut w = World::new();
    let id = w.add_new_building(BuildingLabel::Creator, (25, 20), 0);
    for tick in 1..=300u128 {
        let before_inc = incremented_lines(&w, id).len();
        let before_skip = skipped_lines(&w, id).len();
        w.tick_world();
        let after_inc = incremented_lines(&w, id).len();
        let after_skip = skipped_lines(&w, id).len();
        if tick % 25 == 0 && tick <= 200 {
            assert_eq!(after_inc, before_inc + 1, "one incremented line at tick {}", tick);
            assert_eq!(after_skip, before_skip, "no skipped line at tick {}", tick);
        } else if tick % 25 == 0 {
            assert_eq!(after_skip, before_skip + 1, "one skipped line at tick {}", tick);
            assert_eq!(after_inc, before_inc, "no incremented line at tick {}", tick);
        } else {
            assert_eq!(after_inc, before_inc, "no line on a tick that is not due ({})", tick);
            assert_eq!(after_skip, before_skip, "no line on a tick that is not due ({})", tick);
        }
    }
}

#[test]
fn milestone_logging() {
    let mut w = World::new();
    for _ in 0..150 {
        w.tick_world();
    }
    let milestones = milestone_lines(&w);
    assert_eq!(milestones.len(), 3);
    assert_eq!(milestones[0], "Reached tick 50");
    assert_eq!(milestones[1], "Reached tick 100");
    assert_eq!(milestones[2], "Reached tick 150");
}

#[test]
fn end_to_end_scenario() {
    let mut w = World::new();
    let id = w.add_new_building(BuildingLabel::Creator, (25, 20), 0);
    assert_eq!(w.buildings[0].contains_max, 8);
    for _ in 0..200 {
        w.tick_world();
    }
    assert_eq!(w.buildings[0].contains_count, 8);
    assert_eq!(incremented_lines(&w, id).len(), 8);
    assert_eq!(skipped_lines(&w, id).len(), 0);
}

#[test]
fn conveyors_are_inert() {
    let mut w = World::new();
    w.add_new_building(BuildingLabel::Conveyor, (3, 4), 5);
    for _ in 0..200 {
        w.tick_world();
    }
    assert_eq!(w.buildings[0].contains_count, 5);
    assert_eq!(incremented_lines(&w, 1).len(), 0);
    assert_eq!(skipped_lines(&w, 1).len(), 0);
}

#[test]
fn log_lines_of_one_tick_follow_building_order() {
    let mut w = World::new();
    let first = w.add_new_building(BuildingLabel::Creator, (0, 0), 0);
    let second = w.add_new_building(BuildingLabel::Creator, (1, 0), 0);
    for _ in 0..25 {
        w.tick_world();
    }
    let len = w.log.lines.len();
    assert_eq!(
        w.log.lines[len - 2],
        format!("Incremented resource in building #{} to 1", first)
    );
    assert_eq!(
        w.log.lines[len - 1],
        format!("Incremented resource in building #{} to 1", second)
    );
}

#[test]
fn added_building_log_lines() {
    let mut w = World::new();
    w.add_new_building(BuildingLabel::Creator, (25, 20), 0);
    w.add_new_building(BuildingLabel::Conveyor, (19, 12), 1);
    w.add_new_building(BuildingLabel::Conveyor, (-3, -7), 2);
    assert_eq!(w.log.lines[0], "World initialized");
    assert_eq!(w.log.lines[1], "Added building #1 Creator \"-\" (25, 20) w/0 items");
    assert_eq!(w.log.lines[2], "Added building #2 Conveyor \":\" (19, 12) w/1 item ");
    assert_eq!(w.log.lines[3], "Added building #3 Conveyor \":\" (-3, -7) w/2 items");
}

#[test]
fn clock_exhaustion_and_budget() {
    let mut w = World::new();
    assert_eq!(w.physics.ticks_max, 2000);
    assert_eq!(w.physics.tick_post_sleep_ms, 150);
    assert!(!w.physics.is_exhausted());
    for _ in 0..2000 {
        w.tick_world();
    }
    assert!(w.physics.is_exhausted());
}

#[test]
fn scenario_places_ten_buildings() {
    let mut w = World::new();
    playmill::world::scenario_4x_conveyor(&mut w);
    assert_eq!(w.buildings.len(), 10);
    assert_eq!(w.buildings[6].label, BuildingLabel::Creator);
    assert_eq!(w.buildings[6].coord, (25, 20));
    assert_eq!(w.buildings[1].contains_count, 1);
    let ids: Vec<usize> = w.buildings.iter().map(|b| b.id).collect();
    assert_eq!(ids, vec![1, 2, 3, 4, 5, 6, 7, 8, 9, 10]);
}
