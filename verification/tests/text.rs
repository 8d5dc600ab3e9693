//! Glyph derivation, number rendering, and the event log's bounded view.

use playmill::building::Building;
use playmill::building::BuildingLabel;
use playmill::building::building_character_default;
use playmill::display::TerminalDisplay;
use playmill::idgen::IdGenerator;
use playmill::log::EventLog;
use playmill::textfmt::isize_to_string;
use playmill::textfmt::u128_to_string;
use playmill::textfmt::usize_to_string;

fn creator_with_count(count: usize, max: usize) -> Building {
    Building {
        id: 1,
        label: BuildingLabel::Creator,
        coord: (0, 0),
        contains_count: count,
        contains_max: max,
    }
}

#[test]
fn creator_glyphs_are_digits() {
    let expected = ['0', '1', '2', '3', '4', '5', '6', '7', '8'];
    for count in 0..=8usize {
        let b = creator_with_count(count, 8);
        assert_eq!(b.display_character(), expected[count]);
    }
}

#[test]
fn creator_glyph_saturates_at_nine() {
    // The glyph saturates in display only; the count itself is not clamped.
    for count in [9usize, 10, 15, 100] {
        let b = creator_with_count(count, 200);
        assert_eq!(b.display_character(), '9');
        assert_eq!(b.contains_count, count);
    }
}

#[test]
fn conveyor_glyphs() {
    let empty = Building::new(1, BuildingLabel::Conveyor, (0, 0), 0);
    assert_eq!(empty.display_character(), ':');
    let loaded = Building::new(2, BuildingLabel::Conveyor, (0, 0), 3);
    assert_eq!(loaded.display_character(), '@');
}

#[test]
fn glyph_derivation_is_deterministic() {
    let b = creator_with_count(4, 8);
    assert_eq!(b.display_character(), b.display_character());
    let c = Building::new(2, BuildingLabel::Conveyor, (5, 5), 1);
    assert_eq!(c.display_character(), c.display_character());
}

#[test]
fn default_glyphs_by_role() {
    assert_eq!(building_character_default(BuildingLabel::Conveyor), ':');
    assert_eq!(building_character_default(BuildingLabel::Creator), '-');
}

#[test]
fn decimal_rendering() {
    assert_eq!(u128_to_string(0), "0");
    assert_eq!(u128_to_string(7), "7");
    assert_eq!(u128_to_string(42), "42");
    assert_eq!(u128_to_string(1000), "1000");
    assert_eq!(u128_to_string(u128::MAX), u128::MAX.to_string());
    assert_eq!(usize_to_string(2000), "2000");
    assert_eq!(isize_to_string(0), "0");
    assert_eq!(isize_to_string(25), "25");
    assert_eq!(isize_to_string(-100), "-100");
    assert_eq!(isize_to_string(isize::MIN), isize::MIN.to_string());
}

#[test]
fn id_generator_counts_up() {
    let mut g = IdGenerator::new();
    assert_eq!(g.gimme(), 1);
    assert_eq!(g.gimme(), 2);
    assert_eq!(g.gimme(), 3);
}

#[test]
fn log_tail_returns_last_lines_in_order() {
    let mut log = EventLog::new();
    for i in 0..20usize {
        log.append(format!("line {}", i));
    }
    let tail = log.tail(3);
    assert_eq!(tail, vec!["line 17", "line 18", "line 19"]);
    // Restartable: a second call sees the same window, and the log is intact.
    assert_eq!(log.tail(3), tail);
    assert_eq!(log.len(), 20);
}

#[test]
fn log_tail_with_short_log_returns_everything() {
    let mut log = EventLog::new();
    log.append("only".to_string());
    assert_eq!(log.tail(12), vec!["only"]);
    let empty = EventLog::new();
    assert_eq!(empty.tail(12), Vec::<String>::new());
}

#[test]
fn display_defaults() {
    let d = TerminalDisplay::new();
    assert_eq!(d.view_center_x, 10);
    assert_eq!(d.view_center_y, 5);
    assert_eq!(d.view_width, 68);
    assert_eq!(d.view_height, 30);
    assert_eq!(d.log_lines_displayed, 12);
}
