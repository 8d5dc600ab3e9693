//! Buildings: grid-resident entities with a role and bounded resource state.

use vstd::prelude::*;

verus! {

/// The capacity every building is created with.
pub const DEFAULT_CAPACITY: usize = 8;

/// The behavioral role of a building. The set of roles is closed, so the
/// per-tick update dispatches on it exhaustively.
#[derive(Debug, Copy, Clone, PartialEq, Eq, Structural)]
pub enum BuildingLabel {
    /// Passive: resource count is only set at creation.
    Conveyor,
    /// Active: accumulates one resource every 25th tick, up to capacity.
    Creator,
}

/// The glyph a building of the given role shows when it holds no resources.
pub open spec fn spec_building_character_default(label: BuildingLabel) -> char {
    match label {
        BuildingLabel::Conveyor => ':',
        BuildingLabel::Creator => '-',
    }
}

/// The role-default glyph: `':'` for a conveyor, `'-'` for a creator.
pub fn building_character_default(label: BuildingLabel) -> (r: char)
    ensures
        r == spec_building_character_default(label),
{
    match label {
        BuildingLabel::Conveyor => ':',
        BuildingLabel::Creator => '-',
    }
}

/// A single grid-resident entity. Identifier, role, and coordinate are
/// fixed at creation; only the resource count changes, and only through
/// the per-tick update.
#[derive(Debug)]
pub struct Building {
    /// Unique identifier issued by the world's identity allocator.
    pub id: usize,
    /// Behavioral role, fixed for the building's lifetime.
    pub label: BuildingLabel,
    /// Grid coordinate; may be negative, placement is not validated.
    pub coord: (isize, isize),
    /// Resources currently held; never exceeds `contains_max`.
    pub contains_count: usize,
    /// Resource capacity, fixed at creation.
    pub contains_max: usize,
}

impl Building {
    /// The invariant every building satisfies: its resource count is
    /// bounded by its capacity.
    pub open spec fn wf(self) -> bool {
        self.contains_count <= self.contains_max
    }

    /// Constructs a building with the default capacity.
    pub fn new(id: usize, label: BuildingLabel, coord: (isize, isize), count: usize) -> (r: Self)
        requires
            count <= DEFAULT_CAPACITY,
        ensures
            r == (Building {
                id,
                label,
                coord,
                contains_count: count,
                contains_max: DEFAULT_CAPACITY as usize,
            }),
            r.wf(),
    {
        Self { id, label, coord, contains_count: count, contains_max: DEFAULT_CAPACITY }
    }

    /// The glyph this building shows, as a pure function of its state:
    /// a creator shows the digit for `min(contains_count, 9)`; any other
    /// building shows `'@'` when it holds resources and its role-default
    /// glyph otherwise.
    pub open spec fn spec_display_character(self) -> char {
        if self.label == BuildingLabel::Creator {
            spec_digit_char(if self.contains_count <= 9 {
                self.contains_count as nat
            } else {
                9
            })
        } else if self.contains_count > 0 {
            '@'
        } else {
            spec_building_character_default(self.label)
        }
    }

    /// Derives the display glyph from the current state. Recomputed on
    /// demand and side-effect free, so repeated calls on unchanged state
    /// yield identical results.
    pub fn display_character(&self) -> (r: char)
        ensures
            r == self.spec_display_character(),
    {
        if self.label == BuildingLabel::Creator {
            return match self.contains_count {
                0 => '0',
                1 => '1',
                2 => '2',
                3 => '3',
                4 => '4',
                5 => '5',
                6 => '6',
                7 => '7',
                8 => '8',
                _ => '9',
            };
        }
        if self.contains_count > 0 {
            return '@';
        }
        building_character_default(self.label)
    }
}

/// The ASCII digit character for a value in 0..=9.
pub open spec fn spec_digit_char(d: nat) -> char {
    if d == 0 {
        '0'
    } else if d == 1 {
        '1'
    } else if d == 2 {
        '2'
    } else if d == 3 {
        '3'
    } else if d == 4 {
        '4'
    } else if d == 5 {
        '5'
    } else if d == 6 {
        '6'
    } else if d == 7 {
        '7'
    } else if d == 8 {
        '8'
    } else {
        '9'
    }
}

} // verus!
