//! The world: owns the allocator, clock, log, and buildings, and exposes
//! building creation and the single per-tick update.

use vstd::prelude::*;

use crate::building::Building;
use crate::building::BuildingLabel;
use crate::building::DEFAULT_CAPACITY;
use crate::building::spec_building_character_default;
use crate::clock::Physics;
use crate::idgen::IdGenerator;
use crate::log::EventLog;
use crate::textfmt::push_str;
use crate::textfmt::spec_dec;
use crate::textfmt::spec_dec_int;
use crate::textfmt::isize_to_string;
use crate::textfmt::u128_to_string;
use crate::textfmt::usize_to_string;

verus! {

/// The role's name as it appears in log lines.
pub open spec fn spec_label_name(label: BuildingLabel) -> Seq<char> {
    match label {
        BuildingLabel::Conveyor => "Conveyor"@,
        BuildingLabel::Creator => "Creator"@,
    }
}

fn label_name(label: BuildingLabel) -> (r: &'static str)
    ensures
        r@ == spec_label_name(label),
{
    match label {
        BuildingLabel::Conveyor => "Conveyor",
        BuildingLabel::Creator => "Creator",
    }
}

fn default_glyph_str(label: BuildingLabel) -> (r: &'static str)
    ensures
        r@ == seq![spec_building_character_default(label)],
{
    match label {
        BuildingLabel::Conveyor => {
            proof {
                reveal_strlit(":");
            }
            assert(":"@ =~= seq![spec_building_character_default(label)]);
            ":"
        },
        BuildingLabel::Creator => {
            proof {
                reveal_strlit("-");
            }
            assert("-"@ =~= seq![spec_building_character_default(label)]);
            "-"
        },
    }
}

/// The log line recording a newly created building: its identifier, role,
/// default glyph, coordinate, and initial count, with "item" worded for
/// the singular and "items" otherwise.
pub open spec fn spec_added_line(
    id: nat,
    label: BuildingLabel,
    coord: (isize, isize),
    count: nat,
) -> Seq<char> {
    "Added building #"@ + spec_dec(id) + " "@ + spec_label_name(label) + " \""@ + seq![
        spec_building_character_default(label),
    ] + "\" ("@ + spec_dec_int(coord.0 as int) + ", "@ + spec_dec_int(coord.1 as int) + ") w/"@
        + spec_dec(count) + " item"@ + (if count == 1 {
        " "@
    } else {
        "s"@
    })
}

/// The log line recording that a milestone tick was reached.
pub open spec fn spec_milestone_line(t: nat) -> Seq<char> {
    "Reached tick "@ + spec_dec(t)
}

/// The log line recording that a building's resource count was raised to
/// `count`.
pub open spec fn spec_incremented_line(id: nat, count: nat) -> Seq<char> {
    "Incremented resource in building #"@ + spec_dec(id) + " to "@ + spec_dec(count)
}

/// The log line recording that a due increment was skipped because the
/// building already sits at capacity.
pub open spec fn spec_skipped_line(id: nat, count: nat, max: nat) -> Seq<char> {
    "Skipped adding resource in building #"@ + spec_dec(id) + " to "@ + spec_dec(count)
        + " since already at max "@ + spec_dec(max)
}

/// How one building evolves on tick `t`: a creator on a due tick (every
/// 25th) gains one resource if it is below capacity; everything else is
/// left untouched. Conveyors never change.
pub open spec fn spec_building_after_tick(b: Building, t: nat) -> Building {
    if b.label == BuildingLabel::Creator && t % 25 == 0 && b.contains_count < b.contains_max {
        Building { contains_count: (b.contains_count + 1) as usize, ..b }
    } else {
        b
    }
}

/// The log lines one building contributes on tick `t`: on a due tick a
/// creator logs exactly one line — "incremented" if it was below capacity,
/// "skipped" if it already sat at capacity — and on any other tick, or for
/// any other role, it logs nothing.
pub open spec fn spec_building_tick_lines(b: Building, t: nat) -> Seq<Seq<char>> {
    if b.label == BuildingLabel::Creator && t % 25 == 0 {
        if b.contains_count < b.contains_max {
            seq![spec_incremented_line(b.id as nat, (b.contains_count + 1) as nat)]
        } else {
            seq![spec_skipped_line(b.id as nat, b.contains_count as nat, b.contains_max as nat)]
        }
    } else {
        Seq::<Seq<char>>::empty()
    }
}

/// The per-building log lines of tick `t`, in building insertion order.
pub open spec fn spec_buildings_tick_lines(bs: Seq<Building>, t: nat) -> Seq<Seq<char>>
    decreases bs.len(),
{
    if bs.len() == 0 {
        Seq::<Seq<char>>::empty()
    } else {
        spec_buildings_tick_lines(bs.drop_last(), t) + spec_building_tick_lines(bs.last(), t)
    }
}

/// Everything tick `t` appends to the log: a milestone line first when
/// `t` is a multiple of 50, then the per-building lines in order.
pub open spec fn spec_tick_lines(bs: Seq<Building>, t: nat) -> Seq<Seq<char>> {
    (if t % 50 == 0 {
        seq![spec_milestone_line(t)]
    } else {
        Seq::<Seq<char>>::empty()
    }) + spec_buildings_tick_lines(bs, t)
}

/// The world: exclusive owner of the identity allocator, the clock, the
/// event log, and the buildings (an ordered collection preserving
/// insertion order).
pub struct World {
    /// Issues this world's building identifiers; never shared.
    pub idgen: IdGenerator,
    /// The clock: elapsed ticks, budget, bounds, pacing.
    pub physics: Physics,
    /// All buildings, in creation order.
    pub buildings: Vec<Building>,
    /// The append-only record of what happened.
    pub log: EventLog,
}

impl World {
    /// The world invariant: every building respects its capacity bound,
    /// building identifiers strictly increase in insertion order (so they
    /// are unique), and every identifier was issued by this world's own
    /// allocator (it is at most the allocator's high-water mark).
    pub open spec fn wf(self) -> bool {
        &&& forall|i: int| 0 <= i < self.buildings@.len() ==> (#[trigger] self.buildings@[i]).wf()
        &&& forall|i: int, j: int|
            0 <= i < j < self.buildings@.len() ==> self.buildings@[i].id < self.buildings@[j].id
        &&& forall|i: int|
            0 <= i < self.buildings@.len() ==> (#[trigger] self.buildings@[i]).id <= self.idgen.id
    }

    /// A fresh world: no buildings, a fresh allocator and clock, and a log
    /// holding the single initialization line.
    pub fn new() -> (r: Self)
        ensures
            r.idgen.id == 0,
            r.physics == (Physics {
                tick_count: 0u128,
                ticks_max: 2000usize,
                min_x: -100isize,
                max_x: 100isize,
                min_y: -100isize,
                max_y: 100isize,
                tick_post_sleep_ms: 150u64,
            }),
            r.buildings@.len() == 0,
            r.log.entries() =~= seq!["World initialized"@],
            r.wf(),
    {
        let mut me = Self {
            idgen: IdGenerator::new(),
            physics: Physics::new(),
            buildings: Vec::new(),
            log: EventLog::new(),
        };
        me.add_log_line("World initialized");
        assert(me.log.entries() =~= seq!["World initialized"@]);
        me
    }

    /// Appends one line to the event log; nothing else changes.
    pub fn add_log_line(&mut self, line: &str)
        ensures
            final(self).log.entries() =~= old(self).log.entries().push(line@),
            final(self).idgen == old(self).idgen,
            final(self).physics == old(self).physics,
            final(self).buildings@ == old(self).buildings@,
    {
        self.log.append(line.to_owned());
    }

    /// Creates a building: allocates the next identifier, constructs the
    /// building with the default capacity, appends it to the collection,
    /// and logs one descriptive line. Returns the new identifier, which is
    /// strictly greater than every identifier this world issued before.
    pub fn add_new_building(&mut self, label: BuildingLabel, coord: (isize, isize), count: usize)
        -> (r: usize)
        requires
            old(self).wf(),
            old(self).idgen.id < usize::MAX,
            count <= DEFAULT_CAPACITY,
        ensures
            r == old(self).idgen.id + 1,
            final(self).idgen.id == r,
            final(self).physics == old(self).physics,
            final(self).buildings@ =~= old(self).buildings@.push(
                (Building {
                    id: r,
                    label,
                    coord,
                    contains_count: count,
                    contains_max: DEFAULT_CAPACITY as usize,
                }),
            ),
            final(self).log.entries() =~= old(self).log.entries().push(
                spec_added_line(r as nat, label, coord, count as nat),
            ),
            forall|i: int|
                0 <= i < old(self).buildings@.len() ==> (#[trigger] old(
                    self,
                ).buildings@[i]).id < r,
            final(self).wf(),
    {
        let bid = self.idgen.gimme();
        let mut line = "Added building #".to_owned();
        push_str(&mut line, usize_to_string(bid).as_str());
        push_str(&mut line, " ");
        push_str(&mut line, label_name(label));
        push_str(&mut line, " \"");
        push_str(&mut line, default_glyph_str(label));
        push_str(&mut line, "\" (");
        push_str(&mut line, isize_to_string(coord.0).as_str());
        push_str(&mut line, ", ");
        push_str(&mut line, isize_to_string(coord.1).as_str());
        push_str(&mut line, ") w/");
        push_str(&mut line, usize_to_string(count).as_str());
        push_str(&mut line, " item");
        if count == 1 {
            push_str(&mut line, " ");
        } else {
            push_str(&mut line, "s");
        }
        assert(line@ =~= spec_added_line(bid as nat, label, coord, count as nat));
        let building = Building::new(bid, label, coord, count);
        self.buildings.push(building);
        self.log.append(line);
        bid
    }

    /// The per-tick update. Advances the clock by one tick to `t`; logs a
    /// milestone line when `t` is a multiple of 50; then, in insertion
    /// order, evolves every building by the tick rule, logging exactly one
    /// line per due creator — whether it gained a resource or was skipped
    /// at capacity. Building order never affects per-building outcomes
    /// (no building reads another's state), only the order of log lines.
    pub fn tick_world(&mut self)
        requires
            old(self).wf(),
            old(self).physics.tick_count < u128::MAX,
        ensures
            final(self).physics.tick_count == old(self).physics.tick_count + 1,
            final(self).physics.ticks_max == old(self).physics.ticks_max,
            final(self).physics.min_x == old(self).physics.min_x,
            final(self).physics.max_x == old(self).physics.max_x,
            final(self).physics.min_y == old(self).physics.min_y,
            final(self).physics.max_y == old(self).physics.max_y,
            final(self).physics.tick_post_sleep_ms == old(self).physics.tick_post_sleep_ms,
            final(self).idgen == old(self).idgen,
            final(self).buildings@ =~= old(self).buildings@.map_values(
                (|b: Building|
                    spec_building_after_tick(b, (old(self).physics.tick_count + 1) as nat)),
            ),
            final(self).log.entries() =~= old(self).log.entries() + spec_tick_lines(
                old(self).buildings@,
                (old(self).physics.tick_count + 1) as nat,
            ),
            final(self).wf(),
    {
        self.physics.tick_physics();
        let ghost t: nat = self.physics.tick_count as nat;
        let ghost bs0: Seq<Building> = self.buildings@;
        if self.physics.tick_count % 50 == 0 {
            let mut line = "Reached tick ".to_owned();
            push_str(&mut line, u128_to_string(self.physics.tick_count).as_str());
            assert(line@ =~= spec_milestone_line(t));
            self.log.append(line);
        }
        let ghost log1: Seq<Seq<char>> = self.log.entries();
        let ghost idgen0: IdGenerator = self.idgen;
        let ghost phys0: Physics = self.physics;
        let n = self.buildings.len();
        let mut i: usize = 0;
        while i < n
            invariant
                0 <= i <= n,
                n == bs0.len(),
                self.buildings@.len() == n,
                self.idgen == idgen0,
                self.physics == phys0,
                t == phys0.tick_count as nat,
                forall|j: int| 0 <= j < n ==> (#[trigger] bs0[j]).wf(),
                forall|j: int|
                    0 <= j < i ==> self.buildings@[j] == spec_building_after_tick(bs0[j], t),
                forall|j: int| i <= j < n ==> self.buildings@[j] == bs0[j],
                self.log.entries() =~= log1 + spec_buildings_tick_lines(bs0.take(i as int), t),
            decreases n - i,
        {
            let label = self.buildings[i].label;
            if label == BuildingLabel::Creator && self.physics.tick_count % 25 == 0 {
                let bid = self.buildings[i].id;
                let cur = self.buildings[i].contains_count;
                let max = self.buildings[i].contains_max;
                if cur < max {
                    let newc = cur + 1;
                    self.buildings[i].contains_count = newc;
                    let mut line = "Incremented resource in building #".to_owned();
                    push_str(&mut line, usize_to_string(bid).as_str());
                    push_str(&mut line, " to ");
                    push_str(&mut line, usize_to_string(newc).as_str());
                    assert(line@ =~= spec_incremented_line(bid as nat, newc as nat));
                    self.log.append(line);
                } else {
                    let mut line = "Skipped adding resource in building #".to_owned();
                    push_str(&mut line, usize_to_string(bid).as_str());
                    push_str(&mut line, " to ");
                    push_str(&mut line, usize_to_string(cur).as_str());
                    push_str(&mut line, " since already at max ");
                    push_str(&mut line, usize_to_string(max).as_str());
                    assert(line@ =~= spec_skipped_line(bid as nat, cur as nat, max as nat));
                    self.log.append(line);
                }
            }
            proof {
                assert(bs0.take(i + 1).drop_last() =~= bs0.take(i as int));
                assert(bs0.take(i + 1).last() == bs0[i as int]);
                assert(self.log.entries() =~= log1 + spec_buildings_tick_lines(
                    bs0.take(i + 1),
                    t,
                ));
            }
            i = i + 1;
        }
        proof {
            assert(bs0.take(n as int) =~= bs0);
            assert(final(self).buildings@ =~= bs0.map_values(
                (|b: Building| spec_building_after_tick(b, t)),
            ));
        }
    }
}

/// The fixed starting scenario the program is bootstrapped with: a row and
/// column of conveyors and one creator, placed before the driver loop runs.
pub fn scenario_4x_conveyor(world: &mut World)
    requires
        old(world).wf(),
        old(world).idgen.id + 10 <= usize::MAX,
    ensures
        final(world).wf(),
        final(world).physics == old(world).physics,
        final(world).idgen.id == old(world).idgen.id + 10,
        final(world).buildings@.len() == old(world).buildings@.len() + 10,
        forall|j: int|
            0 <= j < old(world).buildings@.len() ==> final(world).buildings@[j] == old(
                world,
            ).buildings@[j],
        forall|k: int|
            0 <= k < 10 ==> final(world).buildings@[old(world).buildings@.len() + k]
                == spec_scenario_building(old(world).idgen.id as nat, k),
        final(world).log.entries().len() == old(world).log.entries().len() + 10,
        forall|j: int|
            0 <= j < old(world).log.entries().len() ==> final(world).log.entries()[j] == old(
                world,
            ).log.entries()[j],
        forall|k: int|
            0 <= k < 10 ==> final(world).log.entries()[old(world).log.entries().len() + k]
                == spec_added_line_of(spec_scenario_building(old(world).idgen.id as nat, k)),
{
    world.add_new_building(BuildingLabel::Conveyor, (18, 12), 0);
    world.add_new_building(BuildingLabel::Conveyor, (19, 12), 1);
    world.add_new_building(BuildingLabel::Conveyor, (20, 12), 0);
    world.add_new_building(BuildingLabel::Conveyor, (21, 12), 0);
    world.add_new_building(BuildingLabel::Conveyor, (21, 11), 0);
    world.add_new_building(BuildingLabel::Conveyor, (21, 10), 0);
    world.add_new_building(BuildingLabel::Creator, (25, 20), 0);
    world.add_new_building(BuildingLabel::Conveyor, (25, 21), 0);
    world.add_new_building(BuildingLabel::Conveyor, (25, 22), 0);
    world.add_new_building(BuildingLabel::Conveyor, (25, 23), 0);
}

/// The `k`-th building the starting scenario creates when the allocator's
/// last-issued identifier was `base` beforehand.
pub open spec fn spec_scenario_building(base: nat, k: int) -> Building {
    let id = (base + 1 + k) as usize;
    if k == 0 {
        Building {
            id,
            label: BuildingLabel::Conveyor,
            coord: (18, 12),
            contains_count: 0,
            contains_max: 8,
        }
    } else if k == 1 {
        Building {
            id,
            label: BuildingLabel::Conveyor,
            coord: (19, 12),
            contains_count: 1,
            contains_max: 8,
        }
    } else if k == 2 {
        Building {
            id,
            label: BuildingLabel::Conveyor,
            coord: (20, 12),
            contains_count: 0,
            contains_max: 8,
        }
    } else if k == 3 {
        Building {
            id,
            label: BuildingLabel::Conveyor,
            coord: (21, 12),
            contains_count: 0,
            contains_max: 8,
        }
    } else if k == 4 {
        Building {
            id,
            label: BuildingLabel::Conveyor,
            coord: (21, 11),
            contains_count: 0,
            contains_max: 8,
        }
    } else if k == 5 {
        Building {
            id,
            label: BuildingLabel::Conveyor,
            coord: (21, 10),
            contains_count: 0,
            contains_max: 8,
        }
    } else if k == 6 {
        Building {
            id,
            label: BuildingLabel::Creator,
            coord: (25, 20),
            contains_count: 0,
            contains_max: 8,
        }
    } else if k == 7 {
        Building {
            id,
            label: BuildingLabel::Conveyor,
            coord: (25, 21),
            contains_count: 0,
            contains_max: 8,
        }
    } else if k == 8 {
        Building {
            id,
            label: BuildingLabel::Conveyor,
            coord: (25, 22),
            contains_count: 0,
            contains_max: 8,
        }
    } else {
        Building {
            id,
            label: BuildingLabel::Conveyor,
            coord: (25, 23),
            contains_count: 0,
            contains_max: 8,
        }
    }
}

/// The log line `World::add_new_building` writes for the given building.
pub open spec fn spec_added_line_of(b: Building) -> Seq<char> {
    spec_added_line(b.id as nat, b.label, b.coord, b.contains_count as nat)
}

} // verus!
