//! The laws the simulation obeys, stated and proved over the spec model.

use vstd::prelude::*;

use vstd::arithmetic::div_mod::lemma_fundamental_div_mod;
use vstd::arithmetic::div_mod::lemma_fundamental_div_mod_converse;

use crate::building::Building;
use crate::building::BuildingLabel;
use crate::world::World;
use crate::world::spec_building_after_tick;
use crate::world::spec_building_tick_lines;
use crate::world::spec_buildings_tick_lines;
use crate::world::spec_incremented_line;
use crate::world::spec_skipped_line;

verus! {

/// Monotonic identity: within a well-formed world, building identifiers
/// are strictly increasing in creation order, so no identifier is ever
/// repeated. Together with `World::add_new_building`'s postcondition —
/// the returned identifier exceeds every identifier issued before — this
/// gives that any sequence of creations returns strictly increasing,
/// never-repeating identifiers.
pub proof fn lemma_monotonic_identity(w: World)
    requires
        w.wf(),
    ensures
        forall|i: int, j: int|
            0 <= i < j < w.buildings@.len() ==> w.buildings@[i].id < w.buildings@[j].id,
        forall|i: int, j: int|
            0 <= i < j < w.buildings@.len() ==> w.buildings@[i].id != w.buildings@[j].id,
{
}

/// Capacity bound: in a well-formed world every building's resource count
/// lies between 0 and its capacity. Since `World::new`,
/// `World::add_new_building`, and `World::tick_world` all ensure
/// well-formedness, no sequence of ticks can violate the bound.
pub proof fn lemma_capacity_bound(w: World)
    requires
        w.wf(),
    ensures
        forall|i: int|
            0 <= i < w.buildings@.len() ==> 0 <= (#[trigger] w.buildings@[i]).contains_count
                <= w.buildings@[i].contains_max,
{
}

/// One tick never breaks a building's capacity bound, and never touches
/// its identifier, role, coordinate, or capacity.
pub proof fn lemma_tick_preserves_building(b: Building, t: nat)
    requires
        b.wf(),
    ensures
        spec_building_after_tick(b, t).wf(),
        spec_building_after_tick(b, t).id == b.id,
        spec_building_after_tick(b, t).label == b.label,
        spec_building_after_tick(b, t).coord == b.coord,
        spec_building_after_tick(b, t).contains_max == b.contains_max,
{
}

/// A building after the first `n` ticks of a fresh world: the tick rule
/// applied at ticks 1, 2, ..., n in order.
pub open spec fn spec_run_building(b: Building, n: nat) -> Building
    decreases n,
{
    if n == 0 {
        b
    } else {
        spec_building_after_tick(spec_run_building(b, (n - 1) as nat), n)
    }
}

/// Running ticks never changes a building's identifier, role, coordinate,
/// or capacity, and keeps it within capacity.
pub proof fn lemma_run_building_fixed_fields(b: Building, n: nat)
    requires
        b.wf(),
    ensures
        spec_run_building(b, n).id == b.id,
        spec_run_building(b, n).label == b.label,
        spec_run_building(b, n).coord == b.coord,
        spec_run_building(b, n).contains_max == b.contains_max,
        spec_run_building(b, n).wf(),
    decreases n,
{
    if n > 0 {
        lemma_run_building_fixed_fields(b, (n - 1) as nat);
    }
}

/// When `n >= 1`, stepping the tick number back by one steps the count of
/// elapsed due ticks (multiples of 25) down exactly when `n` is itself
/// a multiple of 25.
proof fn lemma_due_tick_quotient_step(n: nat)
    requires
        n >= 1,
    ensures
        n % 25 == 0 ==> n / 25 == (n - 1) as nat / 25 + 1,
        n % 25 != 0 ==> n / 25 == (n - 1) as nat / 25,
{
    lemma_fundamental_div_mod(n as int, 25);
    let q = n as int / 25;
    let r = n as int % 25;
    if r == 0 {
        lemma_fundamental_div_mod_converse(n - 1, 25, q - 1, 24);
    } else {
        lemma_fundamental_div_mod_converse(n - 1, 25, q, r - 1);
    }
}

/// Creator accumulation schedule: a creator that starts empty holds, after
/// `n` ticks, one resource per elapsed due tick (every 25th), saturating
/// at its capacity. In particular, with capacity 8 it holds `k` resources
/// from tick `25 * k` on for `k <= 8`, and stays at 8 from tick 200 onward.
pub proof fn lemma_creator_accumulation_schedule(b: Building, n: nat)
    requires
        b.label == BuildingLabel::Creator,
        b.contains_count == 0,
    ensures
        spec_run_building(b, n).contains_count as nat == if n / 25 < b.contains_max as nat {
            n / 25
        } else {
            b.contains_max as nat
        },
    decreases n,
{
    if n > 0 {
        lemma_creator_accumulation_schedule(b, (n - 1) as nat);
        lemma_run_building_fixed_fields(b, (n - 1) as nat);
        lemma_due_tick_quotient_step(n);
    }
}

/// Dual-path logging, per building and tick: on a due tick a creator
/// contributes exactly one log line — the "incremented" line with its new
/// count when it was below capacity, or the "skipped" line with its count
/// and capacity when it already sat at capacity — and contributes no line
/// at all on a tick that is not due or when it is not a creator. An
/// observer can therefore tell "nothing could happen" apart from "this
/// tick was not due".
pub proof fn lemma_dual_path_logging(b: Building, t: nat)
    ensures
        (b.label == BuildingLabel::Creator && t % 25 == 0 && b.contains_count
            < b.contains_max) ==> spec_building_tick_lines(b, t) =~= seq![
            spec_incremented_line(b.id as nat, (b.contains_count + 1) as nat),
        ],
        (b.label == BuildingLabel::Creator && t % 25 == 0 && b.contains_count
            >= b.contains_max) ==> spec_building_tick_lines(b, t) =~= seq![
            spec_skipped_line(b.id as nat, b.contains_count as nat, b.contains_max as nat),
        ],
        (b.label != BuildingLabel::Creator || t % 25 != 0) ==> spec_building_tick_lines(b, t)
            =~= Seq::<Seq<char>>::empty(),
        spec_building_tick_lines(b, t).len() <= 1,
{
}

/// In a world holding a single building, the per-building lines of a tick
/// are exactly that building's lines.
pub proof fn lemma_single_building_tick_lines(b: Building, t: nat)
    ensures
        spec_buildings_tick_lines(seq![b], t) =~= spec_building_tick_lines(b, t),
{
    let s = seq![b];
    assert(s.last() == b);
    assert(s.drop_last() =~= Seq::<Building>::empty());
    assert(spec_buildings_tick_lines(s.drop_last(), t) =~= Seq::<Seq<char>>::empty());
    assert(spec_buildings_tick_lines(s, t) == spec_buildings_tick_lines(s.drop_last(), t)
        + spec_building_tick_lines(b, t));
}

} // verus!
