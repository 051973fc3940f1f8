//! The schedule of the Warp effect's corners: each corner of the cursor
//! travels from the old position to the new one on its own schedule, and
//! the corners facing the direction of travel arrive first, stretching
//! the cursor into a quad.
use vstd::prelude::*;

verus! {

/// How long a corner takes to arrive
#[derive(Debug, Clone, Copy, PartialEq, Eq, Structural)]
pub enum WarpSchedule {
    /// Arrives first: the duration shortened by the trail size
    Lead,
    /// Half way between `Lead` and `Trail`
    Side,
    /// Arrives last, after the whole duration
    Trail,
}

/// How much corner `i` faces the direction of travel `(sx, sy)`: the dot
/// product of the travel with the corner's direction from the cursor's
/// center, the corners being top-left `(-1, -1)`, top-right `(1, -1)`,
/// bottom-right `(1, 1)` and bottom-left `(-1, 1)` (y points down)
pub open spec fn facing(i: int, sx: int, sy: int) -> int {
    if i == 0 {
        -sx - sy
    } else if i == 1 {
        sx - sy
    } else if i == 2 {
        sx + sy
    } else {
        -sx + sy
    }
}

/// The schedule for a corner that faces the travel by `twice_dot / 2`:
/// facing it (at least one half) leads, facing across it (within one
/// half) goes along the side, facing away trails.
pub open spec fn schedule_for_twice(twice_dot: int) -> WarpSchedule {
    if twice_dot >= 1 {
        WarpSchedule::Lead
    } else if twice_dot >= -1 {
        WarpSchedule::Side
    } else {
        WarpSchedule::Trail
    }
}

/// The schedules of the four corners (top-left, top-right, bottom-right,
/// bottom-left) for travel in the direction of the signs `(sx, sy)`.
/// On a horizontal component of the travel, the two corners of the side
/// that faces it share the schedule of that side as a whole.
pub open spec fn spec_corner_schedules(sx: int, sy: int) -> Seq<WarpSchedule> {
    let own0 = schedule_for_twice(2 * facing(0, sx, sy));
    let own1 = schedule_for_twice(2 * facing(1, sx, sy));
    let own2 = schedule_for_twice(2 * facing(2, sx, sy));
    let own3 = schedule_for_twice(2 * facing(3, sx, sy));
    let right_rail = schedule_for_twice(facing(1, sx, sy) + facing(2, sx, sy));
    let left_rail = schedule_for_twice(facing(0, sx, sy) + facing(3, sx, sy));
    if sx > 0 {
        seq![own0, right_rail, right_rail, own3]
    } else if sx < 0 {
        seq![left_rail, own1, own2, left_rail]
    } else {
        seq![own0, own1, own2, own3]
    }
}

fn schedule_for_twice_exec(twice_dot: i8) -> (r: WarpSchedule)
    ensures
        r == schedule_for_twice(twice_dot as int),
{
    if twice_dot >= 1 {
        WarpSchedule::Lead
    } else if twice_dot >= -1 {
        WarpSchedule::Side
    } else {
        WarpSchedule::Trail
    }
}

/// The schedules of the four corners for travel in the direction of the
/// signs `sx` and `sy` (each -1, 0 or 1) of the move's horizontal and
/// vertical components.
pub fn corner_schedules(sx: i8, sy: i8) -> (r: [WarpSchedule; 4])
    requires
        -1 <= sx <= 1,
        -1 <= sy <= 1,
    ensures
        r@ == spec_corner_schedules(sx as int, sy as int),
{
    let d0: i8 = -sx - sy;
    let d1: i8 = sx - sy;
    let d2: i8 = sx + sy;
    let d3: i8 = -sx + sy;
    let own0 = schedule_for_twice_exec(2 * d0);
    let own1 = schedule_for_twice_exec(2 * d1);
    let own2 = schedule_for_twice_exec(2 * d2);
    let own3 = schedule_for_twice_exec(2 * d3);
    let right_rail = schedule_for_twice_exec(d1 + d2);
    let left_rail = schedule_for_twice_exec(d0 + d3);
    let r = if sx > 0 {
        [own0, right_rail, right_rail, own3]
    } else if sx < 0 {
        [left_rail, own1, own2, left_rail]
    } else {
        [own0, own1, own2, own3]
    };
    assert(r@ =~= spec_corner_schedules(sx as int, sy as int));
    r
}

/// The rank of a schedule: lower arrives earlier
pub open spec fn rank(s: WarpSchedule) -> int {
    match s {
        WarpSchedule::Lead => 0,
        WarpSchedule::Side => 1,
        WarpSchedule::Trail => 2,
    }
}

/// Corners that face the direction of travel more never arrive after
/// corners that face it less, and on a move with a horizontal component
/// the two corners of the side facing it move together.
pub proof fn leading_corners_arrive_first(sx: int, sy: int, i: int, j: int)
    requires
        -1 <= sx <= 1,
        -1 <= sy <= 1,
        0 <= i < 4,
        0 <= j < 4,
    ensures
        facing(i, sx, sy) > facing(j, sx, sy) ==> rank(spec_corner_schedules(sx, sy)[i]) <= rank(
            spec_corner_schedules(sx, sy)[j],
        ),
        sx > 0 ==> spec_corner_schedules(sx, sy)[1] == spec_corner_schedules(sx, sy)[2],
        sx < 0 ==> spec_corner_schedules(sx, sy)[0] == spec_corner_schedules(sx, sy)[3],
{
}

/// Each corner's schedule follows from how much it faces the travel: a
/// corner facing it leads, one facing across it goes along the side, and
/// one facing away trails.  On a move with a horizontal component the two
/// corners of the side facing it lead together, whatever the vertical
/// component; the other two corners keep their own schedules.
pub proof fn corners_follow_their_facing(sx: int, sy: int, i: int)
    requires
        -1 <= sx <= 1,
        -1 <= sy <= 1,
        0 <= i < 4,
    ensures
        ({
            let r = spec_corner_schedules(sx, sy);
            let on_rail = (sx > 0 && (i == 1 || i == 2)) || (sx < 0 && (i == 0 || i == 3));
            &&& r.len() == 4
            &&& on_rail ==> r[i] == WarpSchedule::Lead
            &&& !on_rail && facing(i, sx, sy) > 0 ==> r[i] == WarpSchedule::Lead
            &&& !on_rail && facing(i, sx, sy) == 0 ==> r[i] == WarpSchedule::Side
            &&& !on_rail && facing(i, sx, sy) < 0 ==> r[i] == WarpSchedule::Trail
        }),
{
}

} // verus!
