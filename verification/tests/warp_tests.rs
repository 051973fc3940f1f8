use cursor_anim::warp::{corner_schedules, WarpSchedule};
use WarpSchedule::{Lead, Side, Trail};

#[test]
fn warp_schedule_moving_right() {
    // Both right corners lead; the left side trails.
    assert_eq!(corner_schedules(1, 0), [Trail, Lead, Lead, Trail]);
}

#[test]
fn warp_schedule_moving_left() {
    assert_eq!(corner_schedules(-1, 0), [Lead, Trail, Trail, Lead]);
}

#[test]
fn warp_schedule_moving_down() {
    // TL, TR face away; BR, BL face the travel.
    assert_eq!(corner_schedules(0, 1), [Trail, Trail, Lead, Lead]);
}

#[test]
fn warp_schedule_moving_up() {
    assert_eq!(corner_schedules(0, -1), [Lead, Lead, Trail, Trail]);
}

#[test]
fn warp_schedule_diagonal_down_right() {
    // The right rail leads as a whole; BL goes along the side.
    assert_eq!(corner_schedules(1, 1), [Trail, Lead, Lead, Side]);
}

#[test]
fn warp_schedule_diagonal_up_left() {
    assert_eq!(corner_schedules(-1, -1), [Lead, Side, Trail, Lead]);
}

#[test]
fn warp_schedule_standing_still() {
    assert_eq!(corner_schedules(0, 0), [Side, Side, Side, Side]);
}
