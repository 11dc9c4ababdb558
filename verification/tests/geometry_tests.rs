use gife::geometry::{delay_from_fps, resolve_delay, resolve_geometry, Geometry};

#[test]
fn fps_twenty_five_gives_delay_four() {
    assert_eq!(delay_from_fps(25), 4);
}

#[test]
fn fps_three_gives_delay_thirty_three() {
    assert_eq!(delay_from_fps(3), 33);
}

#[test]
fn explicit_delay_seven_stays_seven() {
    assert_eq!(resolve_delay(false, 7), 7);
}

#[test]
fn fps_above_hundred_floors_to_zero() {
    assert_eq!(resolve_delay(true, 120), 0);
}

#[test]
fn fps_hundred_gives_delay_one() {
    assert_eq!(resolve_delay(true, 100), 1);
}

#[test]
fn override_geometry_wins() {
    let g = resolve_geometry(Some(Geometry { width: 50, height: 50 }), 100, 200);
    assert_eq!(g, Geometry { width: 50, height: 50 });
}

#[test]
fn first_frame_sets_geometry() {
    let g = resolve_geometry(None, 100, 50);
    assert_eq!(g, Geometry { width: 100, height: 50 });
}
