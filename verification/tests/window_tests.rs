use backend_supervisor::window::spotlight_position;

#[test]
fn centered_on_a_common_monitor() {
    let (x, y) = spotlight_position(1920, 1080, 600, 200);
    assert_eq!(x, 660); // (1920 - 600) / 2
    assert_eq!(y, 170); // 1080 / 4 - 200 / 2
}

#[test]
fn panel_wider_than_monitor_goes_negative() {
    let (x, y) = spotlight_position(400, 300, 600, 400);
    assert_eq!(x, -100);
    assert_eq!(y, -125);
}

#[test]
fn division_truncates_toward_zero() {
    let (x, _) = spotlight_position(5, 100, 2, 10);
    assert_eq!(x, 1);
    let (x2, _) = spotlight_position(2, 100, 5, 10);
    assert_eq!(x2, -1);
}
