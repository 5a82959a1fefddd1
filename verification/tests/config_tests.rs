use pty_session::config::PtyDimensions;
use pty_session::errors::SessionError;

#[test]
fn standard_size_is_twenty_four_by_eighty() {
    let d = PtyDimensions::standard();
    assert_eq!(d.rows(), 24);
    assert_eq!(d.cols(), 80);
    assert_eq!(d.pixel_width(), 0);
    assert_eq!(d.pixel_height(), 0);
}

#[test]
fn explicit_size_keeps_its_values() {
    let d = PtyDimensions::new(40, 120, 640, 480).unwrap();
    assert_eq!(d.rows(), 40);
    assert_eq!(d.cols(), 120);
    assert_eq!(d.pixel_width(), 640);
    assert_eq!(d.pixel_height(), 480);
}

#[test]
fn degenerate_size_is_a_spawn_failure() {
    assert_eq!(PtyDimensions::new(0, 80, 0, 0), Err(SessionError::Spawn));
    assert_eq!(PtyDimensions::new(24, 0, 0, 0), Err(SessionError::Spawn));
}
