//! The booking record's own behavior.

use elkato::data::Booking;

fn booking(start: i64, end: i64) -> Booking {
    Booking {
        id: "1".to_string(),
        resource: "Car A".to_string(),
        user: "alice".to_string(),
        start,
        end,
        description: None,
    }
}

#[test]
fn active_inside_window_and_at_both_ends() {
    let b = booking(100, 200);
    assert!(b.is_active(100));
    assert!(b.is_active(150));
    assert!(b.is_active(200));
}

#[test]
fn inactive_outside_window() {
    let b = booking(100, 200);
    assert!(!b.is_active(99));
    assert!(!b.is_active(201));
}
