use fractalwonder_ui::cycles::{cycle_count_down_by, cycle_count_up_by, is_valid_cycle_count};

#[test]
fn color_options_cycle_count_valid_range() {
    assert!(is_valid_cycle_count(1));
    assert!(is_valid_cycle_count(2));
    assert!(is_valid_cycle_count(3));
    assert!(is_valid_cycle_count(32));
    assert!(is_valid_cycle_count(128));
    assert!(is_valid_cycle_count(500));
    assert!(is_valid_cycle_count(1024));
    assert!(!is_valid_cycle_count(0));
    assert!(!is_valid_cycle_count(1025));
    assert!(!is_valid_cycle_count(2048));
}

#[test]
fn color_options_cycle_up_down_linear() {
    let mut c = 10;
    c = cycle_count_up_by(c, 1);
    assert_eq!(c, 11);
    c = cycle_count_down_by(c, 1);
    assert_eq!(c, 10);
    c = cycle_count_up_by(c, 50);
    assert_eq!(c, 60);
    c = cycle_count_down_by(c, 50);
    assert_eq!(c, 10);
}

#[test]
fn color_options_cycle_upper_bound() {
    let mut c = 1020;
    c = cycle_count_up_by(c, 50);
    assert_eq!(c, 1024);
    c = cycle_count_up_by(c, 1);
    assert_eq!(c, 1024);
}

#[test]
fn color_options_cycle_lower_bound() {
    let mut c = 30;
    c = cycle_count_down_by(c, 50);
    assert_eq!(c, 1);
    c = cycle_count_down_by(c, 1);
    assert_eq!(c, 1);
}
