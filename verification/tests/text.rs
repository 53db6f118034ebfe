use combat_engine::text::{decimal_string, health_line, level_up_line, reward_line};

#[test]
fn decimal_renders_single_digits() {
    assert_eq!(decimal_string(0), "0");
    assert_eq!(decimal_string(7), "7");
    assert_eq!(decimal_string(9), "9");
}

#[test]
fn decimal_renders_many_digits() {
    assert_eq!(decimal_string(10), "10");
    assert_eq!(decimal_string(30), "30");
    assert_eq!(decimal_string(700), "700");
    assert_eq!(decimal_string(12345), "12345");
    assert_eq!(decimal_string(u64::MAX), "18446744073709551615");
}

#[test]
fn combat_lines_read_as_expected() {
    assert_eq!(health_line(10), "Health: 10");
    assert_eq!(health_line(0), "Health: 0");
    assert_eq!(reward_line(30), "Earned: 30 exp");
    assert_eq!(level_up_line(), "Level up!");
}
