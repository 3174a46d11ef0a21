//! The exact bytes of formatted log lines.

use reflow::logline::log_line;

#[test]
fn line_basic() {
    let line = log_line(0, 10000, 5000);
    assert_eq!(
        line,
        "Time: 0s, Target Temp: 100.00°C, Actual Temp: 50.00°C\n".as_bytes().to_vec()
    );
}

#[test]
fn line_multi_digit_elapsed_and_fractions() {
    let line = log_line(605, 25000, 24975);
    assert_eq!(
        line,
        "Time: 605s, Target Temp: 250.00°C, Actual Temp: 249.75°C\n".as_bytes().to_vec()
    );
}

#[test]
fn line_zero_and_small_temperatures() {
    let line = log_line(3, 0, 7);
    assert_eq!(
        line,
        "Time: 3s, Target Temp: 0.00°C, Actual Temp: 0.07°C\n".as_bytes().to_vec()
    );
}

#[test]
fn line_largest_elapsed() {
    let line = log_line(u64::MAX, 100, 101);
    assert_eq!(
        line,
        "Time: 18446744073709551615s, Target Temp: 1.00°C, Actual Temp: 1.01°C\n"
            .as_bytes()
            .to_vec()
    );
}

#[test]
fn line_largest_temperature() {
    let line = log_line(1, u32::MAX, 2510);
    assert_eq!(
        line,
        "Time: 1s, Target Temp: 42949672.95°C, Actual Temp: 25.10°C\n".as_bytes().to_vec()
    );
}
