use reqlog::event::format_u64;
use reqlog::LogEvent;

#[test]
fn decimal_single_digits() {
    assert_eq!(format_u64(0), "0");
    assert_eq!(format_u64(5), "5");
    assert_eq!(format_u64(9), "9");
}

#[test]
fn decimal_multiple_digits() {
    assert_eq!(format_u64(10), "10");
    assert_eq!(format_u64(42), "42");
    assert_eq!(format_u64(105), "105");
    assert_eq!(format_u64(1000), "1000");
    assert_eq!(format_u64(90210), "90210");
}

#[test]
fn decimal_largest_value() {
    assert_eq!(format_u64(u64::MAX), "18446744073709551615");
}

#[test]
fn start_line_rendering() {
    let e = LogEvent::Start { method: String::from("GET"), path: String::from("/") };
    assert_eq!(e.render(), "start processing request GET /");
}

#[test]
fn complete_line_rendering() {
    let e = LogEvent::Complete {
        method: String::from("GET"),
        path: String::from("/"),
        elapsed_ms: 0,
    };
    assert_eq!(e.render(), "complete processing request GET / in 0ms");
}

#[test]
fn complete_line_rendering_long_path() {
    let e = LogEvent::Complete {
        method: String::from("POST"),
        path: String::from("/jobs/17/run"),
        elapsed_ms: 5021,
    };
    assert_eq!(e.render(), "complete processing request POST /jobs/17/run in 5021ms");
}
