use loggen::config::Config;
use loggen::gen::{config_in_range, fill_file, file_name, generate};
use loggen::template::render_line;

/// The line the template set prescribes, rebuilt independently with
/// chrono formatting the instant.
fn expected_line(at_ms: i64, template: u64, counter: u64) -> String {
    let ts = chrono::DateTime::<chrono::Utc>::from_timestamp_millis(at_ms)
        .unwrap()
        .format("%Y-%m-%d %H:%M:%S")
        .to_string();
    let middle = match template {
        0 => "TRACE This is a trace message. Its line number ",
        1 => "DEBUG This is a debug message. Its line number ",
        2 => "INFO This is an info message. Its line number ",
        3 => "WARN This is a warning message. Its line number ",
        _ => "ERROR This is an error message. Its line number ",
    };
    format!("{} {}{}\n", ts, middle, counter)
}

fn scenario_config() -> Config {
    Config {
        out_dir: String::from("out"),
        lines: 5,
        rotations: 1,
        begin_s: 0,
        end_s: 1000000,
        maxgap_ms: 100000,
    }
}

#[test]
fn base_file_name() {
    assert_eq!(file_name(0), "testlog.log");
}

#[test]
fn rotated_file_names() {
    assert_eq!(file_name(1), "testlog.log.1");
    assert_eq!(file_name(12), "testlog.log.12");
}

#[test]
fn renders_epoch_info_line() {
    let line = render_line(0, 2, 7);
    assert_eq!(line, "1970-01-01 00:00:00 INFO This is an info message. Its line number 7\n");
}

#[test]
fn renders_each_severity() {
    assert_eq!(
        render_line(0, 0, 0),
        "1970-01-01 00:00:00 TRACE This is a trace message. Its line number 0\n"
    );
    assert_eq!(
        render_line(0, 1, 0),
        "1970-01-01 00:00:00 DEBUG This is a debug message. Its line number 0\n"
    );
    assert_eq!(
        render_line(0, 3, 0),
        "1970-01-01 00:00:00 WARN This is a warning message. Its line number 0\n"
    );
    assert_eq!(
        render_line(0, 4, 0),
        "1970-01-01 00:00:00 ERROR This is an error message. Its line number 0\n"
    );
}

#[test]
fn timestamp_floors_to_the_second() {
    let line = render_line(1000123, 0, 1);
    assert_eq!(line, "1970-01-01 00:16:40 TRACE This is a trace message. Its line number 1\n");
}

#[test]
fn timestamp_before_the_epoch() {
    let line = render_line(-1, 0, 1);
    assert_eq!(line, "1969-12-31 23:59:59 TRACE This is a trace message. Its line number 1\n");
}

#[test]
fn fill_file_counts_and_gaps() {
    let (entries, cursor) = fill_file(5, 3, 100000, 1000000000, 0);
    assert!(1 <= entries.len() && entries.len() <= 5);
    for (i, e) in entries.iter().enumerate() {
        assert_eq!(e.counter, 3 * 5 + i as u64);
        assert!(e.template < 5);
        assert_eq!(e.text, expected_line(e.at_ms, e.template, e.counter));
        if i > 0 {
            let gap = e.at_ms - entries[i - 1].at_ms;
            assert!(0 <= gap && gap < 100000);
        }
    }
    assert_eq!(entries[0].at_ms, 0);
    assert!(cursor >= entries[entries.len() - 1].at_ms);
}

#[test]
fn machine_range_check() {
    assert!(config_in_range(&scenario_config()));
    let mut zero_gap = scenario_config();
    zero_gap.maxgap_ms = 0;
    assert!(!config_in_range(&zero_gap));
    let mut inverted = scenario_config();
    inverted.begin_s = 2000000;
    assert!(!config_in_range(&inverted));
}

#[test]
fn run_creates_rotations_plus_one_files() {
    let mut cfg = scenario_config();
    cfg.rotations = 2;
    let files = generate(&cfg);
    assert_eq!(files.len(), 3);
    assert_eq!(files[0].name, "testlog.log.2");
    assert_eq!(files[1].name, "testlog.log.1");
    assert_eq!(files[2].name, "testlog.log");
}

#[test]
fn scenario_two_files_window_and_counters() {
    let cfg = scenario_config();
    let files = generate(&cfg);
    assert_eq!(files.len(), 2);
    assert_eq!(files[0].name, "testlog.log.1");
    assert_eq!(files[1].name, "testlog.log");

    // The window is wide enough for every possible gap, so neither
    // file is truncated.
    assert_eq!(files[0].entries.len(), 5);
    assert_eq!(files[1].entries.len(), 5);

    // Counters run 5..=9 in the rotated file and 0..=4 in the base
    // file under the high-to-low processing order.
    for (i, e) in files[0].entries.iter().enumerate() {
        assert_eq!(e.counter, 5 + i as u64);
    }
    for (i, e) in files[1].entries.iter().enumerate() {
        assert_eq!(e.counter, i as u64);
    }

    // Timestamps start at the window begin, never decrease across the
    // whole run, stay inside the window, and consecutive gaps are
    // bounded by the configured maximum.
    assert_eq!(files[0].entries[0].at_ms, 0);
    let mut prev = 0i64;
    for f in &files {
        for e in &f.entries {
            assert!(e.at_ms >= prev);
            let gap = e.at_ms - prev;
            assert!(0 <= gap && gap < 100000);
            assert!(0 <= e.at_ms && e.at_ms <= 1000000 * 1000);
            assert_eq!(e.text, expected_line(e.at_ms, e.template, e.counter));
            prev = e.at_ms;
        }
    }
}

#[test]
fn zero_gap_bound_of_one_is_deterministic() {
    let cfg = Config {
        out_dir: String::from("out"),
        lines: 3,
        rotations: 2,
        begin_s: 0,
        end_s: 0,
        maxgap_ms: 1,
    };
    let files = generate(&cfg);
    assert_eq!(files.len(), 3);
    let expected_counters = [[6u64, 7, 8], [3, 4, 5], [0, 1, 2]];
    for (k, f) in files.iter().enumerate() {
        assert_eq!(f.entries.len(), 3);
        for (i, e) in f.entries.iter().enumerate() {
            assert_eq!(e.at_ms, 0);
            assert_eq!(e.counter, expected_counters[k][i]);
            assert_eq!(e.text, expected_line(0, e.template, e.counter));
        }
    }
}

#[test]
fn zero_lines_yields_empty_files() {
    let mut cfg = scenario_config();
    cfg.lines = 0;
    cfg.rotations = 2;
    let files = generate(&cfg);
    assert_eq!(files.len(), 3);
    for f in &files {
        assert_eq!(f.entries.len(), 0);
    }
}

#[test]
fn truncation_leaves_at_most_one_line_in_later_files() {
    // A window of a single instant with a wide gap bound: the first
    // file is almost surely cut short, and every file after the first
    // truncation holds at most one entry.
    let cfg = Config {
        out_dir: String::from("out"),
        lines: 50,
        rotations: 3,
        begin_s: 0,
        end_s: 0,
        maxgap_ms: 1000,
    };
    let files = generate(&cfg);
    assert_eq!(files.len(), 4);
    let mut truncated = false;
    for f in &files {
        assert!(f.entries.len() >= 1);
        assert!(f.entries.len() <= 50);
        if truncated {
            assert_eq!(f.entries.len(), 1);
        }
        if f.entries.len() < 50 {
            truncated = true;
        }
    }
}
