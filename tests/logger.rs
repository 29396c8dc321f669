use record_usage::logger::{log_line, Entry, LocalTime, Log, Logger};

fn at(second: u16) -> LocalTime {
    LocalTime { year: 2024, month: 3, day: 7, hour: 9, minute: 5, second }
}

fn s(x: &str) -> String {
    x.to_string()
}

#[test]
fn three_samples_leave_one_finalized_entry() {
    let mut logger = Logger::new(10, 15, at(0));
    assert!(logger.add_entry(at(1), s("A"), s("cmdA")).is_empty());
    assert!(logger.add_entry(at(2), s("A"), s("cmdA")).is_empty());
    assert!(logger.add_entry(at(3), s("B"), s("cmdB")).is_empty());
    let pending = logger.pending_entries();
    assert_eq!(pending.len(), 1);
    assert_eq!(pending[0].duration_in_seconds, 20);
    assert_eq!(pending[0].window_title, "A");
    assert_eq!(pending[0].command_line, "cmdA");
    let current = logger.current_entry();
    assert_eq!(current.duration_in_seconds, 10);
    assert_eq!(current.window_title, "B");
    assert_eq!(current.command_line, "cmdB");
    let written = logger.flush(at(4));
    assert_eq!(written.len(), 2);
    assert_eq!(written[0].duration_in_seconds, 20);
    assert_eq!(written[0].window_title, "A");
    assert_eq!(written[0].command_line, "cmdA");
    assert_eq!(written[0].timestamp, at(1));
    assert_eq!(written[1].duration_in_seconds, 10);
    assert_eq!(written[1].window_title, "B");
    assert_eq!(written[1].command_line, "cmdB");
    assert_eq!(written[1].timestamp, at(3));
}

#[test]
fn ninety_identical_samples_flush_one_long_entry() {
    let mut logger = Logger::new(10, 15, at(0));
    for i in 0..89 {
        let written = logger.add_entry(at(1), s("A"), s("cmdA"));
        assert!(written.is_empty(), "no flush before sample {}", i + 1);
    }
    let written = logger.add_entry(at(2), s("A"), s("cmdA"));
    assert_eq!(written.len(), 1);
    assert_eq!(written[0].duration_in_seconds, 900);
    assert_eq!(written[0].window_title, "A");
    assert_eq!(written[0].timestamp, at(1));
    assert!(logger.pending_entries().is_empty());
    assert_eq!(logger.current_entry().duration_in_seconds, 0);
    // The ninety-first, different sample starts a fresh entry.
    assert!(logger.add_entry(at(3), s("B"), s("cmdB")).is_empty());
    assert!(logger.pending_entries().is_empty());
    assert_eq!(logger.current_entry().window_title, "B");
    assert_eq!(logger.current_entry().duration_in_seconds, 10);
    let rest = logger.flush(at(4));
    assert_eq!(rest.len(), 1);
    assert_eq!(rest[0].duration_in_seconds, 10);
    assert_eq!(rest[0].window_title, "B");
    assert_eq!(rest[0].timestamp, at(3));
}

#[test]
fn identical_samples_make_one_entry_of_interval_times_count() {
    let mut logger = Logger::new(5, 60, at(0));
    for _ in 0..7 {
        assert!(logger.add_entry(at(1), s("editor"), s("vim notes.txt")).is_empty());
    }
    let written = logger.flush(at(2));
    assert_eq!(written.len(), 1);
    assert_eq!(written[0].duration_in_seconds, 35);
}

#[test]
fn one_entry_per_run_in_arrival_order() {
    let mut logger = Logger::new(10, 60, at(0));
    let samples = [("A", "a"), ("A", "a"), ("B", "b"), ("A", "a"), ("A", "b"), ("A", "b"), ("A", "b")];
    for (t, c) in samples.iter() {
        assert!(logger.add_entry(at(1), s(t), s(c)).is_empty());
    }
    let written = logger.flush(at(2));
    let got: Vec<(String, String, u64)> = written
        .iter()
        .map(|e| (e.window_title.clone(), e.command_line.clone(), e.duration_in_seconds))
        .collect();
    assert_eq!(
        got,
        vec![
            (s("A"), s("a"), 20),
            (s("B"), s("b"), 10),
            (s("A"), s("a"), 10),
            (s("A"), s("b"), 30),
        ]
    );
}

#[test]
fn empty_command_line_still_counts_as_a_sample() {
    let mut logger = Logger::new(10, 60, at(0));
    logger.add_entry(at(1), s("A"), s(""));
    logger.add_entry(at(2), s("A"), s(""));
    let written = logger.flush(at(3));
    assert_eq!(written.len(), 1);
    assert_eq!(written[0].duration_in_seconds, 20);
    assert_eq!(written[0].command_line, "");
}

#[test]
fn last_entry_is_the_latest_sample() {
    let mut logger = Logger::new(10, 15, at(0));
    assert_eq!(logger.get_last_entry(), (s(""), s("")));
    logger.add_entry(at(1), s("A"), s("cmdA"));
    assert_eq!(logger.get_last_entry(), (s("A"), s("cmdA")));
    logger.add_entry(at(2), s("A"), s("cmdA"));
    assert_eq!(logger.get_last_entry(), (s("A"), s("cmdA")));
    logger.add_entry(at(3), s("B"), s("cmdB"));
    assert_eq!(logger.get_last_entry(), (s("B"), s("cmdB")));
}

#[test]
fn last_entry_survives_a_flush() {
    // A threshold of one sample: every sample flushes.
    let mut logger = Logger::new(60, 1, at(0));
    let written = logger.add_entry(at(1), s("A"), s("cmdA"));
    assert_eq!(written.len(), 1);
    assert_eq!(logger.get_last_entry(), (s("A"), s("cmdA")));
}

#[test]
fn log_trait_records_and_reads_back() {
    let mut logger = Logger::new(10, 15, at(0));
    Log::log(&mut logger, at(1), s("T"), s("C"));
    assert_eq!(Log::get_last_entry(&logger), (s("T"), s("C")));
}

#[test]
fn flush_leaves_empty_batch_and_zero_duration_entry() {
    let mut logger = Logger::new(10, 15, at(0));
    logger.add_entry(at(1), s("A"), s("cmdA"));
    logger.add_entry(at(2), s("B"), s("cmdB"));
    let written = logger.flush(at(9));
    assert_eq!(written.len(), 2);
    // Nothing pending now but the zero-duration entry stamped at the flush.
    let again = logger.flush(at(10));
    assert_eq!(again.len(), 1);
    assert_eq!(again[0].duration_in_seconds, 0);
    assert_eq!(again[0].window_title, "");
    assert_eq!(again[0].command_line, "");
    assert_eq!(again[0].timestamp, at(9));
}

#[test]
fn zero_flush_interval_flushes_every_sample() {
    let mut logger = Logger::new(10, 0, at(0));
    let w1 = logger.add_entry(at(1), s("A"), s("a"));
    assert_eq!(w1.len(), 1);
    assert_eq!(w1[0].duration_in_seconds, 10);
    let w2 = logger.add_entry(at(2), s("A"), s("a"));
    assert_eq!(w2.len(), 1);
    assert_eq!(w2[0].duration_in_seconds, 10);
}

#[test]
fn flush_threshold_rounds_down() {
    // 1 minute over 7 seconds: 8 samples.
    let mut logger = Logger::new(7, 1, at(0));
    for _ in 0..7 {
        assert!(logger.add_entry(at(1), s("A"), s("a")).is_empty());
    }
    let written = logger.add_entry(at(1), s("A"), s("a"));
    assert_eq!(written.len(), 1);
    assert_eq!(written[0].duration_in_seconds, 56);
}

#[test]
fn largest_flush_interval_does_not_overflow() {
    let mut logger = Logger::new(1, u32::MAX, at(0));
    for _ in 0..3 {
        assert!(logger.add_entry(at(1), s("A"), s("a")).is_empty());
    }
    assert_eq!(logger.flush(at(2))[0].duration_in_seconds, 3);
}

#[test]
fn log_line_format() {
    let entry = Entry {
        timestamp: LocalTime { year: 2018, month: 1, day: 9, hour: 0, minute: 7, second: 30 },
        duration_in_seconds: 900,
        window_title: s("Inbox, 3 unread - Mail"),
        command_line: s("\"C:\\mail.exe\" /x"),
    };
    assert_eq!(log_line(&entry), "2018-1-9 0:7:30, 900, \"C:\\mail.exe\" /x, Inbox, 3 unread - Mail\n");
}

#[test]
fn log_line_of_zero_duration_entry() {
    let entry = Entry {
        timestamp: LocalTime { year: 65535, month: 12, day: 31, hour: 23, minute: 59, second: 59 },
        duration_in_seconds: 0,
        window_title: s(""),
        command_line: s(""),
    };
    assert_eq!(log_line(&entry), "65535-12-31 23:59:59, 0, , \n");
}

#[test]
fn log_line_large_duration() {
    let entry = Entry {
        timestamp: at(0),
        duration_in_seconds: u64::MAX,
        window_title: s("t"),
        command_line: s("c"),
    };
    assert_eq!(log_line(&entry), "2024-3-7 9:5:0, 18446744073709551615, c, t\n");
}
