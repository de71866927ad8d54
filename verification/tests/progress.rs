use turbopack_cli_dev::profile::{
    profile_timeout, ProfileAction, ProfileEvent, PROFILE_EXIT_TIMEOUT_SECS,
};
use turbopack_cli_dev::progress::{Duration, Output, ProgressReporter, UpdateInfo};

fn update(secs: u64, nanos: u32, reasons: Option<&str>) -> Option<UpdateInfo> {
    Some(UpdateInfo {
        duration: Duration { secs, nanos },
        duration_text: "1.5s".to_string(),
        tasks: 120,
        reasons: reasons.map(|reasons| reasons.to_string()),
    })
}

fn line(output: Output) -> String {
    match output {
        Output::Line(text) => text,
        _ => panic!("not a line"),
    }
}

fn status(output: Output) -> String {
    match output {
        Output::Status(text) => text,
        _ => panic!("not a status"),
    }
}

#[test]
fn first_compilation_is_told_with_details() {
    assert_eq!(
        line(ProgressReporter::new(true).on_start("2.1s", "5MiB")),
        "\x1b[35mevent\x1b[39m - initial compilation 2.1s (5MiB)"
    );
    assert!(matches!(
        ProgressReporter::new(false).on_start("2.1s", "5MiB"),
        Output::Nothing
    ));
}

#[test]
fn update_with_details_and_reasons() {
    let mut reporter = ProgressReporter::new(true);
    assert_eq!(
        line(reporter.on_event(&update(0, 5, Some("file changed")), "5MiB")),
        "\x1b[2K\x1b[35mevent\x1b[39m - file changed 1.5s (120 tasks, 5MiB)"
    );
}

#[test]
fn update_with_details() {
    let mut reporter = ProgressReporter::new(true);
    assert_eq!(
        line(reporter.on_event(&update(0, 5, None), "5MiB")),
        "\x1b[2K\x1b[35mevent\x1b[39m - compilation 1.5s (120 tasks, 5MiB)"
    );
}

#[test]
fn update_with_reasons() {
    let mut reporter = ProgressReporter::new(false);
    assert_eq!(
        line(reporter.on_event(&update(0, 5, Some("file changed")), "5MiB")),
        "\x1b[2K\x1b[35mevent\x1b[39m - file changed 1.5s"
    );
}

#[test]
fn long_update_is_told() {
    let mut reporter = ProgressReporter::new(false);
    for (secs, nanos) in [(1, 1), (2, 0), (u64::MAX, 999_999_999)] {
        assert_eq!(
            line(reporter.on_event(&update(secs, nanos, None), "5MiB")),
            "\x1b[2K\x1b[35mevent\x1b[39m - compilation 1.5s"
        );
    }
}

#[test]
fn short_update_is_silent() {
    let mut reporter = ProgressReporter::new(false);
    for (secs, nanos) in [(0, 0), (0, 999_999_999), (1, 0)] {
        assert!(matches!(
            reporter.on_event(&update(secs, nanos, None), "5MiB"),
            Output::Nothing
        ));
    }
}

#[test]
fn seconds_without_update_are_counted() {
    let mut reporter = ProgressReporter::new(false);
    for n in 1..=12 {
        assert_eq!(
            status(reporter.on_event(&None, "5MiB")),
            format!("\x1b[2K\x1b[35mevent\x1b[39m - updating for {}s...\r", n)
        );
        assert_eq!(reporter.progress_counter(), n);
    }
    reporter.on_event(&update(0, 0, None), "5MiB");
    assert_eq!(reporter.progress_counter(), 0);
    assert_eq!(
        status(reporter.on_event(&None, "5MiB")),
        "\x1b[2K\x1b[35mevent\x1b[39m - updating for 1s...\r"
    );
}

#[test]
fn seconds_without_update_with_details() {
    let mut reporter = ProgressReporter::new(true);
    assert_eq!(
        status(reporter.on_event(&None, "5MiB")),
        "\x1b[2K\x1b[35mevent\x1b[39m - updating for 1s... (5MiB)\r"
    );
}

#[test]
fn duration_is_compared_exactly() {
    let second = Duration { secs: 1, nanos: 0 };
    assert!(!second.exceeds_secs(1));
    assert!(second.exceeds_secs(0));
    assert!(Duration { secs: 1, nanos: 1 }.exceeds_secs(1));
    assert!(!Duration { secs: 0, nanos: 0 }.exceeds_secs(u64::MAX));
}

#[test]
fn profiled_process_exits_when_idle() {
    assert_eq!(PROFILE_EXIT_TIMEOUT_SECS, 5);
    assert!(matches!(
        profile_timeout::<u8>(ProfileEvent::Timeout { in_progress: 0 }),
        ProfileAction::Exit
    ));
    assert!(matches!(
        profile_timeout::<u8>(ProfileEvent::Timeout { in_progress: 3 }),
        ProfileAction::Wait
    ));
    assert!(matches!(
        profile_timeout(ProfileEvent::Update(9)),
        ProfileAction::Return(9)
    ));
}
