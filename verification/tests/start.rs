use turbopack_cli_dev::address::{IpAddr, ServerAddr};
use turbopack_cli_dev::builder::{IssueSeverity, ServerParts, TurbopackDevServerBuilder};
use turbopack_cli_dev::port_search::{ErrorSource, IoErrorKind, ListenOutcome};
use turbopack_cli_dev::source::EntryRequest;
use turbopack_cli_dev::start::{
    announce, start_server, CommonArguments, DevArguments, NormalizedDirs, StatsType,
};

const IN_USE: ListenOutcome = ListenOutcome::Failed(Some(ErrorSource::Io(IoErrorKind::AddrInUse)));

fn arguments() -> DevArguments {
    DevArguments {
        common: CommonArguments {
            log_level: None,
            show_all: false,
            log_detail: false,
            full_stats: false,
            memory_limit: None,
        },
        port: 3000,
        hostname: IpAddr::V4(0, 0, 0, 0),
        eager_compile: false,
        no_open: false,
        allow_retry: None,
    }
}

fn start(args: &DevArguments, entries: &[&str]) -> ServerParts<u32, ()> {
    let dirs = NormalizedDirs {
        project_dir: "/repo/app".to_string(),
        root_dir: "/repo".to_string(),
    };
    let entries = entries.iter().map(|entry| entry.to_string()).collect();
    let server: TurbopackDevServerBuilder<u32, ()> = start_server(args, dirs, &entries, 7);
    match server.build() {
        Ok(parts) => parts,
        Err(error) => panic!("{:?}", error),
    }
}

fn server_addr() -> ServerAddr {
    ServerAddr::V4 {
        octets: (0, 0, 0, 0),
        port: 3000,
    }
}

#[test]
fn requested_server() {
    let args = DevArguments {
        common: CommonArguments {
            log_level: Some(IssueSeverity::Hint),
            show_all: true,
            log_detail: true,
            ..arguments().common
        },
        port: 4000,
        hostname: IpAddr::V4(10, 0, 0, 1),
        eager_compile: true,
        ..arguments()
    };
    let parts = start(&args, &["a.js", "b.js"]);
    assert_eq!(parts.turbo_tasks, 7);
    assert_eq!(parts.project_dir, "/repo/app");
    assert_eq!(parts.root_dir, "/repo");
    assert_eq!(parts.search.address().ip, IpAddr::V4(10, 0, 0, 1));
    assert_eq!(parts.search.address().port, 4000);
    assert!(parts.eager_compile);
    assert!(parts.show_all);
    assert!(parts.log_detail);
    assert_eq!(parts.log_level, IssueSeverity::Hint);
    assert_eq!(parts.issue_reporter, None);
    assert_eq!(
        parts.entry_requests,
        [
            EntryRequest::Relative("a.js".to_string()),
            EntryRequest::Relative("b.js".to_string()),
        ]
    );
}

#[test]
fn log_level_is_warning_by_default() {
    assert_eq!(start(&arguments(), &[]).log_level, IssueSeverity::Warning);
}

#[test]
fn other_ports_are_tried_on_request_only() {
    for (allow_retry, retries) in [(None, false), (Some(false), false), (Some(true), true)] {
        let args = DevArguments {
            allow_retry,
            ..arguments()
        };
        assert_eq!(start(&args, &[]).search.retries(IN_USE), retries);
    }
}

#[test]
fn memory_limit_is_given_in_mebibytes() {
    let mut common = arguments().common;
    assert_eq!(common.memory_limit_bytes(), usize::MAX);
    common.memory_limit = Some(0);
    assert_eq!(common.memory_limit_bytes(), 0);
    common.memory_limit = Some(300);
    assert_eq!(common.memory_limit_bytes(), 314_572_800);
    common.memory_limit = Some(usize::MAX / 1_048_576);
    assert_eq!(
        common.memory_limit_bytes(),
        usize::MAX / 1_048_576 * 1_048_576
    );
}

#[test]
fn full_stats_on_request() {
    let mut common = arguments().common;
    assert_eq!(common.stats_type(), StatsType::Essential);
    common.full_stats = true;
    assert_eq!(common.stats_type(), StatsType::Full);
}

#[test]
fn announcement_of_a_server() {
    let announcement = announce(&arguments(), &server_addr());
    assert_eq!(
        announcement.line,
        "\x1b[32mready\x1b[39m - started server on 0.0.0.0:3000, url: http://localhost:3000"
    );
    assert_eq!(announcement.open, Some("http://localhost:3000".to_string()));
}

#[test]
fn announcement_of_an_ipv6_server() {
    let addr = ServerAddr::V6 {
        segments: (0xfe80, 0, 0, 0, 0, 0, 0, 1),
        port: 443,
        ip_text: "fe80::1".to_string(),
        text: "[fe80::1%2]:443".to_string(),
    };
    let announcement = announce(&arguments(), &addr);
    assert_eq!(
        announcement.line,
        "\x1b[32mready\x1b[39m - started server on [fe80::1%2]:443, url: https://[fe80::1]"
    );
    assert_eq!(announcement.open, Some("https://[fe80::1]".to_string()));
}

#[test]
fn page_is_not_opened_on_request() {
    let args = DevArguments {
        no_open: true,
        ..arguments()
    };
    assert_eq!(announce(&args, &server_addr()).open, None);
}
