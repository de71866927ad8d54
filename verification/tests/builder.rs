use turbopack_cli_dev::address::IpAddr;
use turbopack_cli_dev::builder::{
    issue_provider, BuildError, IssueProvider, IssueReporterProvider, IssueSeverity, ServerParts,
    TurbopackDevServerBuilder, MAX_PORT_ATTEMPTS,
};
use turbopack_cli_dev::port_search::{ErrorSource, IoErrorKind, ListenOutcome};
use turbopack_cli_dev::source::EntryRequest;

type Builder = TurbopackDevServerBuilder<u32, &'static str>;

const HOST: IpAddr = IpAddr::V4(10, 0, 0, 1);
const IN_USE: ListenOutcome = ListenOutcome::Failed(Some(ErrorSource::Io(IoErrorKind::AddrInUse)));

fn builder() -> Builder {
    Builder::new(7, "/repo/app".to_string(), "/repo".to_string())
}

fn build(builder: Builder) -> ServerParts<u32, &'static str> {
    match builder.build() {
        Ok(parts) => parts,
        Err(error) => panic!("{:?}", error),
    }
}

fn relative(path: &str) -> EntryRequest {
    EntryRequest::Relative(path.to_string())
}

#[test]
fn defaults() {
    let parts = build(builder().port(3000).hostname(HOST));
    assert_eq!(parts.turbo_tasks, 7);
    assert_eq!(parts.project_dir, "/repo/app");
    assert_eq!(parts.root_dir, "/repo");
    assert!(parts.entry_requests.is_empty());
    assert!(!parts.eager_compile);
    assert_eq!(
        parts.browserslist_query,
        "last 1 Chrome versions, last 1 Firefox versions, last 1 Safari versions, last 1 Edge \
         versions"
    );
    assert_eq!(parts.issue_reporter, None);
    assert_eq!(parts.log_level, IssueSeverity::Warning);
    assert!(!parts.show_all);
    assert!(!parts.log_detail);
    assert_eq!(parts.search.address().ip, HOST);
    assert_eq!(parts.search.address().port, 3000);
    assert!(!parts.search.retries(IN_USE));
}

#[test]
fn every_setting_arrives() {
    let parts = build(
        builder()
            .eager_compile(true)
            .hostname(HOST)
            .port(8080)
            .browserslist_query("last 2 versions".to_string())
            .log_level(IssueSeverity::Error)
            .show_all(true)
            .allow_retry(true)
            .log_detail(true)
            .issue_reporter("custom"),
    );
    assert!(parts.eager_compile);
    assert_eq!(parts.search.address().port, 8080);
    assert_eq!(parts.browserslist_query, "last 2 versions");
    assert_eq!(parts.log_level, IssueSeverity::Error);
    assert!(parts.show_all);
    assert!(parts.log_detail);
    assert_eq!(parts.issue_reporter, Some("custom"));
    assert!(parts.search.retries(IN_USE));
}

#[test]
fn port_must_be_set() {
    let error = builder().hostname(HOST).build().err().unwrap();
    assert_eq!(error, BuildError::PortNotSet);
    assert_eq!(error.message(), "port must be set");
}

#[test]
fn hostname_must_be_set() {
    let error = builder().port(3000).build().err().unwrap();
    assert_eq!(error, BuildError::HostnameNotSet);
    assert_eq!(error.message(), "hostname must be set");
}

#[test]
fn missing_port_is_reported_first() {
    assert_eq!(builder().build().err(), Some(BuildError::PortNotSet));
}

#[test]
fn later_value_counts() {
    let parts = build(builder().port(1).hostname(HOST).port(2));
    assert_eq!(parts.search.address().port, 2);
}

#[test]
fn order_of_settings_does_not_matter() {
    let a = build(builder().port(1).hostname(HOST).show_all(true));
    let b = build(builder().show_all(true).hostname(HOST).port(1));
    assert_eq!(a.search.address(), b.search.address());
    assert_eq!(a.show_all, b.show_all);
    assert_eq!(a.log_detail, b.log_detail);
}

#[test]
fn entries_keep_their_order() {
    let module = EntryRequest::Module("react".to_string(), "/index".to_string());
    let parts = build(
        builder()
            .entry_request(relative("a.js"))
            .port(3000)
            .entry_request(module)
            .hostname(HOST)
            .entry_request(relative("b.js")),
    );
    assert_eq!(
        parts.entry_requests,
        [
            relative("a.js"),
            EntryRequest::Module("react".to_string(), "/index".to_string()),
            relative("b.js"),
        ]
    );
}

#[test]
fn server_tries_ten_ports() {
    assert_eq!(MAX_PORT_ATTEMPTS, 10);
    let search = builder().allow_retry(true).find_port(HOST, 3000, 1);
    assert!(!search.retries(IN_USE));
    let search = builder().allow_retry(true).find_port(HOST, 3000, 2);
    assert!(search.retries(IN_USE));
}

#[test]
fn issues_go_to_the_console_by_default() {
    let parts = build(
        builder()
            .port(3000)
            .hostname(HOST)
            .log_level(IssueSeverity::Info)
            .show_all(true),
    );
    let options = parts.log_options("/home");
    match issue_provider(parts.issue_reporter, options) {
        IssueProvider::Console(options) => {
            assert_eq!(options.current_dir, "/home");
            assert_eq!(options.project_dir, "/repo/app");
            assert!(options.show_all);
            assert!(!options.log_detail);
            assert_eq!(options.log_level, IssueSeverity::Info);
        }
        IssueProvider::Custom(_) => panic!("no custom provider was given"),
    }
}

#[test]
fn custom_issue_reporter_replaces_the_console() {
    let parts = build(
        builder()
            .port(3000)
            .hostname(HOST)
            .issue_reporter("custom"),
    );
    let options = parts.log_options("/home");
    assert!(matches!(
        issue_provider(parts.issue_reporter, options),
        IssueProvider::Custom("custom")
    ));
}

#[test]
fn functions_provide_what_they_return() {
    let name = "console".to_string();
    let provider = move || name.len();
    assert_eq!(provider.get_issue_reporter(), 7);
    assert_eq!(provider.get_issue_reporter(), 7);
}
