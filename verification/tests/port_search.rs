use turbopack_cli_dev::address::{IpAddr, SocketAddr};
use turbopack_cli_dev::port_search::{
    ErrorSource, IoErrorKind, ListenOutcome, PortSearch, SearchStep,
};

const HOST: IpAddr = IpAddr::V4(127, 0, 0, 1);
const IN_USE: ListenOutcome = ListenOutcome::Failed(Some(ErrorSource::Io(IoErrorKind::AddrInUse)));

/// The ports that a search tries, and the warnings that it gives.
fn run(mut search: PortSearch, outcomes: &[ListenOutcome]) -> (Vec<u16>, Vec<String>) {
    let mut ports = Vec::new();
    let mut warnings = Vec::new();
    loop {
        ports.push(search.address().port);
        match search.on_listen(outcomes[ports.len() - 1]) {
            SearchStep::Retry {
                warning,
                search: next,
            } => {
                warnings.push(warning);
                search = next;
            }
            SearchStep::Stop => return (ports, warnings),
        }
    }
}

#[test]
fn first_attempt_is_on_the_given_address() {
    let search = PortSearch::new(HOST, 3000, 10, true);
    assert_eq!(
        search.address(),
        SocketAddr {
            ip: HOST,
            port: 3000
        }
    );
}

#[test]
fn search_ends_with_the_first_free_port() {
    let outcomes = [IN_USE, IN_USE, ListenOutcome::Listening, IN_USE];
    let (ports, warnings) = run(PortSearch::new(HOST, 3000, 10, true), &outcomes);
    assert_eq!(ports, [3000, 3001, 3002]);
    assert_eq!(
        warnings,
        [
            "\x1b[33mwarn \x1b[39m - Port 3000 is in use, trying 3001 instead",
            "\x1b[33mwarn \x1b[39m - Port 3001 is in use, trying 3002 instead",
        ]
    );
}

#[test]
fn search_ends_when_no_attempt_is_left() {
    let (ports, _) = run(PortSearch::new(HOST, 3000, 10, true), &[IN_USE; 20]);
    assert_eq!(ports, (3000..3010).collect::<Vec<u16>>());
}

#[test]
fn search_without_retries_makes_one_attempt() {
    let (ports, warnings) = run(PortSearch::new(HOST, 3000, 10, false), &[IN_USE; 20]);
    assert_eq!(ports, [3000]);
    assert!(warnings.is_empty());
}

#[test]
fn search_with_one_attempt_does_not_loop() {
    let (ports, warnings) = run(PortSearch::new(HOST, 3000, 1, true), &[IN_USE; 20]);
    assert_eq!(ports, [3000]);
    assert!(warnings.is_empty());
}

#[test]
fn only_an_address_in_use_is_retried() {
    let others = [
        ListenOutcome::Listening,
        ListenOutcome::Failed(None),
        ListenOutcome::Failed(Some(ErrorSource::Other)),
        ListenOutcome::Failed(Some(ErrorSource::Io(IoErrorKind::Other))),
    ];
    for outcome in others {
        assert!(!outcome.is_in_use());
        let search = PortSearch::new(HOST, 3000, 10, true);
        assert!(!search.retries(outcome));
        assert_eq!(run(search, &[outcome]).0, [3000]);
    }
    assert!(IN_USE.is_in_use());
    assert!(PortSearch::new(HOST, 3000, 10, true).retries(IN_USE));
}

#[test]
fn search_can_end_with_the_last_port() {
    let outcomes = [IN_USE, ListenOutcome::Listening];
    let (ports, warnings) = run(PortSearch::new(HOST, 65534, 10, true), &outcomes);
    assert_eq!(ports, [65534, 65535]);
    assert_eq!(
        warnings,
        ["\x1b[33mwarn \x1b[39m - Port 65534 is in use, trying 65535 instead"]
    );
    let (ports, _) = run(PortSearch::new(HOST, 65526, 10, true), &[IN_USE; 20]);
    assert_eq!(ports.last(), Some(&65535));
}
