//! The search for a port that a server can listen on.
use crate::address::{IpAddr, SocketAddr};
use crate::style::{yellow, yellow_text};
use crate::text::{decimal, decimal_text};
use vstd::prelude::*;
use vstd::string::StringExecFns;

verus! {

/// What kind of I/O error it was.
#[derive(Clone, Copy, Debug, PartialEq, Eq, Structural)]
pub enum IoErrorKind {
    /// The address is already in use.
    AddrInUse,
    /// Any other kind.
    Other,
}

/// The error that lies below the error of a failed attempt to listen.
#[derive(Clone, Copy, Debug, PartialEq, Eq, Structural)]
pub enum ErrorSource {
    /// An I/O error.
    Io(IoErrorKind),
    /// An error that is not an I/O error.
    Other,
}

/// What came of an attempt to listen.
#[derive(Clone, Copy, Debug, PartialEq, Eq, Structural)]
pub enum ListenOutcome {
    /// The server listens.
    Listening,
    /// The attempt failed, with an error that may have another one below it.
    Failed(Option<ErrorSource>),
}

impl ListenOutcome {
    /// Whether the attempt failed because its address is already in use.
    pub open spec fn in_use(self) -> bool {
        self == ListenOutcome::Failed(Some(ErrorSource::Io(IoErrorKind::AddrInUse)))
    }

    /// Whether the attempt failed because its address is already in use.
    pub fn is_in_use(&self) -> (r: bool)
        ensures
            r == self.in_use(),
            r == (*self == ListenOutcome::Failed(Some(ErrorSource::Io(IoErrorKind::AddrInUse)))),
    {
        match self {
            ListenOutcome::Failed(Some(ErrorSource::Io(kind))) => {
                match kind {
                    IoErrorKind::AddrInUse => true,
                    IoErrorKind::Other => false,
                }
            },
            _ => false,
        }
    }
}

/// A search as a mathematical value.
pub struct SearchState {
    pub host: IpAddr,
    /// The port of the first attempt.
    pub port: int,
    /// How many attempts have failed.
    pub attempts: int,
    /// How many attempts there may be.
    pub max_attempts: int,
    /// Whether there may be a second attempt at all.
    pub allow_retry: bool,
}

impl SearchState {
    /// The attempt that is due is among those allowed, and its port exists.
    pub open spec fn valid(self) -> bool {
        &&& 0 <= self.attempts < self.max_attempts <= u16::MAX
        &&& 0 <= self.port <= self.current_port() <= u16::MAX
    }

    /// The port of the attempt that is due.
    pub open spec fn current_port(self) -> int {
        self.port + self.attempts
    }

    /// Whether an attempt with this outcome is followed by another one.
    pub open spec fn retries(self, outcome: ListenOutcome) -> bool {
        self.allow_retry && self.attempts < self.max_attempts - 1 && outcome.in_use()
    }

    /// The search after another failed attempt.
    pub open spec fn retried(self) -> SearchState {
        SearchState { attempts: self.attempts + 1, ..self }
    }
}

/// What the terminal is told before the attempt after the one on `port`.
pub open spec fn warning_text(port: int) -> Seq<char> {
    yellow_text("warn "@) + " - Port "@ + decimal_text(port as nat) + " is in use, trying "@
        + decimal_text((port + 1) as nat) + " instead"@
}

/// A search for a port: where the next attempt to listen goes, and whether there is one after it.
#[derive(Clone, Copy)]
pub struct PortSearch {
    host: IpAddr,
    port: u16,
    attempts: u16,
    max_attempts: u16,
    allow_retry: bool,
}

/// What to do after an attempt to listen.
pub enum SearchStep {
    /// Print the warning as a line, and listen on the address of `search`.
    Retry { warning: String, search: PortSearch },
    /// The outcome of the attempt is the outcome of the search.
    Stop,
}

impl View for PortSearch {
    type V = SearchState;

    closed spec fn view(&self) -> SearchState {
        SearchState {
            host: self.host,
            port: self.port as int,
            attempts: self.attempts as int,
            max_attempts: self.max_attempts as int,
            allow_retry: self.allow_retry,
        }
    }
}

impl PortSearch {
    #[verifier::type_invariant]
    closed spec fn inv(self) -> bool {
        self@.valid()
    }

    /// A search that starts on `port` and makes `max_attempts` attempts at most, only one unless
    /// `allow_retry` is set.
    pub fn new(host: IpAddr, port: u16, max_attempts: u16, allow_retry: bool) -> (search: Self)
        requires
            max_attempts > 0,
        ensures
            search@ == (SearchState {
                host,
                port: port as int,
                attempts: 0,
                max_attempts: max_attempts as int,
                allow_retry,
            }),
            search@.valid(),
            search@.host == host,
            search@.port == port,
            search@.attempts == 0,
            search@.max_attempts == max_attempts,
            search@.allow_retry == allow_retry,
    {
        PortSearch { host, port, attempts: 0, max_attempts, allow_retry }
    }

    /// The address of the attempt that is due.
    pub fn address(&self) -> (addr: SocketAddr)
        ensures
            addr.ip == self@.host,
            addr.port == self@.current_port(),
            addr.port == self@.port + self@.attempts,
            self@.valid(),
    {
        proof {
            use_type_invariant(self);
        }
        SocketAddr { ip: self.host, port: self.port + self.attempts }
    }

    /// Whether an attempt with this outcome is followed by another one.
    pub fn retries(&self, outcome: ListenOutcome) -> (r: bool)
        ensures
            r == self@.retries(outcome),
            r == (self@.allow_retry && self@.attempts + 1 < self@.max_attempts && outcome
                == ListenOutcome::Failed(Some(ErrorSource::Io(IoErrorKind::AddrInUse)))),
            self@.valid(),
    {
        proof {
            use_type_invariant(self);
        }
        // With one attempt allowed there is no retry.
        self.allow_retry && self.attempts < self.max_attempts - 1 && outcome.is_in_use()
    }

    /// Decides what follows the attempt that was due, given its outcome.
    pub fn on_listen(self, outcome: ListenOutcome) -> (step: SearchStep)
        requires
            self@.retries(outcome) ==> self@.current_port() < u16::MAX,
        ensures
            match step {
                SearchStep::Retry { warning, search } => {
                    &&& self@.retries(outcome)
                    &&& warning@ == warning_text(self@.current_port())
                    &&& search@ == self@.retried()
                    &&& search@.valid()
                },
                SearchStep::Stop => !self@.retries(outcome),
            },
            (step is Retry) == (self@.allow_retry && self@.attempts + 1 < self@.max_attempts
                && outcome == ListenOutcome::Failed(Some(ErrorSource::Io(IoErrorKind::AddrInUse)))),
            match step {
                SearchStep::Retry { warning, search } => {
                    &&& warning@ == yellow_text("warn "@) + " - Port "@ + decimal_text(
                        (self@.port + self@.attempts) as nat,
                    ) + " is in use, trying "@ + decimal_text(
                        (self@.port + self@.attempts + 1) as nat,
                    ) + " instead"@
                    &&& search@.host == self@.host
                    &&& search@.port == self@.port
                    &&& search@.attempts == self@.attempts + 1
                    &&& search@.max_attempts == self@.max_attempts
                    &&& search@.allow_retry == self@.allow_retry
                },
                SearchStep::Stop => true,
            },
    {
        proof {
            use_type_invariant(&self);
        }
        if !self.retries(outcome) {
            return SearchStep::Stop;
        }
        let current_port: u16 = self.address().port;
        let warning = yellow("warn ").concat(" - Port ").concat(
            decimal(current_port as u64).as_str(),
        ).concat(" is in use, trying ").concat(decimal(current_port as u64 + 1).as_str()).concat(
            " instead",
        );
        let search = PortSearch { attempts: self.attempts + 1, ..self };
        SearchStep::Retry { warning, search }
    }
}

/// The search at its last attempt, where `outcomes` gives the outcome of each attempt by its
/// number.
pub open spec fn last_search(
    search: SearchState,
    outcomes: spec_fn(int) -> ListenOutcome,
) -> SearchState
    decreases search.max_attempts - search.attempts,
{
    if search.retries(outcomes(search.attempts)) {
        last_search(search.retried(), outcomes)
    } else {
        search
    }
}

/// A search goes upwards from its port, one port per attempt, on one host. It makes no more
/// attempts than allowed, and only one without permission to retry. Every attempt before the last
/// found its address in use; the last did not, unless no more were allowed.
pub proof fn search_is_bounded(search: SearchState, outcomes: spec_fn(int) -> ListenOutcome)
    requires
        0 <= search.attempts < search.max_attempts,
    ensures
        ({
            let last = last_search(search, outcomes);
            &&& last == SearchState { attempts: last.attempts, ..search }
            &&& last.current_port() == search.current_port() + (last.attempts - search.attempts)
            &&& search.attempts <= last.attempts < search.max_attempts
            &&& !search.allow_retry ==> last.attempts == search.attempts
            &&& forall|i: int|
                search.attempts <= i < last.attempts ==> (#[trigger] outcomes(i)).in_use()
            &&& search.allow_retry && last.attempts < search.max_attempts - 1 ==> !outcomes(
                last.attempts,
            ).in_use()
        }),
    decreases search.max_attempts - search.attempts,
{
    if search.retries(outcomes(search.attempts)) {
        search_is_bounded(search.retried(), outcomes);
    }
}

/// A search that may retry ends at the first attempt whose address is not in use, if that is
/// among the attempts allowed.
pub proof fn search_ends_at_first_free_port(
    search: SearchState,
    outcomes: spec_fn(int) -> ListenOutcome,
    free: int,
)
    requires
        search.allow_retry,
        0 <= search.attempts <= free < search.max_attempts,
        forall|i: int| search.attempts <= i < free ==> (#[trigger] outcomes(i)).in_use(),
        !outcomes(free).in_use(),
    ensures
        last_search(search, outcomes).attempts == free,
        last_search(search, outcomes).current_port() == search.port + free,
    decreases free - search.attempts,
{
    if search.attempts < free {
        search_ends_at_first_free_port(search.retried(), outcomes, free);
    }
}

/// A search with one attempt never retries.
pub proof fn one_attempt_never_retries(search: SearchState, outcome: ListenOutcome)
    requires
        search.valid(),
        search.max_attempts == 1,
    ensures
        !search.retries(outcome),
{
}

/// A search whose ports all exist never leaves the range of ports.
pub proof fn search_stays_in_port_range(search: SearchState, outcome: ListenOutcome)
    requires
        search.valid(),
        search.port + search.max_attempts - 1 <= u16::MAX,
        search.retries(outcome),
    ensures
        search.current_port() < u16::MAX,
        search.retried().valid(),
        search.retried().port + search.retried().max_attempts - 1 <= u16::MAX,
{
}

/// Another attempt is made exactly if that is allowed, one is left, and the last one failed on an
/// I/O error that says that the address is in use. It is on the next port of the same host.
pub proof fn retry_goes_to_the_next_port(search: SearchState, outcome: ListenOutcome)
    ensures
        search.retries(outcome) == (search.allow_retry && search.attempts + 1 < search.max_attempts
            && outcome == ListenOutcome::Failed(Some(ErrorSource::Io(IoErrorKind::AddrInUse)))),
        search.current_port() == search.port + search.attempts,
        search.retried().current_port() == search.current_port() + 1,
        search.retried().attempts == search.attempts + 1,
        search.retried().host == search.host,
        search.retried().port == search.port,
        search.retried().max_attempts == search.max_attempts,
        search.retried().allow_retry == search.allow_retry,
{
}

/// A search that may retry makes every attempt allowed of which all earlier ones found their
/// address in use, on the port that is as far from its first port.
pub proof fn search_goes_on_while_ports_are_in_use(
    search: SearchState,
    outcomes: spec_fn(int) -> ListenOutcome,
    k: int,
)
    requires
        search.allow_retry,
        0 <= search.attempts <= k < search.max_attempts,
        forall|i: int|
            search.attempts <= i < k ==> #[trigger] outcomes(i)
                == ListenOutcome::Failed(Some(ErrorSource::Io(IoErrorKind::AddrInUse))),
    ensures
        last_search(search, outcomes).attempts >= k,
        last_search(search, outcomes).host == search.host,
        last_search(search, outcomes).port == search.port,
        outcomes(k) != ListenOutcome::Failed(Some(ErrorSource::Io(IoErrorKind::AddrInUse)))
            ==> last_search(search, outcomes).attempts == k,
    decreases k - search.attempts,
{
    search_is_bounded(search, outcomes);
    if search.attempts < k {
        assert(search.retries(outcomes(search.attempts)));
        search_goes_on_while_ports_are_in_use(search.retried(), outcomes, k);
    }
}

/// The warning names the port that is in use, and then the one of the next attempt.
pub proof fn warning_names_the_attempts(search: SearchState)
    ensures
        warning_text(search.current_port()) == yellow_text("warn "@) + " - Port "@ + decimal_text(
            (search.port + search.attempts) as nat,
        ) + " is in use, trying "@ + decimal_text(search.retried().current_port() as nat)
            + " instead"@,
{
}

} // verus!
