//! What a development server is built from.
use crate::address::IpAddr;
use crate::port_search::{
    last_search, search_goes_on_while_ports_are_in_use, search_is_bounded, ErrorSource,
    IoErrorKind, ListenOutcome, PortSearch, SearchState,
};
use crate::source::EntryRequest;
use vstd::prelude::*;

verus! {

/// How severe an issue is, the most severe first.
#[derive(Clone, Copy, Debug, PartialEq, Eq, Structural)]
pub enum IssueSeverity {
    Bug,
    Fatal,
    Error,
    Warning,
    Hint,
    Note,
    Suggestion,
    Info,
}

/// Provides the reporter to which a server's issues go.
pub trait IssueReporterProvider: Send + Sync + 'static {
    /// What reports issues.
    type Reporter;

    /// Whether the provider can be asked.
    spec fn can_provide(&self) -> bool;

    /// Whether `reporter` is one that the provider gives when asked.
    spec fn provides(&self, reporter: Self::Reporter) -> bool;

    /// Gives a reporter.
    fn get_issue_reporter(&self) -> (reporter: Self::Reporter)
        requires
            self.can_provide(),
        ensures
            self.provides(reporter),
    ;
}

/// A function that gives a reporter is a provider: what it provides is what it returns.
impl<R, T> IssueReporterProvider for T where T: Fn() -> R + Send + Sync + Clone + 'static {
    type Reporter = R;

    open spec fn can_provide(&self) -> bool {
        call_requires(*self, ())
    }

    open spec fn provides(&self, reporter: R) -> bool {
        call_ensures(*self, (), reporter)
    }

    fn get_issue_reporter(&self) -> (reporter: R) {
        self()
    }
}

/// How many ports a server tries to listen on at most.
pub const MAX_PORT_ATTEMPTS: u16 = 10;

/// The browsers that a server compiles for unless told otherwise.
pub open spec fn default_browserslist_query() -> Seq<char> {
    "last 1 Chrome versions, last 1 Firefox versions, last 1 Safari versions, last 1 Edge versions"@
}

/// The settings of a server as a mathematical value.
pub struct ServerSettings<T, P> {
    pub turbo_tasks: T,
    pub project_dir: Seq<char>,
    pub root_dir: Seq<char>,
    pub entry_requests: Seq<EntryRequest>,
    pub eager_compile: bool,
    pub hostname: Option<IpAddr>,
    pub issue_reporter: Option<P>,
    pub port: Option<u16>,
    pub browserslist_query: Seq<char>,
    pub log_level: IssueSeverity,
    pub show_all: bool,
    pub log_detail: bool,
    pub allow_retry: bool,
}

/// One setting of a server, with its value.
pub enum Setting<P> {
    EagerCompile(bool),
    Hostname(IpAddr),
    IssueReporter(P),
    Port(u16),
    BrowserslistQuery(Seq<char>),
    LogLevel(IssueSeverity),
    ShowAll(bool),
    LogDetail(bool),
    AllowRetry(bool),
}

impl<P> Setting<P> {
    /// Whether both are values of the same setting.
    pub open spec fn same_setting(self, other: Setting<P>) -> bool {
        match self {
            Setting::EagerCompile(_) => other is EagerCompile,
            Setting::Hostname(_) => other is Hostname,
            Setting::IssueReporter(_) => other is IssueReporter,
            Setting::Port(_) => other is Port,
            Setting::BrowserslistQuery(_) => other is BrowserslistQuery,
            Setting::LogLevel(_) => other is LogLevel,
            Setting::ShowAll(_) => other is ShowAll,
            Setting::LogDetail(_) => other is LogDetail,
            Setting::AllowRetry(_) => other is AllowRetry,
        }
    }
}

impl<T, P> ServerSettings<T, P> {
    /// The settings of a server of which only the directories are given.
    pub open spec fn initial(
        turbo_tasks: T,
        project_dir: Seq<char>,
        root_dir: Seq<char>,
    ) -> ServerSettings<T, P> {
        ServerSettings {
            turbo_tasks,
            project_dir,
            root_dir,
            entry_requests: Seq::empty(),
            eager_compile: false,
            hostname: None,
            issue_reporter: None,
            port: None,
            browserslist_query: default_browserslist_query(),
            log_level: IssueSeverity::Warning,
            show_all: false,
            log_detail: false,
            allow_retry: false,
        }
    }

    /// The settings with one of them replaced.
    pub open spec fn with(self, setting: Setting<P>) -> ServerSettings<T, P> {
        match setting {
            Setting::EagerCompile(v) => ServerSettings { eager_compile: v, ..self },
            Setting::Hostname(v) => ServerSettings { hostname: Some(v), ..self },
            Setting::IssueReporter(v) => ServerSettings { issue_reporter: Some(v), ..self },
            Setting::Port(v) => ServerSettings { port: Some(v), ..self },
            Setting::BrowserslistQuery(v) => ServerSettings { browserslist_query: v, ..self },
            Setting::LogLevel(v) => ServerSettings { log_level: v, ..self },
            Setting::ShowAll(v) => ServerSettings { show_all: v, ..self },
            Setting::LogDetail(v) => ServerSettings { log_detail: v, ..self },
            Setting::AllowRetry(v) => ServerSettings { allow_retry: v, ..self },
        }
    }

    /// The settings with more entry points, after those that are there.
    pub open spec fn with_entries(self, entries: Seq<EntryRequest>) -> ServerSettings<T, P> {
        ServerSettings { entry_requests: self.entry_requests + entries, ..self }
    }

    /// Whether a server can be built: it has a port and a host.
    pub open spec fn complete(self) -> bool {
        self.port is Some && self.hostname is Some
    }

    /// The search for a port that a server with these settings makes.
    pub open spec fn search(self, host: IpAddr, port: u16, max_attempts: u16) -> SearchState {
        SearchState {
            host,
            port: port as int,
            attempts: 0,
            max_attempts: max_attempts as int,
            allow_retry: self.allow_retry,
        }
    }
}

/// Why a server cannot be built.
#[derive(Clone, Copy, Debug, PartialEq, Eq, Structural)]
pub enum BuildError {
    /// The port was not set.
    PortNotSet,
    /// The host was not set.
    HostnameNotSet,
}

impl BuildError {
    /// The error in words.
    pub open spec fn text(self) -> Seq<char> {
        match self {
            BuildError::PortNotSet => "port must be set"@,
            BuildError::HostnameNotSet => "hostname must be set"@,
        }
    }

    /// The error in words.
    pub fn message(&self) -> (s: String)
        ensures
            s@ == self.text(),
            *self is PortNotSet ==> s@ == "port must be set"@,
            *self is HostnameNotSet ==> s@ == "hostname must be set"@,
    {
        match self {
            BuildError::PortNotSet => "port must be set".to_owned(),
            BuildError::HostnameNotSet => "hostname must be set".to_owned(),
        }
    }
}

/// How issues are logged to the console.
pub struct LogOptions<D> {
    pub current_dir: D,
    pub project_dir: String,
    pub show_all: bool,
    pub log_detail: bool,
    pub log_level: IssueSeverity,
}

/// Where the reporter of issues comes from.
pub enum IssueProvider<P, D> {
    /// A provider of the server's user.
    Custom(P),
    /// The console.
    Console(LogOptions<D>),
}

/// What a server needs to start: where to listen, and what to serve there.
pub struct ServerParts<T, P> {
    pub search: PortSearch,
    pub turbo_tasks: T,
    pub project_dir: String,
    pub root_dir: String,
    pub entry_requests: Vec<EntryRequest>,
    pub eager_compile: bool,
    pub browserslist_query: String,
    pub issue_reporter: Option<P>,
    pub log_level: IssueSeverity,
    pub show_all: bool,
    pub log_detail: bool,
}

impl<T, P> ServerParts<T, P> {
    /// Whether these are the parts of a server with the given settings.
    pub open spec fn made_from(self, settings: ServerSettings<T, P>) -> bool {
        &&& settings.complete()
        &&& self.search@ == settings.search(
            settings.hostname->0,
            settings.port->0,
            MAX_PORT_ATTEMPTS,
        )
        &&& self.search@.valid()
        &&& self.turbo_tasks == settings.turbo_tasks
        &&& self.project_dir@ == settings.project_dir
        &&& self.root_dir@ == settings.root_dir
        &&& self.entry_requests@ == settings.entry_requests
        &&& self.eager_compile == settings.eager_compile
        &&& self.browserslist_query@ == settings.browserslist_query
        &&& self.issue_reporter == settings.issue_reporter
        &&& self.log_level == settings.log_level
        &&& self.show_all == settings.show_all
        &&& self.log_detail == settings.log_detail
    }

    /// How issues are logged to the console of a process that runs in `current_dir`.
    pub fn log_options<D>(&self, current_dir: D) -> (options: LogOptions<D>)
        ensures
            options.current_dir == current_dir,
            options.project_dir@ == self.project_dir@,
            options.show_all == self.show_all,
            options.log_detail == self.log_detail,
            options.log_level == self.log_level,
    {
        LogOptions {
            current_dir,
            project_dir: self.project_dir.clone(),
            show_all: self.show_all,
            log_detail: self.log_detail,
            log_level: self.log_level,
        }
    }
}

/// Chooses where the reporter of issues comes from: the console, unless the server's user has
/// given a provider.
pub fn issue_provider<P, D>(issue_reporter: Option<P>, log_options: LogOptions<D>) -> (provider:
    IssueProvider<P, D>)
    ensures
        provider == match issue_reporter {
            Some(custom) => IssueProvider::Custom(custom),
            None => IssueProvider::Console(log_options),
        },
{
    match issue_reporter {
        Some(custom) => IssueProvider::Custom(custom),
        None => IssueProvider::Console(log_options),
    }
}

/// Builds a development server. `T` runs its tasks, `P` provides the reporter of its issues.
pub struct TurbopackDevServerBuilder<T, P> {
    turbo_tasks: T,
    project_dir: String,
    root_dir: String,
    entry_requests: Vec<EntryRequest>,
    eager_compile: bool,
    hostname: Option<IpAddr>,
    issue_reporter: Option<P>,
    port: Option<u16>,
    browserslist_query: String,
    log_level: IssueSeverity,
    show_all: bool,
    log_detail: bool,
    allow_retry: bool,
}

impl<T, P> View for TurbopackDevServerBuilder<T, P> {
    type V = ServerSettings<T, P>;

    closed spec fn view(&self) -> ServerSettings<T, P> {
        ServerSettings {
            turbo_tasks: self.turbo_tasks,
            project_dir: self.project_dir@,
            root_dir: self.root_dir@,
            entry_requests: self.entry_requests@,
            eager_compile: self.eager_compile,
            hostname: self.hostname,
            issue_reporter: self.issue_reporter,
            port: self.port,
            browserslist_query: self.browserslist_query@,
            log_level: self.log_level,
            show_all: self.show_all,
            log_detail: self.log_detail,
            allow_retry: self.allow_retry,
        }
    }
}

impl<T, P> TurbopackDevServerBuilder<T, P> {
    /// Starts with the project in `project_dir`, a directory below `root_dir`.
    pub fn new(turbo_tasks: T, project_dir: String, root_dir: String) -> (builder: Self)
        ensures
            builder@ == ServerSettings::<T, P>::initial(turbo_tasks, project_dir@, root_dir@),
            builder@.turbo_tasks == turbo_tasks,
            builder@.project_dir == project_dir@,
            builder@.root_dir == root_dir@,
            builder@.entry_requests == Seq::<EntryRequest>::empty(),
            builder@.eager_compile == false,
            builder@.hostname is None,
            builder@.issue_reporter is None,
            builder@.port is None,
            builder@.browserslist_query
                == "last 1 Chrome versions, last 1 Firefox versions, last 1 Safari versions, last 1 Edge versions"@,
            builder@.log_level == IssueSeverity::Warning,
            builder@.show_all == false,
            builder@.log_detail == false,
            builder@.allow_retry == false,
    {
        TurbopackDevServerBuilder {
            turbo_tasks,
            project_dir,
            root_dir,
            entry_requests: Vec::new(),
            eager_compile: false,
            hostname: None,
            issue_reporter: None,
            port: None,
            browserslist_query: "last 1 Chrome versions, last 1 Firefox versions, last 1 Safari versions, last 1 Edge versions".to_owned(),
            log_level: IssueSeverity::Warning,
            show_all: false,
            log_detail: false,
            allow_retry: false,
        }
    }

    /// Adds an entry point of the application.
    pub fn entry_request(self, entry_asset_path: EntryRequest) -> (builder: Self)
        ensures
            builder@ == self@.with_entries(seq![entry_asset_path]),
            builder@ == (ServerSettings {
                entry_requests: self@.entry_requests.push(entry_asset_path),
                ..self@
            }),
    {
        let mut builder = self;
        builder.entry_requests.push(entry_asset_path);
        assert(builder.entry_requests@ =~= self.entry_requests@ + seq![entry_asset_path]);
        builder
    }

    /// Sets whether the application is compiled before it is asked for.
    pub fn eager_compile(self, eager_compile: bool) -> (builder: Self)
        ensures
            builder@ == self@.with(Setting::EagerCompile(eager_compile)),
            builder@ == (ServerSettings { eager_compile, ..self@ }),
    {
        TurbopackDevServerBuilder { eager_compile, ..self }
    }

    /// Sets the address of the host to listen on.
    pub fn hostname(self, hostname: IpAddr) -> (builder: Self)
        ensures
            builder@ == self@.with(Setting::Hostname(hostname)),
            builder@ == (ServerSettings { hostname: Some(hostname), ..self@ }),
    {
        TurbopackDevServerBuilder { hostname: Some(hostname), ..self }
    }

    /// Sets the port to listen on, or to start the search at.
    pub fn port(self, port: u16) -> (builder: Self)
        ensures
            builder@ == self@.with(Setting::Port(port)),
            builder@ == (ServerSettings { port: Some(port), ..self@ }),
    {
        TurbopackDevServerBuilder { port: Some(port), ..self }
    }

    /// Sets the browsers to compile for.
    pub fn browserslist_query(self, browserslist_query: String) -> (builder: Self)
        ensures
            builder@ == self@.with(Setting::BrowserslistQuery(browserslist_query@)),
            builder@ == (ServerSettings { browserslist_query: browserslist_query@, ..self@ }),
    {
        TurbopackDevServerBuilder { browserslist_query, ..self }
    }

    /// Sets the severity from which on issues are logged.
    pub fn log_level(self, log_level: IssueSeverity) -> (builder: Self)
        ensures
            builder@ == self@.with(Setting::LogLevel(log_level)),
            builder@ == (ServerSettings { log_level, ..self@ }),
    {
        TurbopackDevServerBuilder { log_level, ..self }
    }

    /// Sets whether all issues are logged.
    pub fn show_all(self, show_all: bool) -> (builder: Self)
        ensures
            builder@ == self@.with(Setting::ShowAll(show_all)),
            builder@ == (ServerSettings { show_all, ..self@ }),
    {
        TurbopackDevServerBuilder { show_all, ..self }
    }

    /// Sets whether other ports are tried if the port is in use.
    pub fn allow_retry(self, allow_retry: bool) -> (builder: Self)
        ensures
            builder@ == self@.with(Setting::AllowRetry(allow_retry)),
            builder@ == (ServerSettings { allow_retry, ..self@ }),
    {
        TurbopackDevServerBuilder { allow_retry, ..self }
    }

    /// Sets whether issues are logged in detail.
    pub fn log_detail(self, log_detail: bool) -> (builder: Self)
        ensures
            builder@ == self@.with(Setting::LogDetail(log_detail)),
            builder@ == (ServerSettings { log_detail, ..self@ }),
    {
        TurbopackDevServerBuilder { log_detail, ..self }
    }

    /// Sets the provider of the reporter of issues.
    pub fn issue_reporter(self, issue_reporter: P) -> (builder: Self)
        ensures
            builder@ == self@.with(Setting::IssueReporter(issue_reporter)),
            builder@ == (ServerSettings { issue_reporter: Some(issue_reporter), ..self@ }),
    {
        TurbopackDevServerBuilder { issue_reporter: Some(issue_reporter), ..self }
    }

    /// The search for an open port, which makes `max_attempts` attempts at most.
    pub fn find_port(&self, host: IpAddr, port: u16, max_attempts: u16) -> (search: PortSearch)
        requires
            max_attempts > 0,
        ensures
            search@ == self@.search(host, port, max_attempts),
            search@.valid(),
            search@.host == host,
            search@.port == port,
            search@.attempts == 0,
            search@.max_attempts == max_attempts,
            search@.allow_retry == self@.allow_retry,
    {
        PortSearch::new(host, port, max_attempts, self.allow_retry)
    }

    /// Builds the server, if its port and its host are set.
    pub fn build(self) -> (r: Result<ServerParts<T, P>, BuildError>)
        ensures
            match r {
                Ok(parts) => parts.made_from(self@),
                Err(BuildError::PortNotSet) => self@.port is None,
                Err(BuildError::HostnameNotSet) => self@.port is Some && self@.hostname is None,
            },
            (r is Ok) == (self@.port is Some && self@.hostname is Some),
            match r {
                Ok(parts) => {
                    &&& parts.search@.host == self@.hostname->0
                    &&& parts.search@.port == self@.port->0
                    &&& parts.search@.attempts == 0
                    &&& parts.search@.max_attempts == 10
                    &&& parts.search@.allow_retry == self@.allow_retry
                    &&& parts.turbo_tasks == self@.turbo_tasks
                    &&& parts.project_dir@ == self@.project_dir
                    &&& parts.root_dir@ == self@.root_dir
                    &&& parts.entry_requests@ == self@.entry_requests
                    &&& parts.eager_compile == self@.eager_compile
                    &&& parts.browserslist_query@ == self@.browserslist_query
                    &&& parts.issue_reporter == self@.issue_reporter
                    &&& parts.log_level == self@.log_level
                    &&& parts.show_all == self@.show_all
                    &&& parts.log_detail == self@.log_detail
                },
                Err(_) => true,
            },
    {
        let port: u16 = match self.port {
            Some(port) => port,
            None => return Err(BuildError::PortNotSet),
        };
        let host = match self.hostname {
            Some(host) => host,
            None => return Err(BuildError::HostnameNotSet),
        };
        let search = self.find_port(host, port, MAX_PORT_ATTEMPTS);
        Ok(
            ServerParts {
                search,
                turbo_tasks: self.turbo_tasks,
                project_dir: self.project_dir,
                root_dir: self.root_dir,
                entry_requests: self.entry_requests,
                eager_compile: self.eager_compile,
                browserslist_query: self.browserslist_query,
                issue_reporter: self.issue_reporter,
                log_level: self.log_level,
                show_all: self.show_all,
                log_detail: self.log_detail,
            },
        )
    }
}

/// Of two values given to one setting, the later counts.
pub proof fn later_value_counts<T, P>(
    settings: ServerSettings<T, P>,
    first: Setting<P>,
    second: Setting<P>,
)
    requires
        first.same_setting(second),
    ensures
        settings.with(first).with(second) == settings.with(second),
{
}

/// In which order two settings are given does not matter.
pub proof fn settings_are_independent<T, P>(
    settings: ServerSettings<T, P>,
    first: Setting<P>,
    second: Setting<P>,
)
    requires
        !first.same_setting(second),
    ensures
        settings.with(first).with(second) == settings.with(second).with(first),
{
}

/// Entry points keep the order in which they are added, whatever is set in between.
pub proof fn entries_keep_their_order<T, P>(
    settings: ServerSettings<T, P>,
    first: EntryRequest,
    between: Setting<P>,
    second: EntryRequest,
)
    ensures
        settings.with_entries(seq![first]).with(between).with_entries(seq![second])
            == settings.with(between).with_entries(seq![first, second]),
{
    assert(settings.entry_requests + seq![first] + seq![second] =~= settings.entry_requests + seq![
        first,
        second,
    ]);
}

/// A setting is told from every other: giving it a value changes what it stands for, and that
/// alone.
pub proof fn setting_changes_itself_alone<T, P>(
    settings: ServerSettings<T, P>,
    flag: bool,
    hostname: IpAddr,
    issue_reporter: P,
    port: u16,
    query: Seq<char>,
    log_level: IssueSeverity,
)
    ensures
        settings.with(Setting::EagerCompile(flag)) == (ServerSettings {
            eager_compile: flag,
            ..settings
        }),
        settings.with(Setting::Hostname(hostname)) == (ServerSettings {
            hostname: Some(hostname),
            ..settings
        }),
        settings.with(Setting::IssueReporter(issue_reporter)) == (ServerSettings {
            issue_reporter: Some(issue_reporter),
            ..settings
        }),
        settings.with(Setting::Port(port)) == (ServerSettings { port: Some(port), ..settings }),
        settings.with(Setting::BrowserslistQuery(query)) == (ServerSettings {
            browserslist_query: query,
            ..settings
        }),
        settings.with(Setting::LogLevel(log_level)) == (ServerSettings { log_level, ..settings }),
        settings.with(Setting::ShowAll(flag)) == (ServerSettings { show_all: flag, ..settings }),
        settings.with(Setting::LogDetail(flag)) == (ServerSettings {
            log_detail: flag,
            ..settings
        }),
        settings.with(Setting::AllowRetry(flag)) == (ServerSettings {
            allow_retry: flag,
            ..settings
        }),
{
}

/// A search makes as many attempts as it is asked for, the first one on the given host and port.
pub proof fn search_has_all_its_attempts<T, P>(
    settings: ServerSettings<T, P>,
    host: IpAddr,
    port: u16,
    max_attempts: u16,
)
    ensures
        settings.search(host, port, max_attempts).host == host,
        settings.search(host, port, max_attempts).port == port,
        settings.search(host, port, max_attempts).attempts == 0,
        settings.search(host, port, max_attempts).max_attempts == max_attempts,
        settings.search(host, port, max_attempts).allow_retry == settings.allow_retry,
{
}

/// A built server that may retry tries ten ports, upwards from its own: while the first `k` are in
/// use, it goes on to the port that is `k` above its own, and it stays there if that is free. One
/// that may not retry makes one attempt.
pub proof fn built_server_tries_ten_ports<T, P>(
    settings: ServerSettings<T, P>,
    parts: ServerParts<T, P>,
    outcomes: spec_fn(int) -> ListenOutcome,
    k: int,
)
    requires
        parts.made_from(settings),
        0 <= k < 10,
        forall|i: int|
            0 <= i < k ==> #[trigger] outcomes(i) == ListenOutcome::Failed(Some(ErrorSource::Io(IoErrorKind::AddrInUse))),
    ensures
        ({
            let last = last_search(parts.search@, outcomes);
            &&& last.host == settings.hostname->0
            &&& last.port == settings.port->0
            &&& settings.allow_retry ==> last.port + last.attempts >= settings.port->0 + k
            &&& settings.allow_retry && outcomes(k) != ListenOutcome::Failed(Some(ErrorSource::Io(IoErrorKind::AddrInUse)))
                ==> last.port + last.attempts == settings.port->0 + k
            &&& last.attempts < 10
            &&& !settings.allow_retry ==> last.attempts == 0
        }),
{
    search_is_bounded(parts.search@, outcomes);
    if settings.allow_retry {
        search_goes_on_while_ports_are_in_use(parts.search@, outcomes, k);
    }
}

/// The parts of a server are its settings, each under its own name, and a server has parts only
/// if both its port and its host are set.
pub proof fn parts_are_the_settings<T, P>(
    settings: ServerSettings<T, P>,
    parts: ServerParts<T, P>,
)
    requires
        parts.made_from(settings),
    ensures
        settings.port is Some,
        settings.hostname is Some,
        parts.turbo_tasks == settings.turbo_tasks,
        parts.project_dir@ == settings.project_dir,
        parts.root_dir@ == settings.root_dir,
        parts.entry_requests@ == settings.entry_requests,
        parts.eager_compile == settings.eager_compile,
        parts.browserslist_query@ == settings.browserslist_query,
        parts.issue_reporter == settings.issue_reporter,
        parts.log_level == settings.log_level,
        parts.show_all == settings.show_all,
        parts.log_detail == settings.log_detail,
{
}

/// A builder starts with its directories in their places and with nothing else set.
pub proof fn new_builder_has_only_its_directories<T, P>(
    turbo_tasks: T,
    project_dir: Seq<char>,
    root_dir: Seq<char>,
)
    ensures
        ({
            let settings = ServerSettings::<T, P>::initial(turbo_tasks, project_dir, root_dir);
            &&& settings.turbo_tasks == turbo_tasks
            &&& settings.project_dir == project_dir
            &&& settings.root_dir == root_dir
            &&& settings.entry_requests.len() == 0
            &&& settings.hostname is None
            &&& settings.issue_reporter is None
            &&& settings.port is None
            &&& settings.browserslist_query
                == "last 1 Chrome versions, last 1 Firefox versions, last 1 Safari versions, last 1 Edge versions"@
            &&& settings.log_level == IssueSeverity::Warning
            &&& !settings.eager_compile
            &&& !settings.show_all
            &&& !settings.log_detail
            &&& !settings.allow_retry
        }),
{
}

/// A provider that the server's user has given is used, and the console exactly if there is none.
pub proof fn custom_provider_comes_before_the_console<P, D>(
    issue_reporter: Option<P>,
    log_options: LogOptions<D>,
    provider: IssueProvider<P, D>,
)
    ensures
        call_ensures(issue_provider::<P, D>, (issue_reporter, log_options), provider) ==> {
            &&& (provider is Custom) == (issue_reporter is Some)
            &&& provider is Custom ==> provider->Custom_0 == issue_reporter->0
            &&& provider is Console ==> provider->Console_0 == log_options
        },
{
}

/// The console logs what the server's settings say, each under its own name.
pub proof fn console_logs_as_set<T, P, D>(
    parts: ServerParts<T, P>,
    current_dir: D,
    options: LogOptions<D>,
)
    ensures
        call_ensures(ServerParts::<T, P>::log_options::<D>, (&parts, current_dir), options) ==> {
            &&& options.current_dir == current_dir
            &&& options.project_dir@ == parts.project_dir@
            &&& options.show_all == parts.show_all
            &&& options.log_detail == parts.log_detail
            &&& options.log_level == parts.log_level
        },
{
}

/// Why a server cannot be built is told in words, which name what is missing.
pub proof fn errors_name_what_is_missing()
    ensures
        BuildError::PortNotSet.text() == "port must be set"@,
        BuildError::HostnameNotSet.text() == "hostname must be set"@,
{
}

/// The search that a builder makes starts on the given host and port, and makes as many attempts
/// as it is asked for.
pub proof fn builder_searches_as_asked<T, P>(
    builder: TurbopackDevServerBuilder<T, P>,
    host: IpAddr,
    port: u16,
    max_attempts: u16,
    search: PortSearch,
)
    ensures
        call_ensures(
            TurbopackDevServerBuilder::<T, P>::find_port,
            (&builder, host, port, max_attempts),
            search,
        ) ==> {
            &&& search@.host == host
            &&& search@.port == port
            &&& search@.attempts == 0
            &&& search@.max_attempts == max_attempts
            &&& search@.allow_retry == builder@.allow_retry
        },
{
}

/// What is built searches on the host and from the port that were set: if it may retry, and the
/// first `k` of ten ports are in use while the next one is not, it ends on that one.
pub proof fn built_server_ends_on_first_free_port<T, P>(
    builder: TurbopackDevServerBuilder<T, P>,
    parts: ServerParts<T, P>,
    outcomes: spec_fn(int) -> ListenOutcome,
    k: int,
)
    requires
        builder@.allow_retry,
        0 <= k < 10,
        forall|i: int|
            0 <= i < k ==> #[trigger] outcomes(i) == ListenOutcome::Failed(Some(ErrorSource::Io(IoErrorKind::AddrInUse))),
        outcomes(k) != ListenOutcome::Failed(Some(ErrorSource::Io(IoErrorKind::AddrInUse))),
    ensures
        call_ensures(
            TurbopackDevServerBuilder::<T, P>::build,
            (builder,),
            Ok::<ServerParts<T, P>, BuildError>(parts),
        ) ==> {
            let last = last_search(parts.search@, outcomes);
            &&& Some(last.host) == builder@.hostname
            &&& last.port + last.attempts == builder@.port->0 + k
        },
{
    if call_ensures(
        TurbopackDevServerBuilder::<T, P>::build,
        (builder,),
        Ok::<ServerParts<T, P>, BuildError>(parts),
    ) {
        built_server_tries_ten_ports(builder@, parts, outcomes, k);
    }
}

} // verus!
