//! How the `dev` command starts a server.
use crate::address::{IpAddr, ServerAddr};
use crate::builder::{
    default_browserslist_query, BuildError, IssueSeverity, ServerParts, ServerSettings,
    TurbopackDevServerBuilder, MAX_PORT_ATTEMPTS,
};
use crate::port_search::ListenOutcome;
use crate::source::EntryRequest;
use crate::style::{green, green_text};
use vstd::prelude::*;
use vstd::string::StringExecFns;

verus! {

/// How much is recorded about tasks.
#[derive(Clone, Copy, Debug, PartialEq, Eq, Structural)]
pub enum StatsType {
    Essential,
    Full,
}

/// The arguments that the `dev` command has in common with others.
pub struct CommonArguments {
    /// The severity from which on issues are logged, if given.
    pub log_level: Option<IssueSeverity>,
    pub show_all: bool,
    pub log_detail: bool,
    /// Whether everything is recorded about tasks.
    pub full_stats: bool,
    /// How much memory the tasks may use, in mebibytes, if that is limited.
    pub memory_limit: Option<usize>,
}

/// The arguments of the `dev` command.
pub struct DevArguments {
    pub common: CommonArguments,
    pub port: u16,
    pub hostname: IpAddr,
    pub eager_compile: bool,
    /// Whether the server's page is not opened in a browser.
    pub no_open: bool,
    /// Whether other ports are tried if the port is in use, where the command has that argument.
    pub allow_retry: Option<bool>,
}

/// The directories of a project.
pub struct NormalizedDirs {
    pub project_dir: String,
    /// A directory that the project's is below.
    pub root_dir: String,
}

impl CommonArguments {
    /// How much memory the tasks may use, in bytes.
    pub open spec fn memory_limit_in_bytes(self) -> int {
        match self.memory_limit {
            Some(mebibytes) => mebibytes * 0x10_0000,
            None => usize::MAX as int,
        }
    }

    /// How much memory the tasks may use, in bytes.
    pub fn memory_limit_bytes(&self) -> (bytes: usize)
        requires
            self.memory_limit_in_bytes() <= usize::MAX,
        ensures
            bytes == self.memory_limit_in_bytes(),
            match self.memory_limit {
                Some(mebibytes) => bytes == mebibytes * 1024 * 1024,
                None => bytes == usize::MAX,
            },
    {
        match self.memory_limit {
            Some(mebibytes) => mebibytes * 1024 * 1024,
            None => usize::MAX,
        }
    }

    /// How much is recorded about tasks.
    pub fn stats_type(&self) -> (stats_type: StatsType)
        ensures
            stats_type == if self.full_stats {
                StatsType::Full
            } else {
                StatsType::Essential
            },
    {
        if self.full_stats {
            StatsType::Full
        } else {
            StatsType::Essential
        }
    }
}

impl DevArguments {
    /// The settings of the server that these arguments ask for.
    pub open spec fn settings<T, P>(
        self,
        turbo_tasks: T,
        project_dir: Seq<char>,
        root_dir: Seq<char>,
        entries: Seq<String>,
    ) -> ServerSettings<T, P> {
        ServerSettings {
            turbo_tasks,
            project_dir,
            root_dir,
            entry_requests: entries.map_values(|entry: String| EntryRequest::Relative(entry)),
            eager_compile: self.eager_compile,
            hostname: Some(self.hostname),
            issue_reporter: None,
            port: Some(self.port),
            browserslist_query: default_browserslist_query(),
            log_level: match self.common.log_level {
                Some(level) => level,
                None => IssueSeverity::Warning,
            },
            show_all: self.common.show_all,
            log_detail: self.common.log_detail,
            allow_retry: self.allow_retry == Some(true),
        }
    }
}

/// Prepares the server that `args` ask for, for the project in `dirs` with the entry points
/// `entries`, whose tasks `turbo_tasks` runs.
pub fn start_server<T, P>(
    args: &DevArguments,
    dirs: NormalizedDirs,
    entries: &Vec<String>,
    turbo_tasks: T,
) -> (server: TurbopackDevServerBuilder<T, P>)
    ensures
        server@ == args.settings::<T, P>(
            turbo_tasks,
            dirs.project_dir@,
            dirs.root_dir@,
            entries@,
        ),
        server@.turbo_tasks == turbo_tasks,
        server@.project_dir == dirs.project_dir@,
        server@.root_dir == dirs.root_dir@,
        server@.entry_requests.len() == entries@.len(),
        forall|i: int|
            0 <= i < entries@.len() ==> #[trigger] server@.entry_requests[i]
                == EntryRequest::Relative(entries@[i]),
        server@.eager_compile == args.eager_compile,
        server@.hostname == Some(args.hostname),
        server@.issue_reporter is None,
        server@.port == Some(args.port),
        server@.browserslist_query
            == "last 1 Chrome versions, last 1 Firefox versions, last 1 Safari versions, last 1 Edge versions"@,
        args.common.log_level is Some ==> server@.log_level == args.common.log_level->0,
        args.common.log_level is None ==> server@.log_level == IssueSeverity::Warning,
        server@.show_all == args.common.show_all,
        server@.log_detail == args.common.log_detail,
        args.allow_retry is Some ==> server@.allow_retry == args.allow_retry->0,
        args.allow_retry is None ==> !server@.allow_retry,
{
    let log_level = match args.common.log_level {
        Some(level) => level,
        None => IssueSeverity::Warning,
    };
    let mut server = TurbopackDevServerBuilder::<T, P>::new(
        turbo_tasks,
        dirs.project_dir,
        dirs.root_dir,
    ).eager_compile(args.eager_compile).hostname(args.hostname).port(args.port).log_detail(
        args.common.log_detail,
    ).show_all(args.common.show_all).log_level(log_level);
    let ghost without_entries = server@;
    assert(entries@.take(0) =~= Seq::empty());
    for i in 0..entries.len()
        invariant
            without_entries.entry_requests == Seq::<EntryRequest>::empty(),
            server@ == without_entries.with_entries(
                entries@.take(i as int).map_values(|entry: String| EntryRequest::Relative(entry)),
            ),
    {
        server = server.entry_request(EntryRequest::Relative(entries[i].clone()));
        assert(server@.entry_requests =~= without_entries.entry_requests + entries@.take(
            i + 1,
        ).map_values(|entry: String| EntryRequest::Relative(entry)));
    }
    assert(entries@.take(entries.len() as int) =~= entries@);
    match args.allow_retry {
        Some(allow_retry) => server.allow_retry(allow_retry),
        None => server,
    }
}

/// What the terminal is told when a server listens.
pub open spec fn ready_text(addr: ServerAddr) -> Seq<char> {
    green_text("ready"@) + " - started server on "@ + addr.text() + ", url: "@ + addr.uri_text()
}

/// What follows when a server listens.
pub struct Announcement {
    /// The line to write to the terminal.
    pub line: String,
    /// The page to open in a browser then, if any.
    pub open: Option<String>,
}

/// Announces that a server listens on `addr`.
pub fn announce(args: &DevArguments, addr: &ServerAddr) -> (announcement: Announcement)
    ensures
        announcement.line@ == ready_text(*addr),
        match announcement.open {
            Some(uri) => !args.no_open && uri@ == addr.uri_text(),
            None => args.no_open,
        },
        announcement.line@ == green_text("ready"@) + " - started server on "@ + addr.text()
            + ", url: "@ + addr.uri_text(),
        announcement.open is Some ==> announcement.line@ == green_text("ready"@)
            + " - started server on "@ + addr.text() + ", url: "@ + announcement.open->0@,
{
    let index_uri = addr.index_uri();
    let line = green("ready").concat(" - started server on ").concat(
        addr.notation().as_str(),
    ).concat(
        ", url: ",
    ).concat(index_uri.as_str());
    let open = if args.no_open {
        None
    } else {
        Some(index_uri)
    };
    Announcement { line, open }
}

/// A server that arguments ask for can always be built. Unless they allow it, it does not try
/// another port, whatever comes of its first attempt to listen.
pub proof fn requested_server_can_be_built<T, P>(
    args: DevArguments,
    turbo_tasks: T,
    project_dir: Seq<char>,
    root_dir: Seq<char>,
    entries: Seq<String>,
    outcome: ListenOutcome,
)
    ensures
        ({
            let settings = args.settings::<T, P>(turbo_tasks, project_dir, root_dir, entries);
            let search = settings.search(args.hostname, args.port, MAX_PORT_ATTEMPTS);
            &&& settings.complete()
            &&& search.valid()
            &&& search.retries(outcome) ==> args.allow_retry == Some(true) && outcome.in_use()
        }),
{
}

/// Each argument arrives at the setting of its own name, and at no other. What has no argument is
/// left as it is by default.
pub proof fn arguments_arrive_at_their_settings<T, P>(
    args: DevArguments,
    turbo_tasks: T,
    project_dir: Seq<char>,
    root_dir: Seq<char>,
    entries: Seq<String>,
)
    ensures
        ({
            let settings = args.settings::<T, P>(turbo_tasks, project_dir, root_dir, entries);
            &&& settings.turbo_tasks == turbo_tasks
            &&& settings.project_dir == project_dir
            &&& settings.root_dir == root_dir
            &&& settings.entry_requests.len() == entries.len()
            &&& forall|i: int|
                0 <= i < entries.len() ==> #[trigger] settings.entry_requests[i]
                    == EntryRequest::Relative(entries[i])
            &&& settings.eager_compile == args.eager_compile
            &&& settings.hostname == Some(args.hostname)
            &&& settings.issue_reporter is None
            &&& settings.port == Some(args.port)
            &&& settings.browserslist_query
                == "last 1 Chrome versions, last 1 Firefox versions, last 1 Safari versions, last 1 Edge versions"@
            &&& args.common.log_level is Some ==> settings.log_level == args.common.log_level->0
            &&& args.common.log_level is None ==> settings.log_level == IssueSeverity::Warning
            &&& settings.show_all == args.common.show_all
            &&& settings.log_detail == args.common.log_detail
            &&& args.allow_retry is Some ==> settings.allow_retry == args.allow_retry->0
            &&& args.allow_retry is None ==> !settings.allow_retry
        }),
{
}

/// The memory limit is given in units of 1024 times 1024 bytes; without one, there is none but
/// that of the machine.
pub proof fn memory_limit_is_in_mebibytes(common: CommonArguments)
    ensures
        common.memory_limit is Some ==> common.memory_limit_in_bytes() == common.memory_limit->0
            * 1024 * 1024,
        common.memory_limit is None ==> common.memory_limit_in_bytes() == usize::MAX,
{
}

/// The line that tells that a server listens ends with its URL, after its address.
pub proof fn ready_line_tells_address_and_url(addr: ServerAddr)
    ensures
        ready_text(addr) == green_text("ready"@) + " - started server on "@ + addr.text()
            + ", url: "@ + addr.uri_text(),
{
}

/// Everything is recorded about tasks exactly if that is asked for.
pub proof fn full_stats_are_recorded_on_request(common: CommonArguments, stats_type: StatsType)
    ensures
        call_ensures(CommonArguments::stats_type, (&common,), stats_type) ==> (stats_type is Full)
            == common.full_stats,
{
}

/// A page is opened unless that is declined, and it is the one that the line tells of.
pub proof fn opened_page_is_the_announced_one(
    args: DevArguments,
    addr: ServerAddr,
    announcement: Announcement,
)
    ensures
        call_ensures(announce, (&args, &addr), announcement) ==> {
            &&& (announcement.open is None) == args.no_open
            &&& announcement.line@ == green_text("ready"@) + " - started server on "@ + addr.text()
                + ", url: "@ + addr.uri_text()
            &&& announcement.open is Some ==> announcement.open->0@ == addr.uri_text()
        },
{
}

/// A server that is started and then built is what its arguments ask for: each argument is found
/// in the part of its own name.
pub proof fn started_server_is_built_as_asked<T, P>(
    args: DevArguments,
    dirs: NormalizedDirs,
    entries: Vec<String>,
    turbo_tasks: T,
    server: TurbopackDevServerBuilder<T, P>,
    built: Result<ServerParts<T, P>, BuildError>,
)
    ensures
        call_ensures(start_server::<T, P>, (&args, dirs, &entries, turbo_tasks), server)
            && call_ensures(TurbopackDevServerBuilder::<T, P>::build, (server,), built) ==> {
            &&& built is Ok
            &&& built->Ok_0.search@.host == args.hostname
            &&& built->Ok_0.search@.port == args.port
            &&& built->Ok_0.search@.max_attempts == 10
            &&& built->Ok_0.search@.allow_retry == (args.allow_retry == Some(true))
            &&& built->Ok_0.turbo_tasks == turbo_tasks
            &&& built->Ok_0.project_dir@ == dirs.project_dir@
            &&& built->Ok_0.root_dir@ == dirs.root_dir@
            &&& built->Ok_0.eager_compile == args.eager_compile
            &&& built->Ok_0.log_detail == args.common.log_detail
            &&& built->Ok_0.show_all == args.common.show_all
            &&& built->Ok_0.log_level == (match args.common.log_level {
                Some(level) => level,
                None => IssueSeverity::Warning,
            })
            &&& built->Ok_0.issue_reporter is None
            &&& built->Ok_0.entry_requests@.len() == entries@.len()
            &&& forall|i: int|
                0 <= i < entries@.len() ==> #[trigger] built->Ok_0.entry_requests@[i]
                    == EntryRequest::Relative(entries@[i])
        },
{
}

} // verus!
