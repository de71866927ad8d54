//! What a development server serves.
use vstd::prelude::*;
use vstd::string::StrSliceExecFns;

verus! {

/// An entry point of the application.
#[derive(Debug, PartialEq, Eq)]
pub enum EntryRequest {
    /// A path relative to the project.
    Relative(String),
    /// A module, and a path in it.
    Module(String, String),
}

/// A request that the module resolver is given for an entry point.
#[derive(Debug, PartialEq, Eq)]
pub enum Request {
    /// A path relative to the project, without query.
    Relative { path: String, force_in_lookup_dir: bool },
    /// A module and a path in it, without query.
    Module { module: String, path: String },
}

/// The environment that the application is built for.
#[derive(Clone, Copy, Debug, PartialEq, Eq, Structural)]
pub enum NodeEnv {
    Development,
    Production,
}

/// A part of the main source.
#[derive(Clone, Copy, Debug, PartialEq, Eq, Structural)]
pub enum MainSource {
    /// Files that are served as they are.
    StaticAssets,
    /// The compiled application.
    WebEntry,
}

/// A source that requests are answered from.
#[derive(Clone, Copy, Debug, PartialEq, Eq, Structural)]
pub enum ServedSource {
    /// The main source.
    Main,
    /// A view into other sources.
    Introspection,
    /// A view of the tasks.
    TaskGraph,
}

/// A reserved route.
pub struct Route {
    pub prefix: String,
    pub target: ServedSource,
}

/// What a development server serves, and from where.
pub struct SourcePlan {
    /// The directory that holds everything that is read.
    pub project_fs_root: String,
    /// The directory that holds everything that is written.
    pub output_fs_root: String,
    /// The project's path in the file system that is read.
    pub project_path: String,
    /// Where build results go, in the file system that is written.
    pub build_output_path: String,
    /// Where chunks go, below the build results.
    pub chunks_path: String,
    /// Where assets go, below the build results.
    pub assets_path: String,
    /// The entry points of the application, in order.
    pub entry_requests: Vec<Request>,
    /// Whether the application is compiled before it is asked for.
    pub eager_compile: bool,
    pub node_env: NodeEnv,
    pub browserslist_query: String,
    /// Where the static files are, below the project's path.
    pub static_assets_path: String,
    /// The route under which the static files are served.
    pub static_assets_prefix: String,
    /// The parts of the main source, the first one first asked.
    pub main_sources: Vec<MainSource>,
    /// The route under which everything is served.
    pub base_prefix: String,
    /// The reserved routes.
    pub routes: Vec<Route>,
    /// What answers requests that are under none of the reserved routes.
    pub fallback: ServedSource,
    /// The sources that introspection starts from.
    pub introspection_roots: Vec<ServedSource>,
}

/// `path` without a separator at its start.
pub open spec fn without_leading(path: Seq<char>, separator: char) -> Seq<char> {
    if path.len() > 0 && path[0] == separator {
        path.skip(1)
    } else {
        path
    }
}

/// `path` with each `from` replaced by `to`.
pub open spec fn replaced(path: Seq<char>, from: char, to: char) -> Seq<char> {
    Seq::new(
        path.len(),
        |i: int|
            if path[i] == from {
                to
            } else {
                path[i]
            },
    )
}

/// What `project_dir` adds to `root_dir`, without a separator at its start and with `/` between
/// its components.
pub open spec fn relative_text(
    root_dir: Seq<char>,
    project_dir: Seq<char>,
    separator: char,
) -> Seq<char> {
    replaced(without_leading(project_dir.skip(root_dir.len() as int), separator), separator, '/')
}

/// The request for an entry point.
pub open spec fn request_for(entry: EntryRequest) -> Request {
    match entry {
        EntryRequest::Relative(path) => Request::Relative { path, force_in_lookup_dir: false },
        EntryRequest::Module(module, path) => Request::Module { module, path },
    }
}

/// The path of `project_dir`, which starts with `root_dir`, relative to it. `separator` is the
/// character between the components of both.
pub fn project_relative(root_dir: &str, project_dir: &str, separator: char) -> (r: String)
    requires
        root_dir@.is_prefix_of(project_dir@),
    ensures
        r@ == relative_text(root_dir@, project_dir@, separator),
        ({
            let n = root_dir@.len() as int;
            let start = if n < project_dir@.len() && project_dir@[n] == separator {
                n + 1
            } else {
                n
            };
            &&& r@.len() == project_dir@.len() - start
            &&& forall|i: int|
                0 <= i < r@.len() ==> #[trigger] r@[i] == if project_dir@[start + i]
                    == separator {
                    '/'
                } else {
                    project_dir@[start + i]
                }
        }),
{
    let root_len: usize = root_dir.unicode_len();
    let project_len: usize = project_dir.unicode_len();
    let start: usize = if root_len < project_len && project_dir.get_char(root_len) == separator {
        root_len + 1
    } else {
        root_len
    };
    let rest = project_dir.substring_char(start, project_len);
    assert(rest@ =~= without_leading(project_dir@.skip(root_len as int), separator));
    let mut r = String::new();
    for c in iter: rest.chars()
        invariant
            iter.seq() == rest@,
            r@ == replaced(rest@.take(iter.index() as int), separator, '/'),
    {
        let ghost i = iter.index() as int;
        r.push(
            if c == separator {
                '/'
            } else {
                c
            },
        );
        assert(r@ =~= replaced(rest@.take(i + 1), separator, '/'));
    }
    assert(rest@.take(rest@.len() as int) =~= rest@);
    r
}

fn requests_for(entries: &Vec<EntryRequest>) -> (requests: Vec<Request>)
    ensures
        requests@ == entries@.map_values(|entry: EntryRequest| request_for(entry)),
        requests@.len() == entries@.len(),
        forall|i: int|
            0 <= i < entries@.len() ==> #[trigger] requests@[i] == match entries@[i] {
                EntryRequest::Relative(path) => Request::Relative {
                    path,
                    force_in_lookup_dir: false,
                },
                EntryRequest::Module(module, path) => Request::Module { module, path },
            },
{
    let mut requests: Vec<Request> = Vec::new();
    for i in 0..entries.len()
        invariant
            requests@ == entries@.take(i as int).map_values(
                |entry: EntryRequest| request_for(entry),
            ),
    {
        let request = match &entries[i] {
            EntryRequest::Relative(path) => Request::Relative {
                path: path.clone(),
                force_in_lookup_dir: false,
            },
            EntryRequest::Module(module, path) => Request::Module {
                module: module.clone(),
                path: path.clone(),
            },
        };
        requests.push(request);
        assert(requests@ =~= entries@.take(i + 1).map_values(
            |entry: EntryRequest| request_for(entry),
        ));
    }
    assert(entries@.take(entries.len() as int) =~= entries@);
    requests
}

/// Plans what is served of the project in `project_dir`, a directory below `root_dir`.
pub fn source(
    root_dir: &str,
    project_dir: &str,
    entry_requests: &Vec<EntryRequest>,
    eager_compile: bool,
    browserslist_query: &str,
    separator: char,
) -> (plan: SourcePlan)
    requires
        root_dir@.is_prefix_of(project_dir@),
    ensures
        plan.project_fs_root@ == root_dir@,
        plan.output_fs_root@ == project_dir@,
        plan.project_path@ == relative_text(root_dir@, project_dir@, separator),
        ({
            let n = root_dir@.len() as int;
            let start = if n < project_dir@.len() && project_dir@[n] == separator {
                n + 1
            } else {
                n
            };
            &&& plan.project_path@.len() == project_dir@.len() - start
            &&& forall|i: int|
                0 <= i < plan.project_path@.len() ==> #[trigger] plan.project_path@[i] == if project_dir@[start + i]
                    == separator {
                    '/'
                } else {
                    project_dir@[start + i]
                }
        }),
        plan.build_output_path@ == ".turbopack/build"@,
        plan.chunks_path@ == "chunks"@,
        plan.assets_path@ == "assets"@,
        plan.entry_requests@ == entry_requests@.map_values(
            |entry: EntryRequest| request_for(entry),
        ),
        plan.entry_requests@.len() == entry_requests@.len(),
        forall|i: int|
            0 <= i < entry_requests@.len() ==> #[trigger] plan.entry_requests@[i] == match entry_requests@[i] {
                EntryRequest::Relative(path) => Request::Relative {
                    path,
                    force_in_lookup_dir: false,
                },
                EntryRequest::Module(module, path) => Request::Module { module, path },
            },
        plan.eager_compile == eager_compile,
        plan.node_env == NodeEnv::Development,
        plan.browserslist_query@ == browserslist_query@,
        plan.static_assets_path@ == "public"@,
        plan.static_assets_prefix@ == Seq::<char>::empty(),
        plan.main_sources@ == seq![MainSource::StaticAssets, MainSource::WebEntry],
        plan.base_prefix@ == Seq::<char>::empty(),
        plan.routes@.len() == 2,
        plan.routes@[0].prefix@ == "__turbopack__"@,
        plan.routes@[0].target == ServedSource::Introspection,
        plan.routes@[1].prefix@ == "__turbo_tasks__"@,
        plan.routes@[1].target == ServedSource::TaskGraph,
        plan.fallback == ServedSource::Main,
        plan.introspection_roots@ == seq![ServedSource::Main],
{
    let introspection = Route {
        prefix: "__turbopack__".to_owned(),
        target: ServedSource::Introspection,
    };
    let task_graph = Route {
        prefix: "__turbo_tasks__".to_owned(),
        target: ServedSource::TaskGraph,
    };
    SourcePlan {
        project_fs_root: root_dir.to_owned(),
        output_fs_root: project_dir.to_owned(),
        project_path: project_relative(root_dir, project_dir, separator),
        build_output_path: ".turbopack/build".to_owned(),
        chunks_path: "chunks".to_owned(),
        assets_path: "assets".to_owned(),
        entry_requests: requests_for(entry_requests),
        eager_compile,
        node_env: NodeEnv::Development,
        browserslist_query: browserslist_query.to_owned(),
        static_assets_path: "public".to_owned(),
        static_assets_prefix: String::new(),
        main_sources: vec![MainSource::StaticAssets, MainSource::WebEntry],
        base_prefix: String::new(),
        routes: vec![introspection, task_graph],
        fallback: ServedSource::Main,
        introspection_roots: vec![ServedSource::Main],
    }
}

/// The path of the root itself is empty.
pub proof fn root_is_empty_path(root_dir: Seq<char>, separator: char)
    ensures
        relative_text(root_dir, root_dir, separator) == Seq::<char>::empty(),
{
}

/// The path of a directory below the root is what follows the root and one separator, with each
/// separator replaced. Where no separator follows the root, it is all that follows, likewise with
/// each separator replaced.
pub proof fn relative_path_of_directory(root_dir: Seq<char>, tail: Seq<char>, separator: char)
    ensures
        relative_text(root_dir, root_dir + seq![separator] + tail, separator) == replaced(
            tail,
            separator,
            '/',
        ),
        tail.len() == 0 || tail[0] != separator ==> relative_text(
            root_dir,
            root_dir + tail,
            separator,
        ) == replaced(tail, separator, '/'),
{
    assert((root_dir + seq![separator] + tail).skip(root_dir.len() as int) =~= seq![separator]
        + tail);
    assert((seq![separator] + tail).skip(1) =~= tail);
    assert((root_dir + tail).skip(root_dir.len() as int) =~= tail);
}

/// A relative path is written with `/` alone: no other separator is left in it.
pub proof fn relative_path_has_no_separator(
    root_dir: Seq<char>,
    project_dir: Seq<char>,
    separator: char,
)
    requires
        root_dir.is_prefix_of(project_dir),
        separator != '/',
    ensures
        !relative_text(root_dir, project_dir, separator).contains(separator),
{
}

/// A relative path whose components hold no `/` leads back to the directory.
pub proof fn relative_path_leads_back(root_dir: Seq<char>, tail: Seq<char>, separator: char)
    requires
        separator == '/' || !tail.contains('/'),
    ensures
        root_dir + seq![separator] + replaced(
            relative_text(root_dir, root_dir + seq![separator] + tail, separator),
            '/',
            separator,
        ) == root_dir + seq![separator] + tail,
{
    relative_path_of_directory(root_dir, tail, separator);
    let back = replaced(replaced(tail, separator, '/'), '/', separator);
    assert forall|i: int| 0 <= i < tail.len() implies back[i] == tail[i] by {
        assert(tail.contains(tail[i]));
    }
    assert(back =~= tail);
}

/// The request for an entry point is of the entry point's kind, and has its parts.
pub proof fn request_keeps_kind_and_parts(entry: EntryRequest)
    ensures
        (request_for(entry) is Module) == (entry is Module),
        (request_for(entry) is Relative) == (entry is Relative),
        match (entry, request_for(entry)) {
            (
                EntryRequest::Relative(p),
                Request::Relative { path, force_in_lookup_dir },
            ) => path == p && !force_in_lookup_dir,
            (EntryRequest::Module(m, p), Request::Module { module, path }) => module == m && path
                == p,
            _ => false,
        },
{
}

/// Different entry points have different requests.
pub proof fn requests_are_distinct(first: EntryRequest, second: EntryRequest)
    requires
        request_for(first) == request_for(second),
    ensures
        first == second,
{
}

/// A relative path has the characters of the directory that follow the root and at most one
/// separator, one for one, but for separators, which are written `/`.
pub proof fn relative_path_by_characters(
    root_dir: Seq<char>,
    project_dir: Seq<char>,
    separator: char,
)
    requires
        root_dir.is_prefix_of(project_dir),
    ensures
        ({
            let relative = relative_text(root_dir, project_dir, separator);
            let n = root_dir.len() as int;
            let start = if n < project_dir.len() && project_dir[n] == separator {
                n + 1
            } else {
                n
            };
            &&& relative.len() == project_dir.len() - start
            &&& forall|i: int|
                0 <= i < relative.len() ==> #[trigger] relative[i] == if project_dir[start + i]
                    == separator {
                    '/'
                } else {
                    project_dir[start + i]
                }
        }),
{
}

/// A plan has one request for each entry point, in order, of the entry point's kind and with its
/// parts.
pub proof fn plan_has_a_request_for_each_entry(
    root_dir: &str,
    project_dir: &str,
    entry_requests: Vec<EntryRequest>,
    eager_compile: bool,
    browserslist_query: &str,
    separator: char,
    plan: SourcePlan,
)
    ensures
        call_ensures(
            source,
            (
                root_dir,
                project_dir,
                &entry_requests,
                eager_compile,
                browserslist_query,
                separator,
            ),
            plan,
        ) ==> {
            &&& plan.entry_requests@.len() == entry_requests@.len()
            &&& forall|i: int|
                0 <= i < entry_requests@.len() ==> match (
                    entry_requests@[i],
                    #[trigger] plan.entry_requests@[i],
                ) {
                    (
                        EntryRequest::Relative(p),
                        Request::Relative { path, force_in_lookup_dir },
                    ) => path == p && !force_in_lookup_dir,
                    (EntryRequest::Module(m, p), Request::Module { module, path }) => module == m
                        && path == p,
                    _ => false,
                }
        },
{
}

} // verus!
