use turbopack_cli_dev::source::{
    project_relative, source, EntryRequest, MainSource, NodeEnv, Request, ServedSource,
};

#[test]
fn project_below_the_root() {
    assert_eq!(project_relative("/repo", "/repo/apps/web", '/'), "apps/web");
    assert_eq!(project_relative("/", "/repo", '/'), "repo");
}

#[test]
fn project_at_the_root() {
    assert_eq!(project_relative("/repo", "/repo", '/'), "");
    assert_eq!(project_relative("", "", '/'), "");
}

#[test]
fn separators_become_slashes() {
    assert_eq!(
        project_relative("C:\\repo", "C:\\repo\\apps\\web", '\\'),
        "apps/web"
    );
    assert_eq!(project_relative("C:\\", "C:\\apps\\web", '\\'), "apps/web");
}

#[test]
fn one_leading_separator_is_dropped() {
    assert_eq!(project_relative("/repo", "/repo//web", '/'), "/web");
    assert_eq!(project_relative("/repo", "/repo-web", '/'), "-web");
    assert_eq!(project_relative("C:\\repo", "C:\\repo/web", '\\'), "/web");
}

#[test]
fn directories_with_any_characters() {
    assert_eq!(project_relative("/прое", "/прое/кт/日本", '/'), "кт/日本");
}

#[test]
fn relative_path_leads_back() {
    let relative = project_relative("C:\\repo", "C:\\repo\\apps\\web", '\\');
    assert!(!relative.contains('\\'));
    assert_eq!(
        format!("C:\\repo\\{}", relative.replace('/', "\\")),
        "C:\\repo\\apps\\web"
    );
}

#[test]
fn plan_of_a_project() {
    let entries = vec![
        EntryRequest::Relative("src/index".to_string()),
        EntryRequest::Module("react".to_string(), "/jsx".to_string()),
    ];
    let plan = source(
        "/repo",
        "/repo/apps/web",
        &entries,
        true,
        "last 1 Chrome versions",
        '/',
    );
    assert_eq!(plan.project_fs_root, "/repo");
    assert_eq!(plan.output_fs_root, "/repo/apps/web");
    assert_eq!(plan.project_path, "apps/web");
    assert_eq!(plan.build_output_path, ".turbopack/build");
    assert_eq!(plan.chunks_path, "chunks");
    assert_eq!(plan.assets_path, "assets");
    assert_eq!(
        plan.entry_requests,
        [
            Request::Relative {
                path: "src/index".to_string(),
                force_in_lookup_dir: false,
            },
            Request::Module {
                module: "react".to_string(),
                path: "/jsx".to_string(),
            },
        ]
    );
    assert!(plan.eager_compile);
    assert_eq!(plan.node_env, NodeEnv::Development);
    assert_eq!(plan.browserslist_query, "last 1 Chrome versions");
    assert_eq!(plan.static_assets_path, "public");
    assert_eq!(plan.static_assets_prefix, "");
    assert_eq!(
        plan.main_sources,
        [MainSource::StaticAssets, MainSource::WebEntry]
    );
    assert_eq!(plan.base_prefix, "");
    let routes: Vec<(&str, ServedSource)> = plan
        .routes
        .iter()
        .map(|route| (route.prefix.as_str(), route.target))
        .collect();
    assert_eq!(
        routes,
        [
            ("__turbopack__", ServedSource::Introspection),
            ("__turbo_tasks__", ServedSource::TaskGraph),
        ]
    );
    assert_eq!(plan.fallback, ServedSource::Main);
    assert_eq!(plan.introspection_roots, [ServedSource::Main]);
}
