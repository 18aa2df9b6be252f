use field_plugins::{
    Context, Host, ImportsFieldPlugin, Options, Outcome, PackageMetadata, PathKind, Plugin,
    Request, Resolver, SharedPackage, Specifier, MAX_DEPTH,
};
use std::cell::RefCell;
use std::sync::Arc;

/// A parsed `imports` field: for each specifier its targets by condition, in
/// the order of their declaration.
struct Tree {
    entries: Vec<(&'static str, Vec<(&'static str, &'static str)>)>,
}

type Package = SharedPackage<Tree>;

/// What a sibling plugin does with a request.
#[derive(Clone)]
enum Sibling {
    Pass,
    Retarget(&'static str),
    End(Outcome),
}

impl Sibling {
    fn run(&self, request: Request) -> Outcome {
        match self {
            Sibling::Pass => Outcome::Continue(request),
            Sibling::Retarget(target) => Outcome::Continue(Request {
                target: target.to_string(),
                kind: kind_of(target),
                ..request
            }),
            Sibling::End(outcome) => outcome.clone(),
        }
    }
}

/// A host with a matcher for conditional targets, a table of packages by
/// path, and sibling plugins that do as they were told. It remembers the
/// calls that were made.
struct Scripted {
    packages: Vec<(&'static str, Result<Package, String>)>,
    exports: Sibling,
    alias: Sibling,
    log: RefCell<Vec<String>>,
}

impl Scripted {
    fn new() -> Self {
        Scripted {
            packages: Vec::new(),
            exports: Sibling::Pass,
            alias: Sibling::Pass,
            log: RefCell::new(Vec::new()),
        }
    }

    fn log(&self) -> Vec<String> {
        self.log.borrow().clone()
    }

    fn note(&self, line: String) {
        self.log.borrow_mut().push(line);
    }
}

fn kind_of(target: &str) -> PathKind {
    if target.starts_with('#') {
        PathKind::Internal
    } else if target.starts_with('/') {
        PathKind::Absolute
    } else if target.starts_with("./") || target.starts_with("../") {
        PathKind::Relative
    } else {
        PathKind::Normal
    }
}

fn directory_of(package: &Package) -> String {
    match package {
        Some(package) => package.directory.clone(),
        None => "-".to_string(),
    }
}

impl Host for Scripted {
    type ImportsTree = Tree;

    fn resolve(&self, _request: Request, _context: Context) -> Outcome {
        unreachable!()
    }

    fn parse(&self, specifier: &str) -> Specifier {
        self.note(format!("parse {specifier}"));
        Specifier { target: specifier.to_string(), kind: kind_of(specifier) }
    }

    fn join_path(&self, directory: &str, target: &str) -> String {
        format!("{directory}/{target}")
    }

    fn load_package_metadata(&self, path: &str) -> Result<Package, String> {
        self.note(format!("load {path}"));
        for (known, package) in &self.packages {
            if *known == path {
                return package.clone();
            }
        }
        Ok(None)
    }

    fn match_imports(
        &self,
        tree: &Tree,
        specifier: &str,
        condition_names: &Vec<String>,
    ) -> Result<Vec<String>, String> {
        self.note(format!("match {specifier}"));
        if specifier == "#broken" {
            return Err("the imports field is malformed".to_string());
        }
        for (key, targets) in &tree.entries {
            if *key == specifier {
                if specifier == "#all" {
                    return Ok(targets.iter().map(|(_, target)| target.to_string()).collect());
                }
                for (condition, target) in targets {
                    if *condition == "default" || condition_names.iter().any(|n| n == condition) {
                        return Ok(vec![target.to_string()]);
                    }
                }
            }
        }
        Ok(Vec::new())
    }

    fn apply_exports_field(
        &self,
        package: &Package,
        request: Request,
        context: Context,
    ) -> Outcome {
        self.note(format!(
            "exports {} {} at {}",
            directory_of(package),
            request.target,
            context.depth
        ));
        self.exports.run(request)
    }

    fn apply_alias_field(
        &self,
        package: &Package,
        request: Request,
        context: Context,
    ) -> Outcome {
        self.note(format!(
            "alias {} {} at {}",
            directory_of(package),
            request.target,
            context.depth
        ));
        self.alias.run(request)
    }
}

fn package(directory: &str, entries: Vec<(&'static str, Vec<(&'static str, &'static str)>)>) -> Package {
    Some(Arc::new(PackageMetadata {
        directory: directory.to_string(),
        alias_map: Vec::new(),
        imports_tree: Some(Tree { entries }),
    }))
}

fn app() -> Package {
    package(
        "/app",
        vec![
            ("#dep", vec![("browser", "./browser-dep.js"), ("default", "./dep.js")]),
            ("#node-only", vec![("node", "./node.js")]),
            ("#lib", vec![("default", "lib/main")]),
            ("#all", vec![("browser", "./a.js"), ("default", "./b.js")]),
            ("#loop", vec![("default", "loop")]),
        ],
    )
}

fn options(condition_names: &[&str]) -> Options {
    Options {
        browser_field: true,
        extensions: Vec::new(),
        condition_names: condition_names.iter().map(|n| n.to_string()).collect(),
    }
}

fn request(target: &str, base_directory: &str) -> Request {
    Request {
        target: target.to_string(),
        kind: kind_of(target),
        base_directory: base_directory.to_string(),
    }
}

fn run(host: &Scripted, package: &Package, condition_names: &[&str], request: Request) -> Outcome {
    let options = options(condition_names);
    let resolver = Resolver::new(&options, host);
    ImportsFieldPlugin::new(package).apply(&resolver, request, Context::new())
}

fn lines(expected: &[&str]) -> Vec<String> {
    expected.iter().map(|line| line.to_string()).collect()
}

#[test]
fn a_specifier_without_the_sigil_is_left_alone() {
    let host = Scripted::new();
    for target in ["lodash", "./dep.js", "../#dep", "/abs/#dep", "", "a#dep", "dep#"] {
        let out = run(&host, &app(), &["browser"], request(target, "/app/src"));
        assert_eq!(out, Outcome::Continue(request(target, "/app/src")));
    }
    assert!(host.log().is_empty());
}

#[test]
fn a_request_outside_any_package_is_left_alone() {
    let host = Scripted::new();
    let out = run(&host, &None, &["browser"], request("#dep", "/app/src"));
    assert_eq!(out, Outcome::Continue(request("#dep", "/app/src")));
    assert!(host.log().is_empty());
}

#[test]
fn a_package_without_an_imports_field_is_left_alone() {
    let host = Scripted::new();
    let bare: Package = Some(Arc::new(PackageMetadata {
        directory: "/app".to_string(),
        alias_map: Vec::new(),
        imports_tree: None,
    }));
    let out = run(&host, &bare, &["browser"], request("#dep", "/app/src"));
    assert_eq!(out, Outcome::Continue(request("#dep", "/app/src")));
    assert!(host.log().is_empty());
}

#[test]
fn an_active_condition_wins_over_the_default() {
    let host = Scripted::new();
    let out = run(&host, &app(), &["browser"], request("#dep", "/app/src"));
    assert_eq!(out, Outcome::Continue(request("./browser-dep.js", "/app")));
    assert_eq!(host.log(), lines(&["match #dep", "parse ./browser-dep.js"]));
}

#[test]
fn the_default_is_taken_without_an_active_condition() {
    let host = Scripted::new();
    let out = run(&host, &app(), &[], request("#dep", "/app/src"));
    assert_eq!(out, Outcome::Continue(request("./dep.js", "/app")));
    let out = run(&host, &app(), &["node", "import"], request("#dep", "/app/src"));
    assert_eq!(out, Outcome::Continue(request("./dep.js", "/app")));
}

#[test]
fn a_missing_specifier_fails_on_the_request_as_it_came() {
    let host = Scripted::new();
    let out = run(&host, &app(), &["browser"], request("#missing", "/app/src"));
    assert_eq!(
        out,
        Outcome::Failed(
            "package path #missing is not exported".to_string(),
            request("#missing", "/app/src")
        )
    );
    assert_eq!(host.log(), lines(&["match #missing"]));
}

#[test]
fn a_specifier_without_a_satisfied_condition_fails() {
    let host = Scripted::new();
    let out = run(&host, &app(), &["browser"], request("#node-only", "/app/src"));
    assert_eq!(
        out,
        Outcome::Failed(
            "package path #node-only is not exported".to_string(),
            request("#node-only", "/app/src")
        )
    );
}

#[test]
fn a_failure_of_the_matcher_is_handed_on() {
    let host = Scripted::new();
    let out = run(&host, &app(), &["browser"], request("#broken", "/app/src"));
    assert_eq!(
        out,
        Outcome::Failed(
            "the imports field is malformed".to_string(),
            request("#broken", "/app/src")
        )
    );
}

#[test]
fn more_than_one_target_is_refused() {
    let host = Scripted::new();
    let out = run(&host, &app(), &["browser"], request("#all", "/app/src"));
    assert_eq!(
        out,
        Outcome::Failed(
            "package path #all has more than one target".to_string(),
            request("#all", "/app/src")
        )
    );
    assert_eq!(host.log(), lines(&["match #all"]));
}

#[test]
fn a_module_target_runs_the_chain_of_its_package() {
    let mut host = Scripted::new();
    host.packages = vec![(
        "/app/node_modules/lib/main",
        Ok(package("/app/node_modules/lib", Vec::new())),
    )];
    let out = run(&host, &app(), &[], request("#lib", "/app/src"));
    assert_eq!(out, Outcome::Continue(request("lib/main", "/app/node_modules")));
    assert_eq!(
        host.log(),
        lines(&[
            "match #lib",
            "parse lib/main",
            "load /app/node_modules/lib/main",
            "exports /app/node_modules/lib lib/main at 1",
            "alias /app/node_modules/lib lib/main at 1",
        ])
    );
}

#[test]
fn a_module_target_without_a_manifest_runs_the_chain_without_a_package() {
    let host = Scripted::new();
    let out = run(&host, &app(), &[], request("#lib", "/app/src"));
    assert_eq!(out, Outcome::Continue(request("lib/main", "/app/node_modules")));
    assert_eq!(
        host.log(),
        lines(&[
            "match #lib",
            "parse lib/main",
            "load /app/node_modules/lib/main",
            "exports - lib/main at 1",
            "alias - lib/main at 1",
        ])
    );
}

#[test]
fn a_package_that_cannot_be_loaded_fails_on_the_rewritten_request() {
    let mut host = Scripted::new();
    host.packages =
        vec![("/app/node_modules/lib/main", Err("the manifest is not valid".to_string()))];
    let out = run(&host, &app(), &[], request("#lib", "/app/src"));
    assert_eq!(
        out,
        Outcome::Failed(
            "the manifest is not valid".to_string(),
            request("lib/main", "/app/node_modules")
        )
    );
    assert_eq!(
        host.log(),
        lines(&["match #lib", "parse lib/main", "load /app/node_modules/lib/main"])
    );
}

#[test]
fn a_package_outside_a_module_root_gets_no_chain() {
    let mut host = Scripted::new();
    host.packages = vec![("/app/node_modules/lib/main", Ok(package("/linked/lib", Vec::new())))];
    host.exports = Sibling::End(Outcome::ResolvedIgnored);
    let out = run(&host, &app(), &[], request("#lib", "/app/src"));
    assert_eq!(out, Outcome::Continue(request("lib/main", "/app/node_modules")));
    assert_eq!(
        host.log(),
        lines(&["match #lib", "parse lib/main", "load /app/node_modules/lib/main"])
    );
}

#[test]
fn a_terminal_outcome_of_the_exports_plugin_ends_the_chain() {
    let resolved = Outcome::Resolved("/app/node_modules/lib/dist/main.js".to_string());
    let mut host = Scripted::new();
    host.packages = vec![(
        "/app/node_modules/lib/main",
        Ok(package("/app/node_modules/lib", vec![("#lib", vec![("default", "./x.js")])])),
    )];
    host.exports = Sibling::End(resolved.clone());
    let out = run(&host, &app(), &[], request("#lib", "/app/src"));
    assert_eq!(out, resolved);
    assert_eq!(host.log().len(), 4);
    assert_eq!(host.log()[3], "exports /app/node_modules/lib lib/main at 1");
}

#[test]
fn a_terminal_outcome_of_the_alias_plugin_is_the_outcome() {
    let failed =
        Outcome::Failed("no such file".to_string(), request("lib/main", "/app/node_modules"));
    let mut host = Scripted::new();
    host.alias = Sibling::End(failed.clone());
    let out = run(&host, &app(), &[], request("#lib", "/app/src"));
    assert_eq!(out, failed);
}

#[test]
fn the_chain_hands_each_request_to_the_next_plugin() {
    let mut host = Scripted::new();
    host.packages = vec![(
        "/app/node_modules/lib/main",
        Ok(package(
            "/app/node_modules/lib",
            vec![("#inner", vec![("browser", "./inner.browser.js"), ("default", "./inner.js")])],
        )),
    )];
    host.exports = Sibling::Retarget("#inner");
    host.alias = Sibling::Retarget("./aliased.js");
    let out = run(&host, &app(), &["browser"], request("#lib", "/app/src"));
    assert_eq!(out, Outcome::Continue(request("./aliased.js", "/app/node_modules/lib")));
    assert_eq!(
        host.log(),
        lines(&[
            "match #lib",
            "parse lib/main",
            "load /app/node_modules/lib/main",
            "exports /app/node_modules/lib lib/main at 1",
            "match #inner",
            "parse ./inner.browser.js",
            "alias /app/node_modules/lib ./inner.browser.js at 1",
        ])
    );
}

#[test]
fn a_failure_of_the_nested_run_ends_the_chain() {
    let mut host = Scripted::new();
    host.packages = vec![(
        "/app/node_modules/lib/main",
        Ok(package("/app/node_modules/lib", vec![("#other", vec![("default", "./o.js")])])),
    )];
    host.exports = Sibling::Retarget("#inner");
    let out = run(&host, &app(), &[], request("#lib", "/app/src"));
    assert_eq!(
        out,
        Outcome::Failed(
            "package path #inner is not exported".to_string(),
            request("#inner", "/app/node_modules")
        )
    );
    assert!(host.log().iter().all(|line| !line.starts_with("alias")));
}

#[test]
fn a_manifest_that_sends_a_request_in_circles_is_refused() {
    let looping = package("/app/node_modules/loop", vec![("#loop", vec![("default", "loop")])]);
    let mut host = Scripted::new();
    host.packages = vec![
        ("/app/node_modules/loop", Ok(looping.clone())),
        ("/app/node_modules/loop/node_modules/loop", Ok(looping)),
    ];
    host.exports = Sibling::Retarget("#loop");
    let options = options(&[]);
    let resolver = Resolver::new(&options, &host);
    let out = ImportsFieldPlugin::new(&app()).apply(
        &resolver,
        request("#loop", "/app"),
        Context { depth: 3 },
    );
    assert_eq!(
        out,
        Outcome::Failed(
            "package path loop is nested too deeply".to_string(),
            request("loop", "/app/node_modules/loop/node_modules")
        )
    );
    let exports = host.log().iter().filter(|line| line.starts_with("exports")).count();
    assert_eq!(exports, MAX_DEPTH - 3);
    assert!(host.log().iter().all(|line| !line.starts_with("alias")));
}

#[test]
fn the_depth_limit_is_one_hundred_and_twenty_eight() {
    assert_eq!(MAX_DEPTH, 128);
    let mut host = Scripted::new();
    host.alias = Sibling::Retarget("./done.js");
    let options = options(&[]);
    let resolver = Resolver::new(&options, &host);

    let out = ImportsFieldPlugin::new(&app()).apply(
        &resolver,
        request("#lib", "/app"),
        Context { depth: 127 },
    );
    assert_eq!(out, Outcome::Continue(request("./done.js", "/app/node_modules")));
    assert_eq!(host.log().last().unwrap(), "alias - lib/main at 128");

    let out = ImportsFieldPlugin::new(&app()).apply(
        &resolver,
        request("#lib", "/app"),
        Context { depth: 128 },
    );
    assert_eq!(
        out,
        Outcome::Failed(
            "package path lib/main is nested too deeply".to_string(),
            request("lib/main", "/app/node_modules")
        )
    );
}

#[test]
fn the_depth_limit_does_not_touch_targets_inside_the_package() {
    let host = Scripted::new();
    let options = options(&[]);
    let resolver = Resolver::new(&options, &host);
    let out = ImportsFieldPlugin::new(&app()).apply(
        &resolver,
        request("#dep", "/app"),
        Context { depth: usize::MAX },
    );
    assert_eq!(out, Outcome::Continue(request("./dep.js", "/app")));
}

#[test]
fn select_takes_the_only_target() {
    type P<'a> = ImportsFieldPlugin<'a, Tree>;
    assert_eq!(P::select("#dep", Ok(vec!["./dep.js".to_string()])), Ok("./dep.js".to_string()));
    assert_eq!(
        P::select("#dep", Ok(Vec::new())),
        Err("package path #dep is not exported".to_string())
    );
    assert_eq!(
        P::select("#dep", Ok(vec!["./a.js".to_string(), "./b.js".to_string()])),
        Err("package path #dep has more than one target".to_string())
    );
    assert_eq!(P::select("#dep", Err("broken".to_string())), Err("broken".to_string()));
    assert_eq!(P::select("", Ok(Vec::new())), Err("package path  is not exported".to_string()));
}

#[test]
fn a_package_is_detached_when_it_sits_under_no_module_root() {
    type P<'a> = ImportsFieldPlugin<'a, Tree>;
    assert!(P::is_detached(&package("/linked/lib", Vec::new())));
    assert!(P::is_detached(&package("/app/node_module/lib", Vec::new())));
    assert!(P::is_detached(&package("", Vec::new())));
    assert!(!P::is_detached(&package("/app/node_modules/lib", Vec::new())));
    assert!(!P::is_detached(&package("/app/node_modules", Vec::new())));
    assert!(!P::is_detached(&None));
}
