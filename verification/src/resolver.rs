//! The resolver as the plugins see it.
use vstd::prelude::*;
use crate::outcome::{Outcome, OutcomeView};
use crate::package::{package_view, PackageView, SharedPackage};
use crate::request::{Request, RequestView, Specifier, SpecifierView};

verus! {

/// The settings of a resolver that the field plugins read.
#[derive(Debug)]
pub struct Options {
    /// Whether the `browser` field is honoured at all.
    pub browser_field: bool,
    /// The file extensions tried when a path is compared with an alias key,
    /// in the order in which they are tried.
    pub extensions: Vec<String>,
    /// The condition names that are active when a conditional field is
    /// matched, in order of priority.
    pub condition_names: Vec<String>,
}

/// The mathematical value of [`Options`].
pub struct OptionsView {
    pub browser_field: bool,
    pub extensions: Seq<Seq<char>>,
    pub condition_names: Seq<Seq<char>>,
}

impl View for Options {
    type V = OptionsView;

    open spec fn view(&self) -> OptionsView {
        OptionsView {
            browser_field: self.browser_field,
            extensions: self.extensions.deep_view(),
            condition_names: self.condition_names.deep_view(),
        }
    }
}

/// The depth from which on no plugin starts a nested chain. A manifest that
/// sends a request through more packages than this is refused.
pub const MAX_DEPTH: usize = 128;

/// The state of one resolution attempt. It is handed down the call stack by
/// value: a nested resolution gets a context of its own, one level deeper,
/// and nothing is shared between attempts.
#[derive(Clone, Copy, Debug, PartialEq, Eq, Structural)]
pub struct Context {
    /// How many nested resolutions enclose the current one.
    pub depth: usize,
}

impl Context {
    /// The state at the start of an attempt.
    pub fn new() -> (context: Context)
        ensures
            context.depth == 0,
    {
        Context { depth: 0 }
    }

    /// The state one level below this one.
    pub open spec fn below(self) -> Context {
        Context { depth: (self.depth + 1) as usize }
    }
}

/// What the plugins need from the resolver that runs them and cannot do
/// themselves: everything that reads the file system, parses a manifest or
/// knows the grammar of a specifier.
///
/// The trait promises nothing of its own about what a method returns. An
/// implementation may promise more; the contract of a plugin speaks of what
/// the methods of its host may return, through the predicates that follow the
/// trait, and so holds for every host.
pub trait Host {
    /// The parsed form of a manifest's `imports` field.
    type ImportsTree;

    /// Resolves `request` from scratch, through the whole pipeline.
    fn resolve(&self, request: Request, context: Context) -> Outcome;

    /// Splits a raw specifier into its target and the kind of that target.
    fn parse(&self, specifier: &str) -> Specifier;

    /// The normalized path that `target` addresses when read from `directory`.
    fn join_path(&self, directory: &str, target: &str) -> String;

    /// The metadata of the package that owns `path`, if a manifest is found.
    fn load_package_metadata(
        &self,
        path: &str,
    ) -> Result<SharedPackage<Self::ImportsTree>, String>;

    /// The targets that `tree` gives for `specifier` under the active
    /// `condition_names`, best first.
    fn match_imports(
        &self,
        tree: &Self::ImportsTree,
        specifier: &str,
        condition_names: &Vec<String>,
    ) -> Result<Vec<String>, String>;

    /// Runs the plugin for the `exports` field of `package` on `request`.
    fn apply_exports_field(
        &self,
        package: &SharedPackage<Self::ImportsTree>,
        request: Request,
        context: Context,
    ) -> Outcome;

    /// Runs the plugin for the generic alias field of `package` on `request`.
    fn apply_alias_field(
        &self,
        package: &SharedPackage<Self::ImportsTree>,
        request: Request,
        context: Context,
    ) -> Outcome;
}

/// `host` may give `outcome` when it resolves `request` at `context`.
pub open spec fn may_resolve<H: Host>(
    host: &H,
    request: RequestView,
    context: Context,
    outcome: OutcomeView,
) -> bool {
    exists|asked: Request, given: Outcome|
        asked@ == request && given@ == outcome && #[trigger] call_ensures(
            H::resolve,
            (host, asked, context),
            given,
        )
}

/// `host` may give `parsed` when it parses `specifier`.
pub open spec fn may_parse<H: Host>(host: &H, specifier: Seq<char>, parsed: SpecifierView) -> bool {
    exists|asked: &str, given: Specifier|
        asked@ == specifier && given@ == parsed && #[trigger] call_ensures(
            H::parse,
            (host, asked),
            given,
        )
}

/// `host` may give `path` when it joins `target` to `directory`.
pub open spec fn may_join<H: Host>(
    host: &H,
    directory: Seq<char>,
    target: Seq<char>,
    path: Seq<char>,
) -> bool {
    exists|from: &str, to: &str, given: String|
        from@ == directory && to@ == target && given@ == path && #[trigger] call_ensures(
            H::join_path,
            (host, from, to),
            given,
        )
}

/// The value of what loading a package hands back.
pub open spec fn loaded_view<T>(
    loaded: Result<SharedPackage<T>, String>,
) -> Result<Option<PackageView<T>>, Seq<char>> {
    match loaded {
        Ok(package) => Ok(package_view(package)),
        Err(message) => Err(message@),
    }
}

/// `host` may give `loaded` when it loads the package that owns `path`.
pub open spec fn may_load<H: Host>(
    host: &H,
    path: Seq<char>,
    loaded: Result<Option<PackageView<H::ImportsTree>>, Seq<char>>,
) -> bool {
    exists|asked: &str, given: Result<SharedPackage<H::ImportsTree>, String>|
        asked@ == path && loaded_view(given) == loaded && #[trigger] call_ensures(
            H::load_package_metadata,
            (host, asked),
            given,
        )
}

/// The value of what the matcher hands back.
pub open spec fn matched_view(
    matched: Result<Vec<String>, String>,
) -> Result<Seq<Seq<char>>, Seq<char>> {
    match matched {
        Ok(candidates) => Ok(candidates.deep_view()),
        Err(message) => Err(message@),
    }
}

/// `host` may give `matched` when it matches `specifier` against `tree` under
/// `condition_names`.
pub open spec fn may_match<H: Host>(
    host: &H,
    tree: H::ImportsTree,
    specifier: Seq<char>,
    condition_names: Seq<Seq<char>>,
    matched: Result<Seq<Seq<char>>, Seq<char>>,
) -> bool {
    exists|asked: &str, names: &Vec<String>, given: Result<Vec<String>, String>|
        asked@ == specifier && names.deep_view() == condition_names && matched_view(given)
            == matched && #[trigger] call_ensures(
            H::match_imports,
            (host, &tree, asked, names),
            given,
        )
}

/// `host` may give `outcome` when it runs the `exports` plugin of `package` on
/// `request` at `context`.
pub open spec fn may_export<H: Host>(
    host: &H,
    package: Option<PackageView<H::ImportsTree>>,
    request: RequestView,
    context: Context,
    outcome: OutcomeView,
) -> bool {
    exists|of: &SharedPackage<H::ImportsTree>, asked: Request, given: Outcome|
        package_view(*of) == package && asked@ == request && given@ == outcome
            && #[trigger] call_ensures(H::apply_exports_field, (host, of, asked, context), given)
}

/// `host` may give `outcome` when it runs the alias plugin of `package` on
/// `request` at `context`.
pub open spec fn may_alias<H: Host>(
    host: &H,
    package: Option<PackageView<H::ImportsTree>>,
    request: RequestView,
    context: Context,
    outcome: OutcomeView,
) -> bool {
    exists|of: &SharedPackage<H::ImportsTree>, asked: Request, given: Outcome|
        package_view(*of) == package && asked@ == request && given@ == outcome
            && #[trigger] call_ensures(H::apply_alias_field, (host, of, asked, context), given)
}

/// A read-only handle to a resolver: its options and its host.
pub struct Resolver<'a, H: Host> {
    pub options: &'a Options,
    pub host: &'a H,
}

impl<'a, H: Host> Resolver<'a, H> {
    /// A handle to the resolver with these options and this host.
    pub fn new(options: &'a Options, host: &'a H) -> (resolver: Self)
        ensures
            resolver.options == options,
            resolver.host == host,
    {
        Resolver { options, host }
    }
}

} // verus!
