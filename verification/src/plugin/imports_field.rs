//! The plugin for the `imports` field of a package manifest.
//!
//! The field maps specifiers that begin with `#` to targets, which may depend
//! on the active condition names. A target inside the package is handed on as
//! a path. A target that names another package is looked up under the module
//! root of the current package and taken through the field plugins of the
//! package found there.
use vstd::prelude::*;
use vstd::string::*;
use crate::outcome::{Outcome, OutcomeView};
use crate::package::{package_view, PackageView, SharedPackage};
use crate::plugin::Plugin;
use crate::request::{PathKind, Request, RequestView, SpecifierView};
use crate::resolver::{
    loaded_view, matched_view, may_alias, may_export, may_join, may_load, may_match, may_parse,
    Context, Host, Resolver, MAX_DEPTH,
};
use crate::text::{begins_with, contains, occurs_at, occurs_in, starts_with};

verus! {

/// The name of the directory under which a package keeps the packages it
/// depends on.
pub open spec fn module_root_name() -> Seq<char> {
    "node_modules"@
}

/// A message that names `target` and goes on with `rest`, which says what is
/// wrong with it.
pub open spec fn message_about(target: Seq<char>, rest: Seq<char>) -> Seq<char> {
    "package path "@ + target + rest
}

/// The message for a specifier that the `imports` field gives no target for.
pub open spec fn not_exported_message(target: Seq<char>) -> Seq<char> {
    message_about(target, " is not exported"@)
}

/// The message for a specifier that the `imports` field gives several targets
/// for.
pub open spec fn ambiguous_message(target: Seq<char>) -> Seq<char> {
    message_about(target, " has more than one target"@)
}

/// The message for a request that was sent through too many packages.
pub open spec fn too_deep_message(target: Seq<char>) -> Seq<char> {
    message_about(target, " is nested too deeply"@)
}

/// The value of a selected target, or of the message in its place.
pub open spec fn choice_view(choice: Result<String, String>) -> Result<Seq<char>, Seq<char>> {
    match choice {
        Ok(candidate) => Ok(candidate@),
        Err(message) => Err(message@),
    }
}

/// The one target that the matcher gave for `target`, or the message with
/// which resolution fails: the matcher's own, or one that says that there is
/// no target, or more than one.
pub open spec fn selected(
    target: Seq<char>,
    matched: Result<Seq<Seq<char>>, Seq<char>>,
) -> Result<Seq<char>, Seq<char>> {
    match matched {
        Err(message) => Err(message),
        Ok(candidates) => if candidates.len() == 0 {
            Err(not_exported_message(target))
        } else if candidates.len() == 1 {
            Ok(candidates[0])
        } else {
            Err(ambiguous_message(target))
        },
    }
}

/// The package that was loaded for a rewritten request does not sit under a
/// module root, so that the request is handed on without a nested chain.
pub open spec fn is_detached<T>(loaded: Option<PackageView<T>>) -> bool {
    loaded matches Some(package) && !occurs_in(module_root_name(), package.directory)
}

/// What the host said in the course of one run of the plugin. Each part
/// counts only where the plugin asks for it.
pub struct ImportsAnswers<T> {
    /// The targets that the matcher gave, or its failure.
    pub matched: Result<Seq<Seq<char>>, Seq<char>>,
    /// The selected target, parsed.
    pub parsed: SpecifierView,
    /// The module root of the package.
    pub module_root: Seq<char>,
    /// The path that the rewritten request addresses.
    pub path: Seq<char>,
    /// The package loaded for that path, or the failure to load it.
    pub loaded: Result<Option<PackageView<T>>, Seq<char>>,
    /// The outcome of the `exports` plugin of the loaded package.
    pub exports: OutcomeView,
    /// What the host said during the nested run of this plugin.
    pub nested: Option<Box<ImportsAnswers<T>>>,
    /// The outcome of the alias plugin of the loaded package.
    pub alias: OutcomeView,
}

/// One run of the plugin: the package whose `imports` field is applied, the
/// active condition names, the request, and the context of the run.
pub struct ImportsRun<T> {
    pub package: Option<PackageView<T>>,
    pub condition_names: Seq<Seq<char>>,
    pub request: RequestView,
    pub context: Context,
}

impl<T> ImportsRun<T> {
    /// The plugin has something to say about the request: there is a package,
    /// its manifest has an `imports` field, and the target begins with `#`.
    pub open spec fn handles(self) -> bool {
        &&& self.package matches Some(package) && package.imports_tree is Some
        &&& begins_with(self.request.target, '#')
    }

    /// The request that the plugin rewrites to: the parsed target, rooted at
    /// the module root where it names a package and at the package directory
    /// where it does not.
    pub open spec fn rewritten_request(self, answers: ImportsAnswers<T>) -> RequestView {
        RequestView::rooted(
            if answers.parsed.kind == PathKind::Normal {
                answers.module_root
            } else {
                self.package->0.directory
            },
            answers.parsed,
        )
    }

    /// A nested chain is run: the rewritten request names a package, which
    /// was loaded and is not detached, and the depth is not used up.
    pub open spec fn nests(self, answers: ImportsAnswers<T>) -> bool {
        &&& self.handles()
        &&& selected(self.request.target, answers.matched) is Ok
        &&& self.rewritten_request(answers).is_module()
        &&& answers.loaded matches Ok(loaded) && !is_detached(loaded)
        &&& self.context.depth < MAX_DEPTH
    }

    /// The run of the plugin for the loaded package on `request`, one level
    /// below this run.
    pub open spec fn nested_run(
        self,
        answers: ImportsAnswers<T>,
        request: RequestView,
    ) -> ImportsRun<T> {
        ImportsRun {
            package: answers.loaded->Ok_0,
            condition_names: self.condition_names,
            request,
            context: self.context.below(),
        }
    }

    /// The outcome of the run, given what the host answers.
    pub open spec fn outcome(self, answers: ImportsAnswers<T>) -> OutcomeView
        decreases answers, 2nat,
    {
        let rewritten = self.rewritten_request(answers);
        if !self.handles() {
            OutcomeView::Continue(self.request)
        } else if let Err(refusal) = selected(self.request.target, answers.matched) {
            OutcomeView::Failed(refusal, self.request)
        } else if !rewritten.is_module() {
            OutcomeView::Continue(rewritten)
        } else if let Err(failure) = answers.loaded {
            OutcomeView::Failed(failure, rewritten)
        } else if is_detached(answers.loaded->Ok_0) {
            OutcomeView::Continue(rewritten)
        } else if self.context.depth >= MAX_DEPTH {
            OutcomeView::Failed(too_deep_message(rewritten.target), rewritten)
        } else {
            self.chain_outcome(answers)
        }
    }

    /// The outcome of the nested run of this plugin, on the request that the
    /// `exports` plugin handed on.
    pub open spec fn nested_outcome(
        self,
        answers: ImportsAnswers<T>,
        exported: RequestView,
    ) -> OutcomeView
        decreases answers, 0nat,
    {
        match answers.nested {
            Some(nested) => self.nested_run(answers, exported).outcome(*nested),
            None => OutcomeView::Continue(exported),
        }
    }

    /// The outcome of the chain that is run for the rewritten request in the
    /// loaded package: the `exports` plugin, then this plugin, then the alias
    /// plugin, each on the request that the one before handed on.
    pub open spec fn chain_outcome(self, answers: ImportsAnswers<T>) -> OutcomeView
        decreases answers, 1nat,
    {
        match answers.exports {
            OutcomeView::Continue(exported) => match self.nested_outcome(answers, exported) {
                OutcomeView::Continue(_) => answers.alias,
                terminal => terminal,
            },
            terminal => terminal,
        }
    }

    /// `answers` are what `host` may say in the run: each answer that the
    /// plugin asks for is one that `host` may give to what it is asked.
    ///
    /// The matcher is asked for the target of the request in the `imports`
    /// field of the package, under the active condition names. The target
    /// that is selected is parsed. Where it names a package, the module root
    /// of the current package is found and the package that owns the
    /// rewritten request is loaded. Where a nested chain is run, its answers
    /// are the host's.
    pub open spec fn told_by<H: Host<ImportsTree = T>>(
        self,
        host: &H,
        answers: ImportsAnswers<T>,
    ) -> bool
        decreases answers, 1nat,
    {
        let rewritten = self.rewritten_request(answers);
        self.handles() ==> {
            &&& may_match(
                host,
                self.package->0.imports_tree->0,
                self.request.target,
                self.condition_names,
                answers.matched,
            )
            &&& selected(self.request.target, answers.matched) matches Ok(candidate) ==> {
                &&& may_parse(host, candidate, answers.parsed)
                &&& rewritten.is_module() ==> {
                    &&& may_join(
                        host,
                        self.package->0.directory,
                        module_root_name(),
                        answers.module_root,
                    )
                    &&& may_join(host, rewritten.base_directory, rewritten.target, answers.path)
                    &&& may_load(host, answers.path, answers.loaded)
                    &&& self.nests(answers) ==> self.chain_told_by(host, answers)
                }
            }
        }
    }

    /// The answers for the nested chain are the host's: the `exports` plugin
    /// of the loaded package is run on the rewritten request, this plugin on
    /// what it hands on, and the alias plugin on what this plugin hands on,
    /// all one level below this run.
    pub open spec fn chain_told_by<H: Host<ImportsTree = T>>(
        self,
        host: &H,
        answers: ImportsAnswers<T>,
    ) -> bool
        decreases answers, 0nat,
    {
        let loaded = answers.loaded->Ok_0;
        let below = self.context.below();
        &&& may_export(host, loaded, self.rewritten_request(answers), below, answers.exports)
        &&& answers.exports matches OutcomeView::Continue(exported) ==> {
            &&& answers.nested matches Some(nested) && self.nested_run(answers, exported).told_by(
                host,
                *nested,
            )
            &&& self.nested_outcome(answers, exported) matches OutcomeView::Continue(imported)
                ==> may_alias(host, loaded, imported, below, answers.alias)
        }
    }
}

/// The plugin for the `imports` field of one package, or of none where the
/// request belongs to no package.
pub struct ImportsFieldPlugin<'a, T> {
    pkg_info: &'a SharedPackage<T>,
}

impl<'a, T> ImportsFieldPlugin<'a, T> {
    /// The plugin for the package described by `pkg_info`.
    pub fn new(pkg_info: &'a SharedPackage<T>) -> (plugin: Self)
        ensures
            plugin.package() == pkg_info,
    {
        Self { pkg_info }
    }

    /// The package whose `imports` field the plugin applies.
    pub closed spec fn package(&self) -> &SharedPackage<T> {
        self.pkg_info
    }

    /// The run of the plugin under `condition_names` on `request` at
    /// `context`.
    pub open spec fn run(
        &self,
        condition_names: Seq<Seq<char>>,
        request: RequestView,
        context: Context,
    ) -> ImportsRun<T> {
        ImportsRun { package: package_view(*self.package()), condition_names, request, context }
    }

    /// The one target among what the matcher gave for `target`, or the
    /// message with which resolution fails.
    pub fn select(
        target: &str,
        matched: Result<Vec<String>, String>,
    ) -> (choice: Result<String, String>)
        ensures
            choice_view(choice) == selected(target@, matched_view(matched)),
    {
        match matched {
            Err(message) => Err(message),
            Ok(mut candidates) => {
                if candidates.len() > 1 {
                    return Err(message(target, " has more than one target"));
                }
                match candidates.pop() {
                    Some(candidate) => Ok(candidate),
                    None => Err(message(target, " is not exported")),
                }
            },
        }
    }

    /// Whether `loaded` is a package outside every module root.
    pub fn is_detached(loaded: &SharedPackage<T>) -> (yes: bool)
        ensures
            yes == is_detached(package_view(*loaded)),
    {
        match loaded {
            Some(package) => !contains(package.directory.as_str(), "node_modules"),
            None => false,
        }
    }
}

impl<'a, H: Host> Plugin<H> for ImportsFieldPlugin<'a, H::ImportsTree> {
    /// Redirects a request for a `#` specifier by the `imports` field of the
    /// package.
    ///
    /// A request that the plugin has nothing to say about goes on as it came.
    /// For any other, the target that the matcher gives is parsed; a path is
    /// handed on rooted at the package directory, and a module is rooted at
    /// the module root and taken through the chain of the package that owns
    /// it, one level deeper. A chain that would start at [`MAX_DEPTH`] is
    /// refused.
    ///
    /// In full: the outcome is the one that [`ImportsRun::outcome`] gives for
    /// answers that the host may give to what the plugin asks.
    fn apply(
        &self,
        resolver: &Resolver<'_, H>,
        request: Request,
        context: Context,
    ) -> (out: Outcome)
        ensures
            !self.run(resolver.options@.condition_names, request@, context).handles() ==> out
                == Outcome::Continue(request),
            exists|answers: ImportsAnswers<H::ImportsTree>|
                {
                    &&& self.run(resolver.options@.condition_names, request@, context).told_by(
                        resolver.host,
                        answers,
                    )
                    &&& out@ == #[trigger] self.run(
                        resolver.options@.condition_names,
                        request@,
                        context,
                    ).outcome(answers)
                },
        decreases MAX_DEPTH - context.depth,
    {
        let host = resolver.host;
        let ghost run = self.run(resolver.options@.condition_names, request@, context);
        let ghost mut answers = ImportsAnswers::<H::ImportsTree> {
            matched: Ok(Seq::empty()),
            parsed: SpecifierView { target: Seq::empty(), kind: PathKind::Relative },
            module_root: Seq::empty(),
            path: Seq::empty(),
            loaded: Ok(None),
            exports: OutcomeView::ResolvedIgnored,
            nested: None,
            alias: OutcomeView::ResolvedIgnored,
        };
        let package = match self.pkg_info {
            Some(package) => package,
            None => {
                proof {
                    lemma_unhandled_is_untouched(run, answers);
                }
                return Outcome::Continue(request);
            },
        };
        if !starts_with(request.target.as_str(), '#') {
            proof {
                lemma_unhandled_is_untouched(run, answers);
            }
            return Outcome::Continue(request);
        }
        let tree = match &package.imports_tree {
            Some(tree) => tree,
            None => {
                proof {
                    lemma_unhandled_is_untouched(run, answers);
                }
                return Outcome::Continue(request);
            },
        };
        let matched = host.match_imports(
            tree,
            request.target.as_str(),
            &resolver.options.condition_names,
        );
        proof {
            answers.matched = matched_view(matched);
        }
        let candidate = match Self::select(request.target.as_str(), matched) {
            Ok(candidate) => candidate,
            Err(message) => {
                assert(run.outcome(answers) == OutcomeView::Failed(message@, request@));
                return Outcome::Failed(message, request);
            },
        };
        let parsed = host.parse(candidate.as_str());
        let is_module = match parsed.kind {
            PathKind::Normal => true,
            _ => false,
        };
        proof {
            answers.parsed = parsed@;
        }
        if !is_module {
            let rewritten = Request::new(package.directory.clone(), parsed);
            assert(run.outcome(answers) == OutcomeView::Continue(rewritten@));
            return Outcome::Continue(rewritten);
        }
        let module_root = host.join_path(package.directory.as_str(), "node_modules");
        proof {
            answers.module_root = module_root@;
        }
        let rewritten = Request::new(module_root, parsed);
        let path = host.join_path(rewritten.base_directory.as_str(), rewritten.target.as_str());
        let loading = host.load_package_metadata(path.as_str());
        proof {
            answers.path = path@;
            answers.loaded = loaded_view(loading);
        }
        let loaded = match loading {
            Ok(loaded) => loaded,
            Err(message) => {
                assert(run.outcome(answers) == OutcomeView::Failed(message@, rewritten@));
                return Outcome::Failed(message, rewritten);
            },
        };
        if Self::is_detached(&loaded) {
            assert(run.outcome(answers) == OutcomeView::Continue(rewritten@));
            return Outcome::Continue(rewritten);
        }
        if context.depth >= MAX_DEPTH {
            let refusal = message(rewritten.target.as_str(), " is nested too deeply");
            assert(run.outcome(answers) == OutcomeView::Failed(refusal@, rewritten@));
            return Outcome::Failed(refusal, rewritten);
        }
        // The chain of the loaded package runs one level below this run.
        let below = Context { depth: context.depth + 1 };
        let exported = host.apply_exports_field(&loaded, rewritten, below);
        proof {
            answers.exports = exported@;
        }
        let imported = match exported {
            Outcome::Continue(request) => {
                let nested_plugin = ImportsFieldPlugin::new(&loaded);
                let imported = nested_plugin.apply(resolver, request, below);
                proof {
                    let nested_run = nested_plugin.run(run.condition_names, request@, below);
                    let nested = choose|nested: ImportsAnswers<H::ImportsTree>|
                        {
                            &&& nested_run.told_by(host, nested)
                            &&& imported@ == #[trigger] nested_run.outcome(nested)
                        };
                    answers.nested = Some(Box::new(nested));
                }
                imported
            },
            terminal => terminal,
        };
        let out = match imported {
            Outcome::Continue(request) => {
                let aliased = host.apply_alias_field(&loaded, request, below);
                proof {
                    answers.alias = aliased@;
                }
                aliased
            },
            terminal => terminal,
        };
        assert(run.outcome(answers) == out@);
        out
    }
}

/// The message that names `target` and goes on with `rest`.
fn message(target: &str, rest: &str) -> (message: String)
    ensures
        message@ == message_about(target@, rest@),
{
    String::from_str("package path ").concat(target).concat(rest)
}

/// A request that the plugin has nothing to say about goes on as it came.
pub proof fn lemma_unhandled_is_untouched<T>(run: ImportsRun<T>, answers: ImportsAnswers<T>)
    requires
        !run.handles(),
    ensures
        run.outcome(answers) == OutcomeView::Continue(run.request),
{
}

/// A request whose target does not begin with `#` goes on as it came,
/// whatever the package and whatever the host would answer.
pub proof fn lemma_other_specifiers_are_untouched<T>(
    run: ImportsRun<T>,
    answers: ImportsAnswers<T>,
)
    requires
        !begins_with(run.request.target, '#'),
    ensures
        run.outcome(answers) == OutcomeView::Continue(run.request),
{
}

/// Where the matcher gives no target for a specifier, resolution fails on the
/// request as it came, with a message that holds the specifier.
pub proof fn lemma_unmatched_specifier_fails<T>(run: ImportsRun<T>, answers: ImportsAnswers<T>)
    requires
        run.handles(),
        answers.matched == Ok::<Seq<Seq<char>>, Seq<char>>(Seq::empty()),
    ensures
        run.outcome(answers) == OutcomeView::Failed(
            not_exported_message(run.request.target),
            run.request,
        ),
        occurs_in(run.request.target, not_exported_message(run.request.target)),
{
    let target = run.request.target;
    let message = not_exported_message(target);
    let at = "package path "@.len() as int;
    assert(message.subrange(at, at + target.len()) =~= target);
    assert(occurs_at(target, message, at));
}

/// A target inside the package is handed on as a path rooted at the package
/// directory, without a package being loaded or a nested chain being run.
pub proof fn lemma_path_target_is_handed_on<T>(run: ImportsRun<T>, answers: ImportsAnswers<T>)
    requires
        run.handles(),
        selected(run.request.target, answers.matched) is Ok,
        answers.parsed.kind != PathKind::Normal,
    ensures
        run.outcome(answers) == OutcomeView::Continue(
            RequestView::rooted(run.package->0.directory, answers.parsed),
        ),
{
}

/// The nested chain stops at its first terminal outcome: one of the `exports`
/// plugin is the outcome of the chain, and so is one of the nested run of
/// this plugin.
pub proof fn lemma_nested_chain_stops_at_first_terminal<T>(
    run: ImportsRun<T>,
    answers: ImportsAnswers<T>,
)
    ensures
        answers.exports.is_terminal() ==> run.chain_outcome(answers) == answers.exports,
        answers.exports matches OutcomeView::Continue(exported) && run.nested_outcome(
            answers,
            exported,
        ).is_terminal() ==> run.chain_outcome(answers) == run.nested_outcome(
            answers,
            answers.exports->Continue_0,
        ),
{
}

} // verus!
