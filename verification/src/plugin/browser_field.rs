//! The plugin for the `browser` field of a package manifest.
//!
//! The field maps specifiers and package-relative paths to replacements, or to
//! `false` for a module that is left out of a browser build. The plugin walks
//! the entries in the order of their declaration and lets the first entry that
//! matches the request and settles it decide.
use vstd::prelude::*;
use vstd::string::*;
use crate::outcome::{Outcome, OutcomeView};
use crate::package::{AliasTarget, AliasTargetView, PackageMetadata, PackageView};
use crate::plugin::Plugin;
use crate::request::{PathKind, Request, RequestView, SpecifierView};
use crate::resolver::{may_join, may_parse, may_resolve, Context, Host, OptionsView, Resolver};

verus! {

/// What an entry of the alias map asks for, once its key has matched.
#[derive(Debug, PartialEq, Eq)]
pub enum Redirect {
    /// The request stands for an empty module.
    Ignore,
    /// The entry maps its key to itself: the request stays as it is, and no
    /// later entry is looked at.
    Keep,
    /// The request is replaced by one for this target.
    Rewrite(String),
}

/// The mathematical value of a [`Redirect`].
pub enum RedirectView {
    Ignore,
    Keep,
    Rewrite(Seq<char>),
}

impl View for Redirect {
    type V = RedirectView;

    open spec fn view(&self) -> RedirectView {
        match self {
            Redirect::Ignore => RedirectView::Ignore,
            Redirect::Keep => RedirectView::Keep,
            Redirect::Rewrite(target) => RedirectView::Rewrite(target@),
        }
    }
}

/// What the entry `key: value` asks for.
pub open spec fn redirect_of(key: Seq<char>, value: AliasTargetView) -> RedirectView {
    match value {
        AliasTargetView::Ignored => RedirectView::Ignore,
        AliasTargetView::Target(target) => if target == key {
            RedirectView::Keep
        } else {
            RedirectView::Rewrite(target)
        },
    }
}

/// The path of an alias key is the path of the request, as it stands or with
/// one of `extensions` appended.
pub open spec fn path_matches(
    alias_path: Seq<char>,
    request_path: Seq<char>,
    extensions: Seq<Seq<char>>,
) -> bool {
    ||| alias_path == request_path
    ||| exists|i: int|
        0 <= i < extensions.len() && alias_path == request_path + #[trigger] extensions[i]
}

/// What the host said about one entry of the alias map. Each part counts only
/// where the plugin asks for it.
pub struct AliasAnswer {
    /// The normalized path of the entry's key under the package root.
    pub path: Seq<char>,
    /// The entry's target, parsed.
    pub parsed: SpecifierView,
    /// The outcome of resolving the rewritten request.
    pub outcome: OutcomeView,
}

/// What the host said in the course of one run of the plugin.
pub struct BrowserAnswers {
    /// The normalized path that the request addresses.
    pub request_path: Seq<char>,
    /// One answer for each entry of the alias map, in the order of the map.
    pub entries: Seq<AliasAnswer>,
}

impl BrowserAnswers {
    /// These answers, with `answer` for the entry at `at`.
    pub open spec fn with_answer(self, at: int, answer: AliasAnswer) -> BrowserAnswers {
        BrowserAnswers { request_path: self.request_path, entries: self.entries.update(at, answer) }
    }

    /// These answers, with `outcome` as what the resolver gave for the entry
    /// at `at`.
    pub open spec fn with_outcome(self, at: int, outcome: OutcomeView) -> BrowserAnswers {
        self.with_answer(
            at,
            AliasAnswer { path: self.entries[at].path, parsed: self.entries[at].parsed, outcome },
        )
    }
}

/// One run of the plugin: the package whose alias map is applied, the options
/// of the resolver, the request, and the context of the run.
pub struct BrowserRun<T> {
    pub package: PackageView<T>,
    pub options: OptionsView,
    pub request: RequestView,
    pub context: Context,
}

impl<T> BrowserRun<T> {
    /// The same run on another request.
    pub open spec fn on(self, request: RequestView) -> BrowserRun<T> {
        BrowserRun {
            package: self.package,
            options: self.options,
            request,
            context: self.context,
        }
    }

    /// The key of the entry at `at`.
    pub open spec fn key(self, at: int) -> Seq<char> {
        self.package.alias_map[at].0
    }

    /// What the entry at `at` asks for.
    pub open spec fn redirect(self, at: int) -> RedirectView {
        redirect_of(self.package.alias_map[at].0, self.package.alias_map[at].1)
    }

    /// The entry at `at` matches the request: by its key for a request that
    /// names a module, by its path for any other.
    pub open spec fn entry_matches(self, answers: BrowserAnswers, at: int) -> bool {
        if self.request.is_module() {
            self.key(at) == self.request.target
        } else {
            path_matches(answers.entries[at].path, answers.request_path, self.options.extensions)
        }
    }

    /// The entry at `at` is handed to the resolver, once the scan has come to
    /// it: it matches and asks for a rewrite.
    pub open spec fn asks_resolver(self, answers: BrowserAnswers, at: int) -> bool {
        self.entry_matches(answers, at) && self.redirect(at) is Rewrite
    }

    /// The request that the entry at `at` is rewritten to: its target, of the
    /// kind that the host found for it, rooted at the package directory.
    pub open spec fn rewritten_request(self, answers: BrowserAnswers, at: int) -> RequestView {
        RequestView {
            target: self.redirect(at)->Rewrite_0,
            kind: answers.entries[at].parsed.kind,
            base_directory: self.package.directory,
        }
    }

    /// The scan ends at the entry at `at`, once it has come to it: the entry
    /// matches, and either needs no resolver or got a terminal outcome from
    /// it.
    pub open spec fn stops_at(self, answers: BrowserAnswers, at: int) -> bool {
        &&& self.entry_matches(answers, at)
        &&& self.redirect(at) is Rewrite ==> answers.entries[at].outcome.is_terminal()
    }

    /// The outcome of a scan that ends at the entry at `at`.
    pub open spec fn outcome_at(self, answers: BrowserAnswers, at: int) -> OutcomeView {
        match self.redirect(at) {
            RedirectView::Ignore => OutcomeView::ResolvedIgnored,
            RedirectView::Keep => OutcomeView::Continue(self.request),
            RedirectView::Rewrite(_) => answers.entries[at].outcome,
        }
    }

    /// The outcome of scanning the alias map from the entry at `from` on.
    pub open spec fn scan(self, answers: BrowserAnswers, from: int) -> OutcomeView
        decreases self.package.alias_map.len() - from,
    {
        if from < 0 || from >= self.package.alias_map.len() {
            OutcomeView::Continue(self.request)
        } else if self.stops_at(answers, from) {
            self.outcome_at(answers, from)
        } else {
            self.scan(answers, from + 1)
        }
    }

    /// The outcome of the run, given what the host answers.
    pub open spec fn outcome(self, answers: BrowserAnswers) -> OutcomeView {
        if self.options.browser_field {
            self.scan(answers, 0)
        } else {
            OutcomeView::Continue(self.request)
        }
    }

    /// The scan comes to the entry at `at`: it stops at no entry before it.
    pub open spec fn comes_to(self, answers: BrowserAnswers, at: int) -> bool {
        forall|before: int| 0 <= before < at ==> !self.stops_at(answers, before)
    }

    /// The answer for the entry at `at` is one that `host` may give: the path
    /// of the key, where the request is matched by paths, and for an entry
    /// that is handed to the resolver the parsed target and the outcome of
    /// resolving the rewritten request in the context of the run.
    pub open spec fn told_at<H: Host<ImportsTree = T>>(
        self,
        host: &H,
        answers: BrowserAnswers,
        at: int,
    ) -> bool {
        let answer = answers.entries[at];
        &&& !self.request.is_module() ==> may_join(
            host,
            self.package.directory,
            self.key(at),
            answer.path,
        )
        &&& self.asks_resolver(answers, at) ==> {
            &&& may_parse(host, self.redirect(at)->Rewrite_0, answer.parsed)
            &&& may_resolve(
                host,
                self.rewritten_request(answers, at),
                self.context,
                answer.outcome,
            )
        }
    }

    /// `answers` are what `host` may say in the run: there is one for each
    /// entry, and with the field switched on the path of the request, where
    /// it is matched by paths, and the answer for each entry that the scan
    /// comes to are such as `host` may give.
    pub open spec fn told_by<H: Host<ImportsTree = T>>(
        self,
        host: &H,
        answers: BrowserAnswers,
    ) -> bool {
        &&& answers.entries.len() == self.package.alias_map.len()
        &&& self.options.browser_field ==> {
            &&& self.path_told_by(host, answers)
            &&& forall|at: int|
                0 <= at < self.package.alias_map.len() && self.comes_to(answers, at)
                    ==> #[trigger] self.told_at(host, answers, at)
        }
    }

    /// The path of the request, where it is matched by paths, is one that
    /// `host` may give.
    pub open spec fn path_told_by<H: Host<ImportsTree = T>>(
        self,
        host: &H,
        answers: BrowserAnswers,
    ) -> bool {
        !self.request.is_module() ==> may_join(
            host,
            self.request.base_directory,
            self.request.target,
            answers.request_path,
        )
    }

    /// The scan has passed the entries before `upto` without stopping, with
    /// answers that `host` may give.
    spec fn passed<H: Host<ImportsTree = T>>(
        self,
        host: &H,
        answers: BrowserAnswers,
        upto: int,
    ) -> bool {
        &&& self.options.browser_field
        &&& answers.entries.len() == self.package.alias_map.len()
        &&& 0 <= upto <= self.package.alias_map.len()
        &&& self.path_told_by(host, answers)
        &&& forall|at: int| 0 <= at < upto ==> !#[trigger] self.stops_at(answers, at)
        &&& forall|at: int| 0 <= at < upto ==> #[trigger] self.told_at(host, answers, at)
    }
}

/// The plugin for the `browser` field of one package.
pub struct BrowserFieldPlugin<'a, T> {
    pkg_info: &'a PackageMetadata<T>,
}

impl<'a, T> BrowserFieldPlugin<'a, T> {
    /// The plugin for the package described by `pkg_info`.
    pub fn new(pkg_info: &'a PackageMetadata<T>) -> (plugin: Self)
        ensures
            plugin.package() == pkg_info,
    {
        Self { pkg_info }
    }

    /// The package whose `browser` field the plugin applies.
    pub closed spec fn package(&self) -> &PackageMetadata<T> {
        self.pkg_info
    }

    /// The run of the plugin under `options` on `request` at `context`.
    pub open spec fn run(
        &self,
        options: OptionsView,
        request: RequestView,
        context: Context,
    ) -> BrowserRun<T> {
        BrowserRun { package: self.package()@, options, request, context }
    }

    /// Whether `alias_key` is, letter for letter, the target of `request`.
    /// This is how a request that names a module is matched.
    pub fn request_target_is_module_and_equal_alias_key(
        alias_key: &String,
        request: &Request,
    ) -> (yes: bool)
        ensures
            yes == (request@.target == alias_key@),
    {
        request.target == *alias_key
    }

    /// Whether `alias_path` is `request_path`, as it stands or with one of
    /// `extensions` appended. This is how a request for a path is matched;
    /// both paths are normalized.
    pub fn request_path_is_equal_alias_key_path(
        alias_path: &String,
        request_path: &String,
        extensions: &[String],
    ) -> (yes: bool)
        ensures
            yes == path_matches(alias_path@, request_path@, extensions.deep_view()),
    {
        if *alias_path == *request_path {
            return true;
        }
        let mut i: usize = 0;
        while i < extensions.len()
            invariant
                i <= extensions.len(),
                alias_path@ != request_path@,
                forall|j: int|
                    0 <= j < i ==> alias_path@ != request_path@ + #[trigger] extensions.deep_view()[j],
            decreases extensions.len() - i,
        {
            let with_extension = request_path.clone().concat(extensions[i].as_str());
            assert(with_extension@ == request_path@ + extensions.deep_view()[i as int]);
            if *alias_path == with_extension {
                return true;
            }
            i += 1;
        }
        false
    }

    /// What the entry `alias_key: alias_target` asks for, once it has matched.
    pub fn redirect(alias_key: &String, alias_target: &AliasTarget) -> (redirect: Redirect)
        ensures
            redirect@ == redirect_of(alias_key@, alias_target@),
    {
        match alias_target {
            AliasTarget::Ignored => Redirect::Ignore,
            AliasTarget::Target(target) => {
                if *alias_key == *target {
                    Redirect::Keep
                } else {
                    Redirect::Rewrite(target.clone())
                }
            },
        }
    }

    /// The request for `target`, of kind `kind`, rooted at the package
    /// directory.
    pub fn rewritten(&self, target: String, kind: PathKind) -> (request: Request)
        ensures
            request@ == (RequestView {
                target: target@,
                kind,
                base_directory: self.package()@.directory,
            }),
    {
        Request { target, kind, base_directory: self.pkg_info.directory.clone() }
    }
}

impl<'a, H: Host> Plugin<H> for BrowserFieldPlugin<'a, H::ImportsTree> {
    /// Applies the alias map of the package to `request`.
    ///
    /// With the field switched off, and where no entry matches, the request
    /// goes on as it came. Otherwise the first entry at which the scan stops
    /// decides: an ignored module ends resolution, an entry that maps its key
    /// to itself lets the request go on as it came, and a rewrite is handed to
    /// the resolver, whose terminal outcome is the outcome of the plugin. The
    /// plugin never hands on a request other than the one it was given.
    ///
    /// In full: the outcome is the one that [`BrowserRun::outcome`] gives for
    /// answers that the host may give to what the plugin asks.
    fn apply(
        &self,
        resolver: &Resolver<'_, H>,
        request: Request,
        context: Context,
    ) -> (out: Outcome)
        ensures
            !resolver.options.browser_field ==> out == Outcome::Continue(request),
            out is Continue ==> out == Outcome::Continue(request),
            exists|answers: BrowserAnswers|
                {
                    &&& self.run(resolver.options@, request@, context).told_by(
                        resolver.host,
                        answers,
                    )
                    &&& out@ == #[trigger] self.run(resolver.options@, request@, context).outcome(
                        answers,
                    )
                },
    {
        let package = self.pkg_info;
        let host = resolver.host;
        let ghost run = self.run(resolver.options@, request@, context);
        let ghost silent = AliasAnswer {
            path: Seq::empty(),
            parsed: SpecifierView { target: Seq::empty(), kind: PathKind::Normal },
            outcome: OutcomeView::Continue(request@),
        };
        let ghost mut answers = BrowserAnswers {
            request_path: Seq::empty(),
            entries: Seq::new(package.alias_map@.len(), |at: int| silent),
        };
        if !resolver.options.browser_field {
            proof {
                lemma_switched_off_is_untouched(run, answers);
            }
            return Outcome::Continue(request);
        }
        let is_module = request.is_module();
        let request_path = if is_module {
            String::new()
        } else {
            host.join_path(request.base_directory.as_str(), request.target.as_str())
        };
        proof {
            answers.request_path = request_path@;
        }
        let mut i: usize = 0;
        while i < package.alias_map.len()
            invariant
                package == self.package(),
                host == resolver.host,
                run == self.run(resolver.options@, request@, context),
                is_module == request@.is_module(),
                answers.request_path == request_path@,
                run.passed(host, answers, i as int),
            decreases package.alias_map.len() - i,
        {
            let alias_key = &package.alias_map[i].0;
            let alias_target = &package.alias_map[i].1;
            let ghost mut answer = silent;
            let matched = if is_module {
                Self::request_target_is_module_and_equal_alias_key(alias_key, &request)
            } else {
                let alias_path = host.join_path(package.directory.as_str(), alias_key.as_str());
                proof {
                    answer.path = alias_path@;
                }
                Self::request_path_is_equal_alias_key_path(
                    &alias_path,
                    &request_path,
                    resolver.options.extensions.as_slice(),
                )
            };
            if matched {
                match Self::redirect(alias_key, alias_target) {
                    Redirect::Ignore => {
                        proof {
                            lemma_stopped(run, host, answers, i as int, answer);
                        }
                        return Outcome::ResolvedIgnored;
                    },
                    Redirect::Keep => {
                        proof {
                            lemma_stopped(run, host, answers, i as int, answer);
                        }
                        return Outcome::Continue(request);
                    },
                    Redirect::Rewrite(target) => {
                        let parsed = host.parse(target.as_str());
                        let state = host.resolve(self.rewritten(target, parsed.kind), context);
                        proof {
                            answer.parsed = parsed@;
                            answer.outcome = state@;
                        }
                        if state.is_terminal() {
                            proof {
                                lemma_stopped(run, host, answers, i as int, answer);
                            }
                            return state;
                        }
                    },
                }
            }
            proof {
                lemma_answer_leaves_earlier_entries(run, host, answers, i as int, answer);
                answers = answers.with_answer(i as int, answer);
            }
            i += 1;
        }
        proof {
            lemma_passed_all(run, host, answers);
        }
        Outcome::Continue(request)
    }
}

/// With the field switched off the plugin hands every request on as it came.
pub proof fn lemma_switched_off_is_untouched<T>(run: BrowserRun<T>, answers: BrowserAnswers)
    requires
        !run.options.browser_field,
    ensures
        run.outcome(answers) == OutcomeView::Continue(run.request),
{
}

/// An entry that maps its key to itself is never rewritten and never handed
/// to the resolver: a scan that stops at it hands the request on as it came,
/// and what the resolver would have said about it changes no outcome.
pub proof fn lemma_self_reference_is_kept<T>(
    run: BrowserRun<T>,
    answers: BrowserAnswers,
    at: int,
    other: OutcomeView,
)
    requires
        answers.entries.len() == run.package.alias_map.len(),
        0 <= at < run.package.alias_map.len(),
        run.package.alias_map[at].1 == AliasTargetView::Target(run.package.alias_map[at].0),
    ensures
        !run.asks_resolver(answers, at),
        run.entry_matches(answers, at) ==> run.stops_at(answers, at) && run.outcome_at(answers, at)
            == OutcomeView::Continue(run.request),
        run.outcome(answers) == run.outcome(answers.with_outcome(at, other)),
{
    lemma_unasked_outcome_is_unread(run, answers, at, other, 0);
}

/// Where the entry at `at` is not handed to the resolver, a scan does not read
/// the outcome that stands for it.
pub proof fn lemma_unasked_outcome_is_unread<T>(
    run: BrowserRun<T>,
    answers: BrowserAnswers,
    at: int,
    other: OutcomeView,
    from: int,
)
    requires
        answers.entries.len() == run.package.alias_map.len(),
        0 <= at < run.package.alias_map.len(),
        !run.asks_resolver(answers, at),
        0 <= from,
    ensures
        run.scan(answers, from) == run.scan(answers.with_outcome(at, other), from),
    decreases run.package.alias_map.len() - from,
{
    if from < run.package.alias_map.len() {
        lemma_unasked_outcome_is_unread(run, answers, at, other, from + 1);
    }
}

/// A request that no entry matches goes on as it came.
pub proof fn lemma_no_match_is_untouched<T>(run: BrowserRun<T>, answers: BrowserAnswers)
    requires
        forall|at: int|
            0 <= at < run.package.alias_map.len() ==> !#[trigger] run.entry_matches(answers, at),
    ensures
        run.outcome(answers) == OutcomeView::Continue(run.request),
{
    lemma_scan_passes(run, answers, 0, run.package.alias_map.len() as int);
}

/// The plugin never hands on a request that it has changed, so that running
/// it again on what it handed on gives the same outcome once more.
pub proof fn lemma_rerun_changes_nothing<T>(run: BrowserRun<T>, answers: BrowserAnswers)
    ensures
        run.outcome(answers) matches OutcomeView::Continue(next) ==> next == run.request
            && run.on(next).outcome(answers) == OutcomeView::Continue(next),
{
    lemma_scan_continues_unchanged(run, answers, 0);
}

/// The entries decide in the order of their declaration: the first entry at
/// which the scan stops gives the outcome.
pub proof fn lemma_first_stop_decides<T>(run: BrowserRun<T>, answers: BrowserAnswers, at: int)
    requires
        run.options.browser_field,
        0 <= at < run.package.alias_map.len(),
        run.stops_at(answers, at),
        run.comes_to(answers, at),
    ensures
        run.outcome(answers) == run.outcome_at(answers, at),
{
    lemma_scan_passes(run, answers, 0, at);
}

/// An ignored module ends resolution: where the first entry at which the scan
/// stops maps its key to `false`, the request resolves to nothing.
pub proof fn lemma_ignored_entry_resolves_to_nothing<T>(
    run: BrowserRun<T>,
    answers: BrowserAnswers,
    at: int,
)
    requires
        run.options.browser_field,
        0 <= at < run.package.alias_map.len(),
        run.entry_matches(answers, at),
        run.package.alias_map[at].1 is Ignored,
        run.comes_to(answers, at),
    ensures
        run.outcome(answers) == OutcomeView::ResolvedIgnored,
{
    lemma_first_stop_decides(run, answers, at);
}

/// A rewrite that the resolver settles is the outcome: where the first entry
/// at which the scan stops asks for a rewrite, the outcome is the terminal
/// outcome that the resolver gave for the rewritten request.
pub proof fn lemma_settled_rewrite_is_the_outcome<T>(
    run: BrowserRun<T>,
    answers: BrowserAnswers,
    at: int,
)
    requires
        run.options.browser_field,
        0 <= at < run.package.alias_map.len(),
        run.asks_resolver(answers, at),
        answers.entries[at].outcome.is_terminal(),
        run.comes_to(answers, at),
    ensures
        run.outcome(answers) == answers.entries[at].outcome,
{
    lemma_first_stop_decides(run, answers, at);
}

/// The entries after the one at which the scan stops are not looked at: a
/// package and answers that differ only after that entry give the same
/// outcome.
pub proof fn lemma_later_entries_are_unread<T>(
    run: BrowserRun<T>,
    other: BrowserRun<T>,
    answers: BrowserAnswers,
    other_answers: BrowserAnswers,
    at: int,
)
    requires
        run.options.browser_field,
        0 <= at < run.package.alias_map.len(),
        run.stops_at(answers, at),
        run.comes_to(answers, at),
        other.options == run.options,
        other.request == run.request,
        at < other.package.alias_map.len(),
        other_answers.request_path == answers.request_path,
        forall|upto: int|
            0 <= upto <= at ==> other.package.alias_map[upto] == run.package.alias_map[upto]
                && other_answers.entries[upto] == answers.entries[upto],
    ensures
        other.outcome(other_answers) == run.outcome(answers),
{
    lemma_first_stop_decides(run, answers, at);
    assert forall|before: int| 0 <= before < at implies !other.stops_at(
        other_answers,
        before,
    ) by {
        assert(!run.stops_at(answers, before));
    }
    lemma_first_stop_decides(other, other_answers, at);
}

/// A scan passes over entries at which it does not stop.
proof fn lemma_scan_passes<T>(run: BrowserRun<T>, answers: BrowserAnswers, from: int, to: int)
    requires
        0 <= from <= to <= run.package.alias_map.len(),
        forall|at: int| from <= at < to ==> !#[trigger] run.stops_at(answers, at),
    ensures
        run.scan(answers, from) == run.scan(answers, to),
    decreases to - from,
{
    if from < to {
        lemma_scan_passes(run, answers, from + 1, to);
    }
}

/// An answer for the entry at `at` changes nothing about the entries before
/// it.
proof fn lemma_answer_leaves_earlier_entries<T, H: Host<ImportsTree = T>>(
    run: BrowserRun<T>,
    host: &H,
    answers: BrowserAnswers,
    at: int,
    answer: AliasAnswer,
)
    requires
        run.passed(host, answers, at),
        at < run.package.alias_map.len(),
    ensures
        run.passed(host, answers.with_answer(at, answer), at),
{
    let recorded = answers.with_answer(at, answer);
    assert forall|before: int| 0 <= before < at implies !#[trigger] run.stops_at(
        recorded,
        before,
    ) by {
        assert(!run.stops_at(answers, before));
    }
    assert forall|before: int| 0 <= before < at implies #[trigger] run.told_at(
        host,
        recorded,
        before,
    ) by {
        assert(run.told_at(host, answers, before));
    }
}

/// Where the scan has come to the entry at `at` and stops there with
/// `answer`, the answers with `answer` among them are the host's, and the
/// entry decides.
proof fn lemma_stopped<T, H: Host<ImportsTree = T>>(
    run: BrowserRun<T>,
    host: &H,
    answers: BrowserAnswers,
    at: int,
    answer: AliasAnswer,
)
    requires
        run.passed(host, answers, at),
        at < run.package.alias_map.len(),
        run.stops_at(answers.with_answer(at, answer), at),
        run.told_at(host, answers.with_answer(at, answer), at),
    ensures
        run.told_by(host, answers.with_answer(at, answer)),
        run.outcome(answers.with_answer(at, answer)) == run.outcome_at(
            answers.with_answer(at, answer),
            at,
        ),
{
    let recorded = answers.with_answer(at, answer);
    lemma_answer_leaves_earlier_entries(run, host, answers, at, answer);
    lemma_first_stop_decides(run, recorded, at);
}

/// Where the scan has passed every entry, the answers are the host's and the
/// request goes on as it came.
proof fn lemma_passed_all<T, H: Host<ImportsTree = T>>(
    run: BrowserRun<T>,
    host: &H,
    answers: BrowserAnswers,
)
    requires
        run.passed(host, answers, run.package.alias_map.len() as int),
    ensures
        run.told_by(host, answers),
        run.outcome(answers) == OutcomeView::Continue(run.request),
{
    lemma_scan_passes(run, answers, 0, run.package.alias_map.len() as int);
}

/// A scan that lets the request go on lets it go on as it came.
proof fn lemma_scan_continues_unchanged<T>(run: BrowserRun<T>, answers: BrowserAnswers, from: int)
    ensures
        run.scan(answers, from) matches OutcomeView::Continue(next) ==> next == run.request,
    decreases run.package.alias_map.len() - from,
{
    if 0 <= from < run.package.alias_map.len() {
        lemma_scan_continues_unchanged(run, answers, from + 1);
    }
}

} // verus!
