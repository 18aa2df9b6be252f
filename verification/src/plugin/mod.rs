//! The plugins, and the one operation that they share.
use vstd::prelude::*;
use crate::outcome::{Outcome, OutcomeView};
use crate::plugin::browser_field::{BrowserAnswers, BrowserRun};
use crate::plugin::imports_field::{ImportsAnswers, ImportsRun};
use crate::request::Request;
use crate::resolver::{Context, Host, Resolver};
use crate::text::begins_with;

pub mod browser_field;
pub mod imports_field;

verus! {

/// One step of a resolution chain.
///
/// A chain feeds the request of each `Continue` to the next plugin and stops
/// at the first terminal outcome; see [`Outcome::and_then`].
pub trait Plugin<H: Host> {
    /// Runs the plugin on `request`.
    fn apply(
        &self,
        resolver: &Resolver<'_, H>,
        request: Request,
        context: Context,
    ) -> Outcome;
}

/// Redirection comes to rest: a request that no entry of the `browser` field
/// matches and that does not begin with `#` passes both field plugins as it
/// came, so that a chain of the two, in either order and however often it is
/// run, hands on the request it was given.
pub proof fn lemma_unmatched_request_passes_both<T>(
    browser: BrowserRun<T>,
    browser_answers: BrowserAnswers,
    imports: ImportsRun<T>,
    imports_answers: ImportsAnswers<T>,
)
    requires
        imports.request == browser.request,
        forall|at: int|
            0 <= at < browser.package.alias_map.len() ==> !#[trigger] browser.entry_matches(
                browser_answers,
                at,
            ),
        !begins_with(browser.request.target, '#'),
    ensures
        browser.outcome(browser_answers) == OutcomeView::Continue(browser.request),
        imports.outcome(imports_answers) == OutcomeView::Continue(imports.request),
{
    browser_field::lemma_no_match_is_untouched(browser, browser_answers);
}

} // verus!
