//! Redirection of module specifiers by the `browser` and `imports` fields of a
//! package manifest.
//!
//! A resolver walks a request through a chain of plugins. Each plugin either
//! hands the request on, possibly rewritten, or ends the chain with a final
//! outcome. This crate holds the two plugins that redirect a request by what a
//! package manifest declares, together with the data they work on and the
//! protocol by which plugins are chained.
//!
//! Everything that touches the file system, reads a manifest or matches a
//! conditional field stays with the [`Host`] that the plugins are run
//! against. The contract of a plugin says which outcome follows from what the
//! host answers, and ties each answer to what the host's own methods promise
//! for the question that the plugin puts to them.
pub mod outcome;
pub mod package;
pub mod plugin;
pub mod request;
pub mod resolver;
pub mod text;

pub use outcome::{Outcome, OutcomeView};
pub use package::{AliasTarget, AliasTargetView, PackageMetadata, PackageView, SharedPackage};
pub use plugin::browser_field::BrowserFieldPlugin;
pub use plugin::imports_field::ImportsFieldPlugin;
pub use plugin::Plugin;
pub use request::{PathKind, Request, RequestView, Specifier, SpecifierView};
pub use resolver::{Context, Host, Options, OptionsView, Resolver, MAX_DEPTH};
