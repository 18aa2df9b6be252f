//! The request that travels through a chain of plugins.
use vstd::prelude::*;

verus! {

/// How a specifier addresses its target.
#[derive(Clone, Copy, Debug, PartialEq, Eq, Structural)]
pub enum PathKind {
    /// A path relative to the base directory, such as `./x.js`.
    Relative,
    /// An absolute path.
    Absolute,
    /// A specifier private to its package, written with a leading `#`.
    Internal,
    /// A bare specifier that names a package, such as `lodash`.
    Normal,
}

/// A specifier after classification: its target and the kind of that target.
#[derive(Debug, PartialEq, Eq)]
pub struct Specifier {
    pub target: String,
    pub kind: PathKind,
}

/// The mathematical value of a [`Specifier`].
pub struct SpecifierView {
    pub target: Seq<char>,
    pub kind: PathKind,
}

impl View for Specifier {
    type V = SpecifierView;

    open spec fn view(&self) -> SpecifierView {
        SpecifierView { target: self.target@, kind: self.kind }
    }
}

impl Clone for Specifier {
    fn clone(&self) -> (copy: Self)
        ensures
            copy == *self,
    {
        Specifier { target: self.target.clone(), kind: self.kind }
    }
}

/// What is being resolved: a classified specifier and the directory it is
/// read from.
///
/// A request is never changed in place. A plugin that redirects builds a new
/// one, rooted at the directory of the package whose manifest asked for the
/// redirection.
#[derive(Debug, PartialEq, Eq)]
pub struct Request {
    pub target: String,
    pub kind: PathKind,
    pub base_directory: String,
}

/// The mathematical value of a [`Request`].
pub struct RequestView {
    pub target: Seq<char>,
    pub kind: PathKind,
    pub base_directory: Seq<char>,
}

impl View for Request {
    type V = RequestView;

    open spec fn view(&self) -> RequestView {
        RequestView {
            target: self.target@,
            kind: self.kind,
            base_directory: self.base_directory@,
        }
    }
}

impl Clone for Request {
    fn clone(&self) -> (copy: Self)
        ensures
            copy == *self,
    {
        Request {
            target: self.target.clone(),
            kind: self.kind,
            base_directory: self.base_directory.clone(),
        }
    }
}

impl RequestView {
    /// The request for `specifier`, read from `base_directory`.
    pub open spec fn rooted(base_directory: Seq<char>, specifier: SpecifierView) -> RequestView {
        RequestView { target: specifier.target, kind: specifier.kind, base_directory }
    }

    /// The request names a package rather than a path.
    pub open spec fn is_module(self) -> bool {
        self.kind == PathKind::Normal
    }
}

impl Request {
    /// The request for `specifier`, read from `base_directory`.
    pub fn new(base_directory: String, specifier: Specifier) -> (request: Request)
        ensures
            request@ == RequestView::rooted(base_directory@, specifier@),
    {
        Request { target: specifier.target, kind: specifier.kind, base_directory }
    }

    /// Whether the request names a package rather than a path.
    pub fn is_module(&self) -> (yes: bool)
        ensures
            yes == self@.is_module(),
    {
        match self.kind {
            PathKind::Normal => true,
            _ => false,
        }
    }
}

} // verus!
