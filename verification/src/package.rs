//! What a package manifest says about resolution.
use vstd::prelude::*;
use std::sync::Arc;

verus! {

/// What the `browser` field maps a specifier to.
#[derive(Debug, PartialEq, Eq)]
pub enum AliasTarget {
    /// The specifier is replaced by this one.
    Target(String),
    /// The specifier stands for an empty module.
    Ignored,
}

/// The mathematical value of an [`AliasTarget`].
pub enum AliasTargetView {
    Target(Seq<char>),
    Ignored,
}

impl View for AliasTarget {
    type V = AliasTargetView;

    open spec fn view(&self) -> AliasTargetView {
        match self {
            AliasTarget::Target(target) => AliasTargetView::Target(target@),
            AliasTarget::Ignored => AliasTargetView::Ignored,
        }
    }
}

impl Clone for AliasTarget {
    fn clone(&self) -> (copy: Self)
        ensures
            copy == *self,
    {
        match self {
            AliasTarget::Target(target) => AliasTarget::Target(target.clone()),
            AliasTarget::Ignored => AliasTarget::Ignored,
        }
    }
}

/// The fields of one package manifest that resolution reads.
///
/// A value is built once, when the package is first visited, and only read
/// after that. `T` is the parsed form of the `imports` field; this crate never
/// looks inside it and hands it to the host's matcher as it is.
#[derive(Debug)]
pub struct PackageMetadata<T> {
    /// The absolute path of the package root.
    pub directory: String,
    /// The entries of the `browser` field, in the order of their declaration.
    pub alias_map: Vec<(String, AliasTarget)>,
    /// The parsed `imports` field, where the manifest has one.
    pub imports_tree: Option<T>,
}

/// The mathematical value of a [`PackageMetadata`].
pub struct PackageView<T> {
    pub directory: Seq<char>,
    pub alias_map: Seq<(Seq<char>, AliasTargetView)>,
    pub imports_tree: Option<T>,
}

impl<T> View for PackageMetadata<T> {
    type V = PackageView<T>;

    open spec fn view(&self) -> PackageView<T> {
        PackageView {
            directory: self.directory@,
            alias_map: Seq::new(
                self.alias_map@.len(),
                |i: int| (self.alias_map@[i].0@, self.alias_map@[i].1@),
            ),
            imports_tree: self.imports_tree,
        }
    }
}

/// A package as a plugin holds it: shared, and absent where a request
/// belongs to no package.
pub type SharedPackage<T> = Option<Arc<PackageMetadata<T>>>;

/// The value of a package that may be absent.
pub open spec fn package_view<T>(package: SharedPackage<T>) -> Option<PackageView<T>> {
    match package {
        Some(package) => Some(package@),
        None => None,
    }
}

} // verus!
