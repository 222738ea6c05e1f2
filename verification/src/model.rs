//! The data model of one translation run: the resolver's snapshot of each
//! dependency, the project's own checkout state, the run configuration,
//! and the fatal errors a run can end in.

use vstd::prelude::*;
use vstd::string::*;

verus! {

/// The version-control reference a git dependency was requested at.
#[derive(Debug)]
pub enum GitReference {
    /// An exact tag name.
    Tag(String),
    /// An explicit revision string, full or abbreviated.
    Rev(String),
    /// A branch name.
    Branch(String),
    /// No explicit reference: the repository's default branch.
    DefaultBranch,
}

/// Structural equality of two references, comparing the character
/// sequences of their names.
pub open spec fn same_reference(a: GitReference, b: GitReference) -> bool {
    match (a, b) {
        (GitReference::Tag(x), GitReference::Tag(y)) => x@ == y@,
        (GitReference::Rev(x), GitReference::Rev(y)) => x@ == y@,
        (GitReference::Branch(x), GitReference::Branch(y)) => x@ == y@,
        (GitReference::DefaultBranch, GitReference::DefaultBranch) => true,
        _ => false,
    }
}

impl GitReference {
    /// An owned copy whose strings read the same.
    pub fn duplicate(&self) -> (r: GitReference)
        ensures
            same_reference(*self, r),
    {
        match self {
            GitReference::Tag(s) => GitReference::Tag(s.clone()),
            GitReference::Rev(s) => GitReference::Rev(s.clone()),
            GitReference::Branch(s) => GitReference::Branch(s.clone()),
            GitReference::DefaultBranch => GitReference::DefaultBranch,
        }
    }
}

/// Where one resolved dependency comes from.
#[derive(Debug)]
pub enum SourceKind {
    /// A crate registry archive; the host names the registry.
    Registry { host: String },
    /// A path inside the tree being packaged.
    Path,
    /// A version-control checkout. The fetch URL is the remote already
    /// rewritten into the target fetcher's form, as `git_to_fetch_url`
    /// renders it; the precise commit is the resolver's pin for this
    /// dependency, when it recorded one.
    Git { fetch_url: String, reference: GitReference, precise: Option<String> },
    /// Any other origin, fetched from the raw URL verbatim.
    Other { url: String },
}

/// One dependency of the resolver's snapshot.
#[derive(Debug)]
pub struct ResolvedPackage {
    pub name: String,
    pub version: String,
    pub source: SourceKind,
    /// The content digest the resolver knows for a registry archive, if
    /// any.
    pub checksum: Option<String>,
}

/// The switches of one run.
#[derive(Clone, Copy, Debug)]
pub struct Config {
    /// Pin git dependencies to the resolver's precise commits.
    pub reproducible: bool,
    /// Leave checksum annotations out of registry lines.
    pub no_checksums: bool,
    /// Use the legacy spelling of the version-append override.
    pub legacy_overrides: bool,
}

/// The project's own checkout, as the repository introspector reports it.
#[derive(Debug)]
pub struct ProjectRepoState {
    /// The remote the project is fetched from.
    pub uri: String,
    /// The revision the checkout is at.
    pub rev: String,
    /// Whether the checkout is exactly at a tag.
    pub tag: bool,
}

impl ProjectRepoState {
    /// The substitute state when repository introspection fails: empty
    /// remote, empty revision, not at a tag.
    pub fn fallback() -> (r: ProjectRepoState)
        ensures
            r.uri@ == Seq::<char>::empty(),
            r.rev@ == Seq::<char>::empty(),
            !r.tag,
    {
        ProjectRepoState { uri: String::new(), rev: String::new(), tag: false }
    }
}

/// The manifest fields of the package being packaged that the recipe
/// draws on.
#[derive(Debug)]
pub struct PackageMeta {
    pub description: Option<String>,
    pub homepage: Option<String>,
    pub repository: Option<String>,
    pub license: Option<String>,
    pub license_file: Option<String>,
}

/// A fatal condition: generation stops and nothing is emitted.
#[derive(Debug)]
pub enum GenError {
    /// A git dependency's revision is abbreviated and the resolver
    /// supplied no precise commit: there is no usable fetch target.
    UnresolvableRevision { name: String, reference: GitReference },
    /// The manifest names no homepage and no repository to fall back on.
    MissingHomepage,
}

impl GenError {
    /// A printable description of the failure.
    pub fn message(&self) -> (r: String)
        ensures
            (self matches GenError::UnresolvableRevision { name, .. } ==> r@
                == "cannot find rev in correct format for "@ + name@),
            (self matches GenError::MissingHomepage ==> r@
                == "No package.repository set in your Cargo.toml"@),
    {
        match self {
            GenError::UnresolvableRevision { name, .. } => {
                let mut m = String::from_str("cannot find rev in correct format for ");
                m.append(name.as_str());
                m
            },
            GenError::MissingHomepage => String::from_str(
                "No package.repository set in your Cargo.toml",
            ),
        }
    }
}

} // verus!
