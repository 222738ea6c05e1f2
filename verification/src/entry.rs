//! Classification of one resolved dependency and the rendering of its
//! recipe statement line.
//!
//! A registry dependency renders as a crate-archive URI, optionally
//! checksum-annotated. A path dependency renders nothing: it already
//! lives inside the packaged tree. A git dependency renders its rewritten
//! fetch URL and contributes three side-variable lines. Any other source
//! renders its raw URL verbatim.

use vstd::prelude::*;
use vstd::string::*;

use crate::checksum::{checksum_annotation, checksum_suffix, opt_view};
use crate::gitrev::{
    render_checkout_path, render_srcrev_assignment, render_srcrev_format, resolve_revision,
    resolved_revision, srcrev_assignment_line, srcrev_format_line, checkout_path_line,
};
use crate::model::{Config, GenError, GitReference, ResolvedPackage, SourceKind, same_reference};
use crate::text::views_of;

verus! {

/// A registry source URI: the archive scheme, host, name and version,
/// the checksum suffix, and the continuation wrapper.
pub open spec fn registry_line(
    host: Seq<char>,
    name: Seq<char>,
    version: Seq<char>,
    suffix: Seq<char>,
) -> Seq<char> {
    "    crate-archive://"@ + host + "/"@ + name + "/"@ + version + suffix + " \\\n"@
}

/// A URI rendered verbatim, wrapped in the continuation syntax.
pub open spec fn plain_line(url: Seq<char>) -> Seq<char> {
    "    "@ + url + " \\\n"@
}

/// The digest a registry line is annotated with: none when checksum
/// emission is disabled or the resolver knows none.
pub open spec fn dep_digest(p: ResolvedPackage, cfg: Config) -> Option<Seq<char>> {
    if cfg.no_checksums {
        None
    } else {
        opt_view(p.checksum)
    }
}

/// Whether this dependency stops generation: a git source whose revision
/// cannot be resolved to a usable fetch target.
pub open spec fn entry_fatal(p: ResolvedPackage, cfg: Config) -> bool {
    match p.source {
        SourceKind::Git { reference, precise, .. } => resolved_revision(
            reference,
            opt_view(precise),
            cfg.reproducible,
        ) is None,
        _ => false,
    }
}

/// The source-URI line this dependency contributes, or none for a path
/// source. Meaningful only when the dependency is not fatal.
pub open spec fn entry_line(p: ResolvedPackage, cfg: Config) -> Option<Seq<char>> {
    match p.source {
        SourceKind::Registry { host } => Some(
            registry_line(
                host@,
                p.name@,
                p.version@,
                checksum_suffix(p.name@, p.version@, dep_digest(p, cfg)),
            ),
        ),
        SourceKind::Path => None,
        SourceKind::Git { fetch_url, .. } => Some(plain_line(fetch_url@)),
        SourceKind::Other { url } => Some(plain_line(url@)),
    }
}

/// The side-variable lines this dependency contributes, in order: the
/// revision-format directive, the revision assignment, and the
/// checkout-path registration. Empty for every non-git source.
pub open spec fn entry_sides(p: ResolvedPackage, cfg: Config) -> Seq<Seq<char>> {
    match p.source {
        SourceKind::Git { reference, precise, .. } => seq![
            srcrev_format_line(p.name@),
            srcrev_assignment_line(
                p.name@,
                resolved_revision(reference, opt_view(precise), cfg.reproducible).unwrap(),
            ),
            checkout_path_line(p.name@),
        ],
        _ => Seq::empty(),
    }
}

/// Whether the source is a git source whose stored reference reads the
/// same as the given one.
pub open spec fn git_ref_matches(src: SourceKind, r: GitReference) -> bool {
    match src {
        SourceKind::Git { reference, .. } => same_reference(reference, r),
        _ => false,
    }
}

/// One dependency's contribution to the recipe: its statement line and
/// its ordered side-variable lines.
pub struct RecipeSourceEntry {
    pub uri_line: String,
    pub side_lines: Vec<String>,
}

/// Classifies one resolved dependency and renders its contribution; a
/// path source contributes nothing, and a git source without a usable
/// revision is fatal.
pub fn dependency_entry(p: &ResolvedPackage, cfg: &Config) -> (r: Result<
    Option<RecipeSourceEntry>,
    GenError,
>)
    ensures
        (r is Err) == entry_fatal(*p, *cfg),
        r matches Err(e) ==> (e matches GenError::UnresolvableRevision { name, reference }
            && name@ == p.name@ && git_ref_matches(p.source, reference)),
        r matches Ok(opt) ==> ((opt is Some) == (entry_line(*p, *cfg) is Some)),
        r matches Ok(opt) ==> (opt matches Some(en) ==> (Some(en.uri_line@) == entry_line(
            *p,
            *cfg,
        ) && views_of(en.side_lines@) == entry_sides(*p, *cfg))),
{
    match &p.source {
        SourceKind::Registry { host } => {
            let suffix = if cfg.no_checksums {
                String::new()
            } else {
                checksum_annotation(p.name.as_str(), p.version.as_str(), &p.checksum)
            };
            let mut line = String::from_str("    crate-archive://");
            line.append(host.as_str());
            line.append("/");
            line.append(p.name.as_str());
            line.append("/");
            line.append(p.version.as_str());
            line.append(suffix.as_str());
            line.append(" \\\n");
            let entry = RecipeSourceEntry { uri_line: line, side_lines: Vec::new() };
            proof {
                assert(views_of(entry.side_lines@) =~= entry_sides(*p, *cfg));
            }
            Ok(Some(entry))
        },
        SourceKind::Path => Ok(None),
        SourceKind::Git { fetch_url, reference, precise } => {
            match resolve_revision(reference, precise, cfg.reproducible) {
                None => Err(
                    GenError::UnresolvableRevision {
                        name: p.name.clone(),
                        reference: reference.duplicate(),
                    },
                ),
                Some(rev) => {
                    let mut line = String::from_str("    ");
                    line.append(fetch_url.as_str());
                    line.append(" \\\n");
                    let mut sides: Vec<String> = Vec::new();
                    sides.push(render_srcrev_format(p.name.as_str()));
                    sides.push(render_srcrev_assignment(p.name.as_str(), rev.as_str()));
                    sides.push(render_checkout_path(p.name.as_str()));
                    proof {
                        assert(views_of(sides@) =~= entry_sides(*p, *cfg));
                    }
                    Ok(Some(RecipeSourceEntry { uri_line: line, side_lines: sides }))
                },
            }
        },
        SourceKind::Other { url } => {
            let mut line = String::from_str("    ");
            line.append(url.as_str());
            line.append(" \\\n");
            let entry = RecipeSourceEntry { uri_line: line, side_lines: Vec::new() };
            proof {
                assert(views_of(entry.side_lines@) =~= entry_sides(*p, *cfg));
            }
            Ok(Some(entry))
        },
    }
}

} // verus!
