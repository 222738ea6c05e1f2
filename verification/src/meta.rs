//! Metadata fallbacks: summary, homepage and license selection, with the
//! advisory warnings each fallback prints.
//!
//! A missing description or license is recoverable, with a warning; a
//! missing homepage with no repository to fall back on is fatal.

use vstd::prelude::*;
use vstd::string::*;

use crate::model::GenError;
use crate::text::{
    escape_newlines, escape_newlines_str, join_strings, join_with, split_on_slash, split_slash,
    trim_str, trimmed, views_of,
};

verus! {

/// The license marker assumed when the manifest names neither a license
/// nor a license file.
pub open spec fn closed_license() -> Seq<char> {
    "CLOSED"@
}

/// The recipe summary: the trimmed description with newlines rewritten
/// into continuations, or the package name when no description is set.
pub open spec fn summary_spec(description: Option<String>, name: Seq<char>) -> Seq<char> {
    match description {
        Some(d) => escape_newlines(trimmed(d@)),
        None => name,
    }
}

/// The warning emitted when the summary falls back to the package name.
pub open spec fn summary_warnings(description: Option<String>) -> Seq<Seq<char>> {
    match description {
        Some(_) => Seq::empty(),
        None => seq!["No package.description set in your Cargo.toml, using package.name"@],
    }
}

/// Chooses the recipe summary, appending any advisory to the warning
/// sink.
pub fn choose_summary(description: &Option<String>, name: &str, warnings: &mut Vec<String>) -> (r:
    String)
    ensures
        r@ == summary_spec(*description, name@),
        views_of(final(warnings)@) == views_of(old(warnings)@) + summary_warnings(*description),
{
    let ghost w0 = views_of(old(warnings)@);
    match description {
        Some(d) => {
            let t = trim_str(d.as_str());
            let r = escape_newlines_str(t.as_str());
            proof {
                assert(views_of(warnings@) =~= w0 + summary_warnings(*description));
            }
            r
        },
        None => {
            warnings.push(
                String::from_str("No package.description set in your Cargo.toml, using package.name"),
            );
            proof {
                assert(views_of(warnings@) =~= w0 + summary_warnings(*description));
            }
            String::from_str(name)
        },
    }
}

/// The homepage: the manifest's homepage, trimmed, or the repository,
/// trimmed, when no homepage is set. Meaningful only when one of the two
/// exists.
pub open spec fn homepage_spec(homepage: Option<String>, repository: Option<String>) -> Seq<
    char,
> {
    match homepage {
        Some(h) => trimmed(h@),
        None => match repository {
            Some(rp) => trimmed(rp@),
            None => Seq::empty(),
        },
    }
}

/// The warning emitted when the homepage falls back to the repository.
pub open spec fn homepage_warnings(homepage: Option<String>) -> Seq<Seq<char>> {
    match homepage {
        Some(_) => Seq::empty(),
        None => seq!["No package.homepage set in your Cargo.toml, trying package.repository"@],
    }
}

/// Chooses the homepage; a manifest with neither homepage nor repository
/// is fatal.
pub fn choose_homepage(
    homepage: &Option<String>,
    repository: &Option<String>,
    warnings: &mut Vec<String>,
) -> (r: Result<String, GenError>)
    ensures
        (r is Err) == ((*homepage) is None && (*repository) is None),
        r matches Ok(h) ==> h@ == homepage_spec(*homepage, *repository),
        r matches Err(e) ==> e matches GenError::MissingHomepage,
        views_of(final(warnings)@) == views_of(old(warnings)@) + homepage_warnings(*homepage),
{
    let ghost w0 = views_of(old(warnings)@);
    match homepage {
        Some(h) => {
            proof {
                assert(views_of(warnings@) =~= w0 + homepage_warnings(*homepage));
            }
            Ok(trim_str(h.as_str()))
        },
        None => {
            warnings.push(
                String::from_str("No package.homepage set in your Cargo.toml, trying package.repository"),
            );
            proof {
                assert(views_of(warnings@) =~= w0 + homepage_warnings(*homepage));
            }
            match repository {
                Some(rp) => Ok(trim_str(rp.as_str())),
                None => Err(GenError::MissingHomepage),
            }
        },
    }
}

/// The license source string: the manifest's license, or its license
/// file, or the closed marker.
pub open spec fn license_spec(license: Option<String>, license_file: Option<String>) -> Seq<
    char,
> {
    match license {
        Some(l) => l@,
        None => match license_file {
            Some(f) => f@,
            None => closed_license(),
        },
    }
}

/// The warnings emitted while falling back through the license fields.
pub open spec fn license_warnings(license: Option<String>, license_file: Option<String>) -> Seq<
    Seq<char>,
> {
    match license {
        Some(_) => Seq::empty(),
        None => {
            let first = seq![
                "No package.license set in your Cargo.toml, trying package.license_file"@,
            ];
            match license_file {
                Some(_) => first,
                None => first + seq![
                    "No package.license_file set in your Cargo.toml"@,
                    "Assuming CLOSED license"@,
                ],
            }
        },
    }
}

/// Chooses the license source string, appending any advisories to the
/// warning sink.
pub fn choose_license(
    license: &Option<String>,
    license_file: &Option<String>,
    warnings: &mut Vec<String>,
) -> (r: String)
    ensures
        r@ == license_spec(*license, *license_file),
        views_of(final(warnings)@) == views_of(old(warnings)@) + license_warnings(
            *license,
            *license_file,
        ),
{
    let ghost w0 = views_of(old(warnings)@);
    match license {
        Some(l) => {
            proof {
                assert(views_of(warnings@) =~= w0 + license_warnings(*license, *license_file));
            }
            l.clone()
        },
        None => {
            warnings.push(
                String::from_str("No package.license set in your Cargo.toml, trying package.license_file"),
            );
            match license_file {
                Some(f) => {
                    proof {
                        assert(views_of(warnings@) =~= w0 + license_warnings(
                            *license,
                            *license_file,
                        ));
                    }
                    f.clone()
                },
                None => {
                    warnings.push(
                        String::from_str("No package.license_file set in your Cargo.toml"),
                    );
                    warnings.push(String::from_str("Assuming CLOSED license"));
                    proof {
                        assert(views_of(warnings@) =~= w0 + license_warnings(
                            *license,
                            *license_file,
                        ));
                    }
                    String::from_str("CLOSED")
                },
            }
        },
    }
}

/// The license string in the recipe's form: the source string cut at
/// every slash, each part trimmed, joined with the alternative separator.
pub open spec fn recipe_license_spec(license: Seq<char>) -> Seq<char> {
    join_with(split_slash(license).map_values(|p: Seq<char>| trimmed(p)), " | "@)
}

/// Renders the license string in the recipe's form.
pub fn format_license(license: &str) -> (r: String)
    ensures
        r@ == recipe_license_spec(license@),
{
    let parts = split_on_slash(license);
    let ghost pv = views_of(parts@);
    let mut out: Vec<String> = Vec::new();
    let n = parts.len();
    let mut i: usize = 0;
    while i < n
        invariant
            0 <= i <= n,
            n == parts@.len(),
            pv == views_of(parts@),
            pv.len() == n,
            views_of(out@).len() == i,
            forall|j: int| 0 <= j < i ==> views_of(out@)[j] == trimmed(pv[j]),
        decreases n - i,
    {
        let ghost ov = views_of(out@);
        let t = trim_str(parts[i].as_str());
        out.push(t);
        proof {
            assert(views_of(out@) =~= ov.push(t@));
            assert(pv[i as int] == parts@[i as int]@);
        }
        i = i + 1;
    }
    proof {
        assert(views_of(out@) =~= pv.map_values(|p: Seq<char>| trimmed(p)));
    }
    join_strings(&out, " | ")
}

/// One license-file directive line, indented into the block.
pub open spec fn lic_line(directive: Seq<char>) -> Seq<char> {
    "    "@ + directive
}

/// The license-file block: each locator directive indented, in order,
/// concatenated.
pub open spec fn lic_files_spec(directives: Seq<Seq<char>>) -> Seq<char> {
    join_with(directives.map_values(|d: Seq<char>| lic_line(d)), Seq::empty())
}

/// Renders the license-file block from the locator's directive lines.
pub fn lic_files_block(directives: &Vec<String>) -> (r: String)
    ensures
        r@ == lic_files_spec(views_of(directives@)),
{
    let ghost dv = views_of(directives@);
    let mut out: Vec<String> = Vec::new();
    let n = directives.len();
    let mut i: usize = 0;
    while i < n
        invariant
            0 <= i <= n,
            n == directives@.len(),
            dv == views_of(directives@),
            dv.len() == n,
            views_of(out@).len() == i,
            forall|j: int| 0 <= j < i ==> views_of(out@)[j] == lic_line(dv[j]),
        decreases n - i,
    {
        let ghost ov = views_of(out@);
        let mut line = String::from_str("    ");
        line.append(directives[i].as_str());
        out.push(line);
        proof {
            assert(views_of(out@) =~= ov.push(lic_line(dv[i as int])));
            assert(dv[i as int] == directives@[i as int]@);
        }
        i = i + 1;
    }
    proof {
        assert(views_of(out@) =~= dv.map_values(|d: Seq<char>| lic_line(d)));
    }
    let empty = String::new();
    join_strings(&out, empty.as_str())
}

} // verus!
