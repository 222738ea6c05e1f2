//! Revision choice for git-sourced dependencies, and the side variables
//! each git dependency contributes to the recipe.
//!
//! One revision is chosen per git dependency, in priority order: the
//! resolver's precise pin under reproducibility mode, then the stored
//! reference. An abbreviated revision with no precise pin is fatal: it is
//! never an acceptable fetch target.

use vstd::prelude::*;
use vstd::string::*;

use crate::checksum::opt_view;
use crate::model::GitReference;
use crate::text::{str_eq, str_has_prefix, str_has_suffix};

verus! {

/// The sentinel revision instructing the fetcher to re-resolve to the
/// branch tip at fetch time.
pub open spec fn auto_revision() -> Seq<char> {
    "${AUTOREV}"@
}

/// Whether the character is a hexadecimal digit.
pub open spec fn is_hex_digit(c: char) -> bool {
    (('0' as int) <= (c as int) <= ('9' as int)) || (('a' as int) <= (c as int) <= ('f' as int))
        || (('A' as int) <= (c as int) <= ('F' as int))
}

/// Whether the string is a full-length commit identifier: exactly forty
/// hexadecimal characters.
pub open spec fn is_full_commit(s: Seq<char>) -> bool {
    s.len() == 40 && (forall|i: int| 0 <= i < s.len() ==> is_hex_digit(#[trigger] s[i]))
}

/// Decides whether a revision string is a full-length commit identifier.
pub fn is_full_commit_str(s: &str) -> (r: bool)
    ensures
        r == is_full_commit(s@),
{
    let n = s.unicode_len();
    if n != 40 {
        return false;
    }
    let mut i: usize = 0;
    while i < n
        invariant
            0 <= i <= n,
            n == s@.len(),
            n == 40,
            forall|j: int| 0 <= j < i ==> is_hex_digit(#[trigger] s@[j]),
        decreases n - i,
    {
        let c = s.get_char(i);
        let u = c as u32;
        let hex = (48 <= u && u <= 57) || (97 <= u && u <= 102) || (65 <= u && u <= 70);
        if !hex {
            return false;
        }
        i = i + 1;
    }
    true
}

/// The revision the stored reference alone calls for, before any precise
/// pin is considered. A result of none is fatal.
pub open spec fn reference_revision(reference: GitReference, precise: Option<Seq<char>>) -> Option<
    Seq<char>,
> {
    match reference {
        GitReference::Tag(t) => Some(t@),
        GitReference::Rev(r) => if is_full_commit(r@) {
            Some(r@)
        } else {
            precise
        },
        GitReference::Branch(b) => if b@ == "master"@ {
            Some(auto_revision())
        } else {
            Some(b@)
        },
        GitReference::DefaultBranch => Some(auto_revision()),
    }
}

/// The revision chosen for a git dependency: the resolver's precise pin
/// when reproducibility mode is on and a pin exists, otherwise whatever
/// the stored reference calls for.
pub open spec fn resolved_revision(
    reference: GitReference,
    precise: Option<Seq<char>>,
    reproducible: bool,
) -> Option<Seq<char>> {
    if reproducible && precise is Some {
        precise
    } else {
        reference_revision(reference, precise)
    }
}

/// Chooses the revision for one git dependency; none means generation
/// must fail.
pub fn resolve_revision(reference: &GitReference, precise: &Option<String>, reproducible: bool) -> (
    r: Option<String>)
    ensures
        opt_view(r) == resolved_revision(*reference, opt_view(*precise), reproducible),
{
    if reproducible {
        if let Some(p) = precise {
            return Some(p.clone());
        }
    }
    match reference {
        GitReference::Tag(t) => Some(t.clone()),
        GitReference::Rev(rv) => {
            if is_full_commit_str(rv.as_str()) {
                Some(rv.clone())
            } else {
                match precise {
                    Some(p) => Some(p.clone()),
                    None => None,
                }
            }
        },
        GitReference::Branch(b) => {
            if str_eq(b.as_str(), "master") {
                Some(String::from_str("${AUTOREV}"))
            } else {
                Some(b.clone())
            }
        },
        GitReference::DefaultBranch => Some(String::from_str("${AUTOREV}")),
    }
}

/// The remote URL with its scheme prefix removed; a remote with an
/// unrecognized scheme is kept whole.
pub open spec fn remote_base(url: Seq<char>) -> Seq<char> {
    if "https://"@.is_prefix_of(url) {
        url.skip(8)
    } else if "http://"@.is_prefix_of(url) {
        url.skip(7)
    } else if "git://"@.is_prefix_of(url) {
        url.skip(6)
    } else if "ssh://git@"@.is_prefix_of(url) {
        url.skip(10)
    } else {
        url
    }
}

/// The transport the fetcher is told to use for the remote; an
/// unrecognized scheme is fetched over https.
pub open spec fn remote_protocol(url: Seq<char>) -> Seq<char> {
    if "https://"@.is_prefix_of(url) {
        "https"@
    } else if "http://"@.is_prefix_of(url) {
        "http"@
    } else if "git://"@.is_prefix_of(url) {
        "git"@
    } else if "ssh://git@"@.is_prefix_of(url) {
        "ssh"@
    } else {
        "https"@
    }
}

/// The base with every trailing ".git" removed.
pub open spec fn strip_dot_git(s: Seq<char>) -> Seq<char>
    decreases s.len(),
{
    if s.len() >= 4 && ".git"@.is_suffix_of(s) {
        strip_dot_git(s.take(s.len() - 4))
    } else {
        s
    }
}

/// A git remote rewritten into the fetcher's URL form: the git scheme on
/// the stripped base, the original transport, and the dependency name as
/// fetch name and checkout directory, so several git fetches can coexist
/// in one recipe.
pub open spec fn fetch_url_spec(url: Seq<char>, name: Seq<char>) -> Seq<char> {
    "git://"@ + strip_dot_git(remote_base(url)) + ";protocol="@ + remote_protocol(url) + ";name="@
        + name + ";destsuffix="@ + name
}

/// Rewrites a git remote URL into the fetcher's form, tagged with the
/// dependency name.
pub fn git_to_fetch_url(url: &str, name: &str) -> (r: String)
    ensures
        r@ == fetch_url_spec(url@, name@),
{
    let n = url.unicode_len();
    let mut base: &str = url;
    let mut proto: &str = "https";
    if str_has_prefix(url, "https://") {
        proof {
            reveal_strlit("https://");
        }
        base = url.substring_char(8, n);
        proof {
            assert(base@ =~= url@.skip(8));
        }
    } else if str_has_prefix(url, "http://") {
        proof {
            reveal_strlit("http://");
        }
        base = url.substring_char(7, n);
        proto = "http";
        proof {
            assert(base@ =~= url@.skip(7));
        }
    } else if str_has_prefix(url, "git://") {
        proof {
            reveal_strlit("git://");
        }
        base = url.substring_char(6, n);
        proto = "git";
        proof {
            assert(base@ =~= url@.skip(6));
        }
    } else if str_has_prefix(url, "ssh://git@") {
        proof {
            reveal_strlit("ssh://git@");
        }
        base = url.substring_char(10, n);
        proto = "ssh";
        proof {
            assert(base@ =~= url@.skip(10));
        }
    }
    proof {
        assert(base@ == remote_base(url@));
        assert(proto@ == remote_protocol(url@));
    }
    loop
        invariant
            proto@ == remote_protocol(url@),
            strip_dot_git(base@) == strip_dot_git(remote_base(url@)),
        decreases base@.len(),
    {
        if str_has_suffix(base, ".git") {
            let m = base.unicode_len();
            proof {
                reveal_strlit(".git");
                assert(m >= 4);
            }
            let ghost before = base@;
            let nb = base.substring_char(0, m - 4);
            proof {
                assert(nb@ =~= before.take(before.len() - 4));
                assert(strip_dot_git(before) == strip_dot_git(nb@));
            }
            base = nb;
        } else {
            proof {
                reveal_strlit(".git");
                assert(strip_dot_git(base@) == base@);
            }
            let mut r = String::from_str("git://");
            r.append(base);
            r.append(";protocol=");
            r.append(proto);
            r.append(";name=");
            r.append(name);
            r.append(";destsuffix=");
            r.append(name);
            return r;
        }
    }
}

/// The directive binding a dependency to its own revision-variable
/// namespace.
pub open spec fn srcrev_format_line(name: Seq<char>) -> Seq<char> {
    "SRCREV_FORMAT .= \"_"@ + name + "\""@
}

/// The assignment of the chosen revision to the dependency's revision
/// variable.
pub open spec fn srcrev_assignment_line(name: Seq<char>, rev: Seq<char>) -> Seq<char> {
    "SRCREV_"@ + name + " = \""@ + rev + "\""@
}

/// The registration of the path where the fetched checkout will land.
pub open spec fn checkout_path_line(name: Seq<char>) -> Seq<char> {
    "EXTRA_OECARGO_PATHS += \"${WORKDIR}/"@ + name + "\""@
}

/// Renders the revision-format directive for one git dependency.
pub fn render_srcrev_format(name: &str) -> (r: String)
    ensures
        r@ == srcrev_format_line(name@),
{
    let mut s = String::from_str("SRCREV_FORMAT .= \"_");
    s.append(name);
    s.append("\"");
    s
}

/// Renders the revision assignment for one git dependency.
pub fn render_srcrev_assignment(name: &str, rev: &str) -> (r: String)
    ensures
        r@ == srcrev_assignment_line(name@, rev@),
{
    let mut s = String::from_str("SRCREV_");
    s.append(name);
    s.append(" = \"");
    s.append(rev);
    s.append("\"");
    s
}

/// Renders the checkout-path registration for one git dependency.
pub fn render_checkout_path(name: &str) -> (r: String)
    ensures
        r@ == checkout_path_line(name@),
{
    let mut s = String::from_str("EXTRA_OECARGO_PATHS += \"${WORKDIR}/");
    s.append(name);
    s.append("\"");
    s
}

/// With reproducibility on and a precise resolver pin recorded, the pin
/// is used verbatim, whatever the stored reference says.
pub proof fn lemma_precise_pin_wins(reference: GitReference, precise: Seq<char>)
    ensures
        resolved_revision(reference, Some(precise), true) == Some(precise),
{
}

/// With reproducibility off, a branch named like the default historical
/// branch resolves to the auto-revision placeholder.
pub proof fn lemma_default_branch_tracks_tip(name: String, precise: Option<Seq<char>>)
    requires
        name@ == "master"@,
    ensures
        resolved_revision(GitReference::Branch(name), precise, false) == Some(auto_revision()),
{
}

/// An abbreviated revision with no precise pin leaves no usable fetch
/// target: the run must fail.
pub proof fn lemma_abbreviated_rev_fatal(rev: String, reproducible: bool)
    requires
        !is_full_commit(rev@),
    ensures
        resolved_revision(GitReference::Rev(rev), None, reproducible) is None,
{
}

} // verus!
