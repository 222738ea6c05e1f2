//! The project's version-stability policy.
//!
//! A checkout exactly at a tag already encodes version uniqueness. An
//! untagged checkout must still invalidate downstream build caches when
//! the commit changes, so a short commit prefix is folded into the
//! package version.

use vstd::prelude::*;
use vstd::string::*;

use crate::model::ProjectRepoState;

verus! {

/// The version-append directive for the project's checkout state: empty
/// when the checkout is at a tag or the revision is too short to carry a
/// usable prefix, otherwise the override key, in its modern or legacy
/// spelling, set to the auto-increment marker and the first ten
/// characters of the revision.
pub open spec fn version_directive_spec(tag: bool, rev: Seq<char>, legacy: bool) -> Seq<char> {
    if !tag && rev.len() > 10 {
        (if legacy {
            "PV_append"@
        } else {
            "PV:append"@
        }) + " = \".AUTOINC+"@ + rev.take(10) + "\""@
    } else {
        Seq::empty()
    }
}

/// Computes the version-append directive from the project's checkout
/// state.
pub fn version_directive(repo: &ProjectRepoState, legacy: bool) -> (r: String)
    ensures
        r@ == version_directive_spec(repo.tag, repo.rev@, legacy),
{
    let rev_len = repo.rev.as_str().unicode_len();
    if !repo.tag && rev_len > 10 {
        let mut s = if legacy {
            String::from_str("PV_append")
        } else {
            String::from_str("PV:append")
        };
        s.append(" = \".AUTOINC+");
        let prefix = repo.rev.as_str().substring_char(0, 10);
        s.append(prefix);
        s.append("\"");
        proof {
            assert(repo.rev@.subrange(0, 10) =~= repo.rev@.take(10));
        }
        s
    } else {
        String::new()
    }
}

/// A checkout exactly at a tag needs no version-append directive.
pub proof fn lemma_tagged_checkout_stable(rev: Seq<char>, legacy: bool)
    ensures
        version_directive_spec(true, rev, legacy) == Seq::<char>::empty(),
{
}

} // verus!
