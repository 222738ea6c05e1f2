//! The invariants of the translation, stated and proved over the
//! assembler's specification: self-exclusion, order independence of the
//! source-URI block, the silence of path sources, and determinism of the
//! whole recipe.

use vstd::prelude::*;

use crate::assemble::{
    extras_of, lemma_extras_push, lemma_line_set_push, recipe_matches, uri_line_set, RecipeFields,
};
use crate::entry::{entry_fatal, entry_line, entry_sides};
use crate::model::{Config, PackageMeta, ProjectRepoState, ResolvedPackage, SourceKind};
use crate::text::{lemma_sorted_unique_equal, strictly_sorted, views_of};

verus! {

/// The package being packaged never contributes to the emitted blocks: a
/// dependency carrying its name changes neither the source-URI line set
/// nor the side-variable lines, whatever its source says.
pub proof fn lemma_self_dependency_excluded(
    deps: Seq<ResolvedPackage>,
    p: ResolvedPackage,
    self_name: Seq<char>,
    cfg: Config,
)
    requires
        p.name@ == self_name,
    ensures
        uri_line_set(deps.push(p), self_name, cfg) == uri_line_set(deps, self_name, cfg),
        extras_of(deps.push(p), self_name, cfg) == extras_of(deps, self_name, cfg),
{
    lemma_line_set_push(deps, self_name, cfg, p);
    assert(uri_line_set(deps.push(p), self_name, cfg) =~= uri_line_set(deps, self_name, cfg));
    lemma_extras_push(deps, self_name, cfg, p);
    assert(extras_of(deps, self_name, cfg) + Seq::<Seq<char>>::empty() =~= extras_of(
        deps,
        self_name,
        cfg,
    ));
}

/// A path-sourced dependency contributes nothing: it lives inside the
/// packaged tree already, so it adds no source-URI line and no side
/// variable.
pub proof fn lemma_path_dependency_contributes_nothing(
    deps: Seq<ResolvedPackage>,
    p: ResolvedPackage,
    self_name: Seq<char>,
    cfg: Config,
)
    requires
        p.source matches SourceKind::Path,
    ensures
        uri_line_set(deps.push(p), self_name, cfg) == uri_line_set(deps, self_name, cfg),
        extras_of(deps.push(p), self_name, cfg) == extras_of(deps, self_name, cfg),
{
    lemma_line_set_push(deps, self_name, cfg, p);
    assert(entry_line(p, cfg) is None);
    assert(uri_line_set(deps.push(p), self_name, cfg) =~= uri_line_set(deps, self_name, cfg));
    lemma_extras_push(deps, self_name, cfg, p);
    assert(entry_sides(p, cfg) =~= Seq::<Seq<char>>::empty());
    assert(extras_of(deps.push(p), self_name, cfg) =~= extras_of(deps, self_name, cfg));
}

/// A git dependency with a usable revision contributes fully: one
/// statement line and exactly three side-variable lines, never a partial
/// entry.
pub proof fn lemma_git_dependency_contributes_fully(p: ResolvedPackage, cfg: Config)
    requires
        p.source matches SourceKind::Git { .. },
        !entry_fatal(p, cfg),
    ensures
        entry_line(p, cfg) is Some,
        entry_sides(p, cfg).len() == 3,
{
}

/// A line contributed under one ordering of the snapshot is contributed
/// under any reordering of it.
proof fn lemma_line_member_transfer(
    deps1: Seq<ResolvedPackage>,
    deps2: Seq<ResolvedPackage>,
    self_name: Seq<char>,
    cfg: Config,
    l: Seq<char>,
)
    requires
        deps1.to_multiset() == deps2.to_multiset(),
        uri_line_set(deps1, self_name, cfg).contains(l),
    ensures
        uri_line_set(deps2, self_name, cfg).contains(l),
{
    let i = choose|i: int|
        0 <= i < deps1.len() && (#[trigger] deps1[i]).name@ != self_name && entry_line(
            deps1[i],
            cfg,
        ) == Some(l);
    assert(deps1.contains(deps1[i]));
    deps1.to_multiset_ensures();
    deps2.to_multiset_ensures();
    assert(deps1.to_multiset().count(deps1[i]) > 0);
    assert(deps2.contains(deps1[i]));
    let j = choose|j: int| 0 <= j < deps2.len() && deps2[j] == deps1[i];
    assert(deps2[j].name@ != self_name && entry_line(deps2[j], cfg) == Some(l));
}

/// The source-URI block does not depend on the order in which the
/// resolver hands dependencies out: any two strictly sorted listings of
/// the line sets of two reorderings of one snapshot are identical.
pub proof fn lemma_block_independent_of_order(
    deps1: Seq<ResolvedPackage>,
    deps2: Seq<ResolvedPackage>,
    self_name: Seq<char>,
    cfg: Config,
    v1: Seq<Seq<char>>,
    v2: Seq<Seq<char>>,
)
    requires
        deps1.to_multiset() == deps2.to_multiset(),
        strictly_sorted(v1),
        strictly_sorted(v2),
        forall|l: Seq<char>|
            v1.contains(l) <==> uri_line_set(deps1, self_name, cfg).contains(l),
        forall|l: Seq<char>|
            v2.contains(l) <==> uri_line_set(deps2, self_name, cfg).contains(l),
    ensures
        v1 == v2,
{
    assert forall|l: Seq<char>| v1.contains(l) implies v2.contains(l) by {
        lemma_line_member_transfer(deps1, deps2, self_name, cfg, l);
    }
    assert forall|l: Seq<char>| v2.contains(l) implies v1.contains(l) by {
        lemma_line_member_transfer(deps2, deps1, self_name, cfg, l);
    }
    lemma_sorted_unique_equal(v1, v2);
}

/// Two recipes filled from one identical snapshot read the same in every
/// field: with the revision pinning decided by the snapshot alone, a
/// regeneration is byte-identical.
pub proof fn lemma_identical_snapshot_identical_recipe(
    r1: RecipeFields,
    r2: RecipeFields,
    name: Seq<char>,
    version: Seq<char>,
    meta: PackageMeta,
    deps: Seq<ResolvedPackage>,
    lic_directives: Seq<Seq<char>>,
    repo: ProjectRepoState,
    rel_dir: Seq<char>,
    cfg: Config,
)
    requires
        recipe_matches(r1, name, version, meta, deps, lic_directives, repo, rel_dir, cfg),
        recipe_matches(r2, name, version, meta, deps, lic_directives, repo, rel_dir, cfg),
    ensures
        r1.name@ == r2.name@,
        r1.version@ == r2.version@,
        r1.summary@ == r2.summary@,
        r1.homepage@ == r2.homepage@,
        r1.license@ == r2.license@,
        r1.lic_files@ == r2.lic_files@,
        views_of(r1.src_uri_lines@) == views_of(r2.src_uri_lines@),
        r1.src_uri@ == r2.src_uri@,
        r1.src_uri_extras@ == r2.src_uri_extras@,
        r1.project_rel_dir@ == r2.project_rel_dir@,
        r1.project_src_uri@ == r2.project_src_uri@,
        r1.project_src_rev@ == r2.project_src_rev@,
        r1.git_srcpv@ == r2.git_srcpv@,
        r1.file_name@ == r2.file_name@,
{
    lemma_sorted_unique_equal(views_of(r1.src_uri_lines@), views_of(r2.src_uri_lines@));
}

} // verus!
