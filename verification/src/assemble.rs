//! The output assembler: one pass over the resolver's snapshot,
//! excluding the package being packaged, collecting each dependency's
//! statement line into a sorted deduplicated block and its side variables
//! in encounter order, then filling every recipe field.

use vstd::prelude::*;
use vstd::string::*;

use crate::entry::{dependency_entry, entry_fatal, entry_line, entry_sides, git_ref_matches};
use crate::meta::{
    choose_homepage, choose_license, choose_summary, format_license, homepage_spec,
    homepage_warnings, lic_files_block, lic_files_spec, license_spec, license_warnings,
    recipe_license_spec, summary_spec, summary_warnings,
};
use crate::model::{Config, GenError, PackageMeta, ProjectRepoState, ResolvedPackage};
use crate::policy::{version_directive, version_directive_spec};
use crate::text::{
    contains_char, insert_line, join_strings, join_with, str_eq, strictly_sorted, views_of,
};

verus! {

/// The set of statement lines the snapshot's dependencies contribute:
/// every line rendered by a dependency not named like the package being
/// packaged. Duplicates and order vanish in a set; the emitted block is
/// its sorted listing.
pub open spec fn uri_line_set(deps: Seq<ResolvedPackage>, self_name: Seq<char>, cfg: Config) -> Set<
    Seq<char>,
> {
    Set::new(
        |l: Seq<char>|
            exists|i: int|
                0 <= i < deps.len() && (#[trigger] deps[i]).name@ != self_name && entry_line(
                    deps[i],
                    cfg,
                ) == Some(l),
    )
}

/// The side-variable lines of the snapshot, in dependency-encounter
/// order, the package being packaged excluded.
pub open spec fn extras_of(deps: Seq<ResolvedPackage>, self_name: Seq<char>, cfg: Config) -> Seq<
    Seq<char>,
>
    decreases deps.len(),
{
    if deps.len() == 0 {
        Seq::empty()
    } else {
        (if deps[0].name@ != self_name {
            entry_sides(deps[0], cfg)
        } else {
            Seq::empty()
        }) + extras_of(deps.skip(1), self_name, cfg)
    }
}

/// Whether the dependency at the index stops generation: not the package
/// being packaged, and without a usable revision.
pub open spec fn fatal_at(
    deps: Seq<ResolvedPackage>,
    self_name: Seq<char>,
    cfg: Config,
    i: int,
) -> bool {
    deps[i].name@ != self_name && entry_fatal(deps[i], cfg)
}

/// Whether any dependency of the snapshot stops generation.
pub open spec fn any_fatal(deps: Seq<ResolvedPackage>, self_name: Seq<char>, cfg: Config) -> bool {
    exists|i: int| 0 <= i < deps.len() && #[trigger] fatal_at(deps, self_name, cfg, i)
}

/// Appending one dependency extends the line set by that dependency's
/// line, when it has one and is not the package being packaged.
pub proof fn lemma_line_set_push(
    deps: Seq<ResolvedPackage>,
    self_name: Seq<char>,
    cfg: Config,
    p: ResolvedPackage,
)
    ensures
        forall|l: Seq<char>|
            uri_line_set(deps.push(p), self_name, cfg).contains(l) <==> (uri_line_set(
                deps,
                self_name,
                cfg,
            ).contains(l) || (p.name@ != self_name && entry_line(p, cfg) == Some(l))),
{
    let s = deps.push(p);
    assert forall|l: Seq<char>| uri_line_set(s, self_name, cfg).contains(l) implies (uri_line_set(
        deps,
        self_name,
        cfg,
    ).contains(l) || (p.name@ != self_name && entry_line(p, cfg) == Some(l))) by {
        let i = choose|i: int|
            0 <= i < s.len() && (#[trigger] s[i]).name@ != self_name && entry_line(s[i], cfg)
                == Some(l);
        if i < deps.len() {
            assert(s[i] == deps[i]);
            assert(deps[i].name@ != self_name && entry_line(deps[i], cfg) == Some(l));
        } else {
            assert(s[i] == p);
        }
    }
    assert forall|l: Seq<char>|
        (uri_line_set(deps, self_name, cfg).contains(l) || (p.name@ != self_name && entry_line(
            p,
            cfg,
        ) == Some(l))) implies uri_line_set(s, self_name, cfg).contains(l) by {
        if uri_line_set(deps, self_name, cfg).contains(l) {
            let i = choose|i: int|
                0 <= i < deps.len() && (#[trigger] deps[i]).name@ != self_name && entry_line(
                    deps[i],
                    cfg,
                ) == Some(l);
            assert(s[i] == deps[i]);
            assert(s[i].name@ != self_name && entry_line(s[i], cfg) == Some(l));
        } else {
            let i = deps.len() as int;
            assert(s[i] == p);
            assert(s[i].name@ != self_name && entry_line(s[i], cfg) == Some(l));
        }
    }
}

/// Appending one dependency appends its side variables, when it is not
/// the package being packaged.
pub proof fn lemma_extras_push(
    deps: Seq<ResolvedPackage>,
    self_name: Seq<char>,
    cfg: Config,
    p: ResolvedPackage,
)
    ensures
        extras_of(deps.push(p), self_name, cfg) == extras_of(deps, self_name, cfg) + (if p.name@
            != self_name {
            entry_sides(p, cfg)
        } else {
            Seq::empty()
        }),
    decreases deps.len(),
{
    let s = deps.push(p);
    let added = if p.name@ != self_name {
        entry_sides(p, cfg)
    } else {
        Seq::<Seq<char>>::empty()
    };
    if deps.len() == 0 {
        assert(s.len() == 1);
        assert(s[0] == p);
        assert(s.skip(1) =~= Seq::<ResolvedPackage>::empty());
        assert(extras_of(Seq::<ResolvedPackage>::empty(), self_name, cfg) == Seq::<
            Seq<char>,
        >::empty());
        assert(extras_of(s.skip(1), self_name, cfg) == Seq::<Seq<char>>::empty());
        assert(extras_of(s, self_name, cfg) =~= added + Seq::<Seq<char>>::empty());
        assert(added + Seq::<Seq<char>>::empty() =~= added);
        assert(extras_of(deps, self_name, cfg) + added =~= added);
    } else {
        assert(s[0] == deps[0]);
        assert(s.skip(1) =~= deps.skip(1).push(p));
        lemma_extras_push(deps.skip(1), self_name, cfg, p);
        let head = if deps[0].name@ != self_name {
            entry_sides(deps[0], cfg)
        } else {
            Seq::<Seq<char>>::empty()
        };
        assert(extras_of(s, self_name, cfg) == head + (extras_of(deps.skip(1), self_name, cfg)
            + added));
        assert(head + (extras_of(deps.skip(1), self_name, cfg) + added) =~= (head + extras_of(
            deps.skip(1),
            self_name,
            cfg,
        )) + added);
    }
}

/// The source-URI block and the side-variable block of one snapshot.
pub struct SourceBlock {
    /// The statement lines, strictly sorted, without duplicates.
    pub uri_lines: Vec<String>,
    /// The side-variable lines, in dependency-encounter order.
    pub extra_lines: Vec<String>,
}

/// Folds the snapshot into the source-URI block and the side-variable
/// block, excluding the package being packaged; the first dependency
/// without a usable revision stops generation.
pub fn source_block(deps: &Vec<ResolvedPackage>, self_name: &str, cfg: &Config) -> (r: Result<
    SourceBlock,
    GenError,
>)
    ensures
        (r is Err) == any_fatal(deps@, self_name@, *cfg),
        r matches Ok(b) ==> strictly_sorted(views_of(b.uri_lines@)),
        r matches Ok(b) ==> (forall|l: Seq<char>|
            views_of(b.uri_lines@).contains(l) <==> uri_line_set(deps@, self_name@, *cfg).contains(
                l,
            )),
        r matches Ok(b) ==> views_of(b.extra_lines@) == extras_of(deps@, self_name@, *cfg),
        r matches Err(e) ==> (e matches GenError::UnresolvableRevision { name, reference }
            && (exists|i: int|
            0 <= i < deps@.len() && #[trigger] fatal_at(deps@, self_name@, *cfg, i) && (forall|
                j: int,
            | 0 <= j < i ==> !fatal_at(deps@, self_name@, *cfg, j)) && name@ == deps@[i].name@
                && git_ref_matches(deps@[i].source, reference))),
{
    let n = deps.len();
    let mut lines: Vec<String> = Vec::new();
    let mut extras: Vec<String> = Vec::new();
    let mut i: usize = 0;
    proof {
        assert(deps@.take(0) =~= Seq::<ResolvedPackage>::empty());
        assert(views_of(extras@) =~= extras_of(deps@.take(0), self_name@, *cfg));
        assert forall|l: Seq<char>| !uri_line_set(deps@.take(0), self_name@, *cfg).contains(l) by {
            if uri_line_set(deps@.take(0), self_name@, *cfg).contains(l) {
                let k = choose|k: int|
                    0 <= k < deps@.take(0).len() && (#[trigger] deps@.take(0)[k]).name@
                        != self_name@ && entry_line(deps@.take(0)[k], *cfg) == Some(l);
            }
        }
        assert forall|l: Seq<char>| !views_of(lines@).contains(l) by {
            if views_of(lines@).contains(l) {
                let k = choose|k: int| 0 <= k < views_of(lines@).len() && views_of(lines@)[k] == l;
            }
        }
    }
    while i < n
        invariant
            0 <= i <= n,
            n == deps@.len(),
            strictly_sorted(views_of(lines@)),
            forall|l: Seq<char>|
                views_of(lines@).contains(l) <==> uri_line_set(
                    deps@.take(i as int),
                    self_name@,
                    *cfg,
                ).contains(l),
            views_of(extras@) == extras_of(deps@.take(i as int), self_name@, *cfg),
            forall|j: int| 0 <= j < i ==> !fatal_at(deps@, self_name@, *cfg, j),
        decreases n - i,
    {
        let p = &deps[i];
        let ghost take_i = deps@.take(i as int);
        let ghost take_i1 = deps@.take(i as int + 1);
        proof {
            assert(take_i1 =~= take_i.push(deps@[i as int]));
            lemma_line_set_push(take_i, self_name@, *cfg, deps@[i as int]);
            lemma_extras_push(take_i, self_name@, *cfg, deps@[i as int]);
        }
        if str_eq(p.name.as_str(), self_name) {
            proof {
                assert(extras_of(take_i1, self_name@, *cfg) =~= extras_of(
                    take_i,
                    self_name@,
                    *cfg,
                ) + Seq::<Seq<char>>::empty());
                assert(extras_of(take_i, self_name@, *cfg) + Seq::<Seq<char>>::empty()
                    =~= extras_of(take_i, self_name@, *cfg));
            }
        } else {
            match dependency_entry(p, cfg) {
                Result::Err(e) => {
                    proof {
                        assert(fatal_at(deps@, self_name@, *cfg, i as int));
                    }
                    return Err(e);
                },
                Result::Ok(None) => {
                    proof {
                        assert(extras_of(take_i1, self_name@, *cfg) == extras_of(
                            take_i,
                            self_name@,
                            *cfg,
                        ) + entry_sides(deps@[i as int], *cfg));
                        assert(entry_sides(deps@[i as int], *cfg) =~= Seq::<Seq<char>>::empty());
                        assert(extras_of(take_i, self_name@, *cfg) + Seq::<Seq<char>>::empty()
                            =~= extras_of(take_i, self_name@, *cfg));
                        assert(forall|l: Seq<char>| entry_line(deps@[i as int], *cfg) != Some(l));
                    }
                },
                Result::Ok(Some(en)) => {
                    let ghost line_view = en.uri_line@;
                    insert_line(&mut lines, en.uri_line);
                    let sides = en.side_lines;
                    let ghost sv = views_of(sides@);
                    let m = sides.len();
                    let mut k: usize = 0;
                    proof {
                        assert(sv.take(0) =~= Seq::<Seq<char>>::empty());
                        assert(views_of(extras@) + sv.take(0) =~= views_of(extras@));
                    }
                    while k < m
                        invariant
                            0 <= k <= m,
                            m == sides@.len(),
                            sv == views_of(sides@),
                            sv.len() == m,
                            views_of(extras@) == extras_of(take_i, self_name@, *cfg) + sv.take(
                                k as int,
                            ),
                            take_i == deps@.take(i as int),
                        decreases m - k,
                    {
                        let ghost e0 = views_of(extras@);
                        extras.push(sides[k].clone());
                        proof {
                            assert(views_of(extras@) =~= e0.push(sides@[k as int]@));
                            assert(sv.take(k as int).push(sv[k as int]) =~= sv.take(k as int + 1));
                            assert((extras_of(take_i, self_name@, *cfg) + sv.take(k as int)).push(
                                sv[k as int],
                            ) =~= extras_of(take_i, self_name@, *cfg) + sv.take(k as int + 1));
                        }
                        k = k + 1;
                    }
                    proof {
                        assert(sv.take(m as int) =~= sv);
                        assert(views_of(extras@) == extras_of(take_i, self_name@, *cfg)
                            + entry_sides(deps@[i as int], *cfg));
                    }
                },
            }
        }
        i = i + 1;
    }
    proof {
        assert(deps@.take(n as int) =~= deps@);
        if any_fatal(deps@, self_name@, *cfg) {
            let j = choose|j: int| 0 <= j < deps@.len() && fatal_at(deps@, self_name@, *cfg, j);
            assert(!fatal_at(deps@, self_name@, *cfg, j));
        }
    }
    Ok(SourceBlock { uri_lines: lines, extra_lines: extras })
}

/// The license source string without the advisory side effects: what
/// `choose_license` picks, for callers that need the components before a
/// run.
pub fn chosen_license_source(license: &Option<String>, license_file: &Option<String>) -> (r:
    String)
    ensures
        r@ == license_spec(*license, *license_file),
{
    match license {
        Some(l) => l.clone(),
        None => match license_file {
            Some(f) => f.clone(),
            None => String::from_str("CLOSED"),
        },
    }
}

/// The advisory emitted when the package identifier carries an
/// underscore, which the target naming convention disfavors.
pub open spec fn underscore_warnings(name: Seq<char>) -> Seq<Seq<char>> {
    if name.contains('_') {
        seq!["Package name contains an underscore"@]
    } else {
        Seq::empty()
    }
}

/// Every substitution value of one recipe.
pub struct RecipeFields {
    pub name: String,
    pub version: String,
    pub summary: String,
    pub homepage: String,
    pub license: String,
    pub lic_files: String,
    /// The statement lines of the source-URI block, sorted, without
    /// duplicates.
    pub src_uri_lines: Vec<String>,
    /// The source-URI block: the sorted lines concatenated.
    pub src_uri: String,
    /// The side-variable block: the lines in encounter order, joined by
    /// newlines.
    pub src_uri_extras: String,
    pub project_rel_dir: String,
    pub project_src_uri: String,
    pub project_src_rev: String,
    pub git_srcpv: String,
    /// The recipe file's name: name, version and the recipe extension.
    pub file_name: String,
}

/// What it means for a filled recipe to be the translation of one
/// snapshot: every field pinned to its specification, and the source-URI
/// block a strictly sorted listing of exactly the snapshot's line set.
pub open spec fn recipe_matches(
    r: RecipeFields,
    name: Seq<char>,
    version: Seq<char>,
    meta: PackageMeta,
    deps: Seq<ResolvedPackage>,
    lic_directives: Seq<Seq<char>>,
    repo: ProjectRepoState,
    rel_dir: Seq<char>,
    cfg: Config,
) -> bool {
    &&& r.name@ == name
    &&& r.version@ == version
    &&& r.summary@ == summary_spec(meta.description, name)
    &&& r.homepage@ == homepage_spec(meta.homepage, meta.repository)
    &&& r.license@ == recipe_license_spec(license_spec(meta.license, meta.license_file))
    &&& r.lic_files@ == lic_files_spec(lic_directives)
    &&& strictly_sorted(views_of(r.src_uri_lines@))
    &&& (forall|l: Seq<char>|
        views_of(r.src_uri_lines@).contains(l) <==> uri_line_set(deps, name, cfg).contains(l))
    &&& r.src_uri@ == join_with(views_of(r.src_uri_lines@), Seq::empty())
    &&& r.src_uri_extras@ == join_with(extras_of(deps, name, cfg), "\n"@)
    &&& r.project_rel_dir@ == rel_dir
    &&& r.project_src_uri@ == repo.uri@
    &&& r.project_src_rev@ == repo.rev@
    &&& r.git_srcpv@ == version_directive_spec(repo.tag, repo.rev@, cfg.legacy_overrides)
    &&& r.file_name@ == name + "_"@ + version + ".bb"@
}

/// Runs the whole translation: excludes the package being packaged,
/// folds the snapshot into the source blocks, computes the metadata
/// fallbacks and the version-stability directive, and fills every recipe
/// field. Advisories go to the warning sink; the first fatal condition
/// stops the run with nothing filled.
pub fn assemble_recipe(
    name: &str,
    version: &str,
    meta: &PackageMeta,
    deps: &Vec<ResolvedPackage>,
    lic_directives: &Vec<String>,
    repo: &ProjectRepoState,
    rel_dir: &str,
    cfg: &Config,
    warnings: &mut Vec<String>,
) -> (r: Result<RecipeFields, GenError>)
    ensures
        (r is Err) == (any_fatal(deps@, name@, *cfg) || ((meta.homepage) is None
            && (meta.repository) is None)),
        r matches Err(e) ==> (any_fatal(deps@, name@, *cfg) ==> (e
            matches GenError::UnresolvableRevision { name: n, reference } && (exists|i: int|
            0 <= i < deps@.len() && #[trigger] fatal_at(deps@, name@, *cfg, i) && (forall|j: int|
                0 <= j < i ==> !fatal_at(deps@, name@, *cfg, j)) && n@ == deps@[i].name@
                && git_ref_matches(deps@[i].source, reference)))),
        r matches Err(e) ==> (!any_fatal(deps@, name@, *cfg) ==> e
            matches GenError::MissingHomepage),
        r matches Ok(f) ==> recipe_matches(
            f,
            name@,
            version@,
            *meta,
            deps@,
            views_of(lic_directives@),
            *repo,
            rel_dir@,
            *cfg,
        ),
        r matches Ok(f) ==> views_of(final(warnings)@) == views_of(old(warnings)@)
            + underscore_warnings(name@) + summary_warnings(meta.description) + homepage_warnings(
            meta.homepage,
        ) + license_warnings(meta.license, meta.license_file),
        (r is Err && any_fatal(deps@, name@, *cfg)) ==> views_of(final(warnings)@) == views_of(
            old(warnings)@,
        ) + underscore_warnings(name@),
        (r is Err && !any_fatal(deps@, name@, *cfg)) ==> views_of(final(warnings)@) == views_of(
            old(warnings)@,
        ) + underscore_warnings(name@) + summary_warnings(meta.description) + homepage_warnings(
            meta.homepage,
        ),
{
    let ghost w0 = views_of(old(warnings)@);
    if contains_char(name, '_') {
        let ghost wb = views_of(warnings@);
        warnings.push(String::from_str("Package name contains an underscore"));
        proof {
            assert(views_of(warnings@) =~= wb.push("Package name contains an underscore"@));
            assert(views_of(warnings@) =~= w0 + underscore_warnings(name@));
        }
    } else {
        proof {
            assert(views_of(warnings@) =~= w0 + underscore_warnings(name@));
        }
    }
    let block = match source_block(deps, name, cfg) {
        Result::Err(e) => {
            return Err(e);
        },
        Result::Ok(b) => b,
    };
    let summary = choose_summary(&meta.description, name, warnings);
    proof {
        assert(views_of(warnings@) =~= w0 + underscore_warnings(name@) + summary_warnings(
            meta.description,
        ));
    }
    let homepage = match choose_homepage(&meta.homepage, &meta.repository, warnings) {
        Result::Err(e) => {
            proof {
                assert(views_of(warnings@) =~= w0 + underscore_warnings(name@) + summary_warnings(
                    meta.description,
                ) + homepage_warnings(meta.homepage));
            }
            return Err(e);
        },
        Result::Ok(h) => h,
    };
    let license_source = choose_license(&meta.license, &meta.license_file, warnings);
    proof {
        assert(views_of(warnings@) =~= w0 + underscore_warnings(name@) + summary_warnings(
            meta.description,
        ) + homepage_warnings(meta.homepage) + license_warnings(meta.license, meta.license_file));
    }
    let license = format_license(license_source.as_str());
    let lic_files = lic_files_block(lic_directives);
    let empty_sep = String::new();
    let src_uri = join_strings(&block.uri_lines, empty_sep.as_str());
    let src_uri_extras = join_strings(&block.extra_lines, "\n");
    let git_srcpv = version_directive(repo, cfg.legacy_overrides);
    let mut file_name = String::from_str(name);
    file_name.append("_");
    file_name.append(version);
    file_name.append(".bb");
    let fields = RecipeFields {
        name: String::from_str(name),
        version: String::from_str(version),
        summary,
        homepage,
        license,
        lic_files,
        src_uri_lines: block.uri_lines,
        src_uri,
        src_uri_extras,
        project_rel_dir: String::from_str(rel_dir),
        project_src_uri: repo.uri.clone(),
        project_src_rev: repo.rev.clone(),
        git_srcpv,
        file_name,
    };
    Ok(fields)
}

} // verus!
