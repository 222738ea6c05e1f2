use cargo_bitbake::assemble::{assemble_recipe, source_block, RecipeFields};
use cargo_bitbake::checksum::checksum_annotation;
use cargo_bitbake::entry::dependency_entry;
use cargo_bitbake::gitrev::{git_to_fetch_url, is_full_commit_str, resolve_revision};
use cargo_bitbake::meta::format_license;
use cargo_bitbake::model::{
    Config, GenError, GitReference, PackageMeta, ProjectRepoState, ResolvedPackage, SourceKind,
};
use cargo_bitbake::policy::version_directive;
use cargo_bitbake::text::{contains_char, join_strings, split_on_slash, str_lt, trim_str};

fn cfg() -> Config {
    Config { reproducible: false, no_checksums: false, legacy_overrides: false }
}

fn registry_pkg(name: &str, version: &str, checksum: Option<&str>) -> ResolvedPackage {
    ResolvedPackage {
        name: name.to_string(),
        version: version.to_string(),
        source: SourceKind::Registry { host: "crates.io".to_string() },
        checksum: checksum.map(|c| c.to_string()),
    }
}

fn git_pkg(name: &str, url: &str, reference: GitReference, precise: Option<&str>) -> ResolvedPackage {
    ResolvedPackage {
        name: name.to_string(),
        version: "1.0.0".to_string(),
        source: SourceKind::Git {
            fetch_url: url.to_string(),
            reference,
            precise: precise.map(|p| p.to_string()),
        },
        checksum: None,
    }
}

fn path_pkg(name: &str) -> ResolvedPackage {
    ResolvedPackage {
        name: name.to_string(),
        version: "0.1.0".to_string(),
        source: SourceKind::Path,
        checksum: None,
    }
}

fn meta_full() -> PackageMeta {
    PackageMeta {
        description: Some("A tool".to_string()),
        homepage: Some("https://example.org".to_string()),
        repository: Some("https://example.org/repo".to_string()),
        license: Some("MIT".to_string()),
        license_file: None,
    }
}

fn repo_tagged() -> ProjectRepoState {
    ProjectRepoState {
        uri: "git://example.org/p;protocol=https".to_string(),
        rev: "0123456789abcdef0123456789abcdef01234567".to_string(),
        tag: true,
    }
}

#[test]
fn registry_line_with_checksum() {
    let p = registry_pkg("foo", "1.2.3", Some("abc123"));
    let r = dependency_entry(&p, &cfg()).unwrap().unwrap();
    assert_eq!(
        r.uri_line,
        "    crate-archive://crates.io/foo/1.2.3;sha256sum=abc123;foo-1.2.3.sha256sum=abc123 \\\n"
    );
    assert!(r.side_lines.is_empty());
}

#[test]
fn registry_line_without_checksum() {
    let p = registry_pkg("foo", "1.2.3", Some("abc123"));
    let mut c = cfg();
    c.no_checksums = true;
    let r = dependency_entry(&p, &c).unwrap().unwrap();
    assert_eq!(r.uri_line, "    crate-archive://crates.io/foo/1.2.3 \\\n");
}

#[test]
fn registry_line_missing_digest_is_silent() {
    let p = registry_pkg("foo", "1.2.3", None);
    let r = dependency_entry(&p, &cfg()).unwrap().unwrap();
    assert_eq!(r.uri_line, "    crate-archive://crates.io/foo/1.2.3 \\\n");
}

#[test]
fn checksum_annotation_exact() {
    let r = checksum_annotation("foo", "1.2.3", &Some("abc123".to_string()));
    assert_eq!(r, ";sha256sum=abc123;foo-1.2.3.sha256sum=abc123");
    let none = checksum_annotation("foo", "1.2.3", &None);
    assert_eq!(none, "");
}

#[test]
fn master_branch_resolves_to_autorev() {
    let rev = resolve_revision(
        &GitReference::Branch("master".to_string()),
        &Some("0123456789abcdef0123456789abcdef01234567".to_string()),
        false,
    );
    assert_eq!(rev.unwrap(), "${AUTOREV}");
}

#[test]
fn reproducible_precise_wins_over_branch() {
    let rev = resolve_revision(
        &GitReference::Branch("master".to_string()),
        &Some("0123456789abcdef0123456789abcdef01234567".to_string()),
        true,
    );
    assert_eq!(rev.unwrap(), "0123456789abcdef0123456789abcdef01234567");
}

#[test]
fn non_default_branch_used_literally() {
    let rev = resolve_revision(&GitReference::Branch("devel".to_string()), &None, false);
    assert_eq!(rev.unwrap(), "devel");
}

#[test]
fn default_branch_resolves_to_autorev() {
    let rev = resolve_revision(&GitReference::DefaultBranch, &None, false);
    assert_eq!(rev.unwrap(), "${AUTOREV}");
}

#[test]
fn tag_used_verbatim() {
    let rev = resolve_revision(&GitReference::Tag("v1.2.3".to_string()), &None, false);
    assert_eq!(rev.unwrap(), "v1.2.3");
}

#[test]
fn full_length_rev_used_as_is() {
    let full = "0123456789abcdef0123456789abcdef01234567";
    assert!(is_full_commit_str(full));
    let rev = resolve_revision(&GitReference::Rev(full.to_string()), &None, false);
    assert_eq!(rev.unwrap(), full);
}

#[test]
fn abbreviated_rev_without_precise_is_fatal() {
    assert!(!is_full_commit_str("deadbeef"));
    let p = git_pkg(
        "dep",
        "git://example.org/dep;protocol=https;name=dep",
        GitReference::Rev("deadbeef".to_string()),
        None,
    );
    let r = dependency_entry(&p, &cfg());
    match r {
        Err(GenError::UnresolvableRevision { name, reference }) => {
            assert_eq!(name, "dep");
            assert!(matches!(reference, GitReference::Rev(s) if s == "deadbeef"));
        }
        _ => panic!("expected a fatal revision error"),
    }
}

#[test]
fn abbreviated_rev_fails_whole_generation() {
    let deps = vec![git_pkg("dep", "git://x", GitReference::Rev("deadbeef".to_string()), None)];
    let mut warnings = Vec::new();
    let r = assemble_recipe(
        "me",
        "1.0.0",
        &meta_full(),
        &deps,
        &Vec::new(),
        &repo_tagged(),
        "",
        &cfg(),
        &mut warnings,
    );
    assert!(r.is_err());
}

#[test]
fn abbreviated_rev_with_precise_uses_precise() {
    let rev = resolve_revision(
        &GitReference::Rev("deadbeef".to_string()),
        &Some("0123456789abcdef0123456789abcdef01234567".to_string()),
        false,
    );
    assert_eq!(rev.unwrap(), "0123456789abcdef0123456789abcdef01234567");
}

#[test]
fn git_entry_side_lines_in_order() {
    let p = git_pkg(
        "dep",
        "git://example.org/dep;protocol=https;name=dep",
        GitReference::Tag("v2".to_string()),
        None,
    );
    let r = dependency_entry(&p, &cfg()).unwrap().unwrap();
    assert_eq!(r.uri_line, "    git://example.org/dep;protocol=https;name=dep \\\n");
    assert_eq!(
        r.side_lines,
        vec![
            "SRCREV_FORMAT .= \"_dep\"".to_string(),
            "SRCREV_dep = \"v2\"".to_string(),
            "EXTRA_OECARGO_PATHS += \"${WORKDIR}/dep\"".to_string(),
        ]
    );
}

#[test]
fn git_remote_rewritten_into_fetch_form() {
    assert_eq!(
        git_to_fetch_url("https://github.com/meta-rust/dep.git", "dep"),
        "git://github.com/meta-rust/dep;protocol=https;name=dep;destsuffix=dep"
    );
    assert_eq!(
        git_to_fetch_url("http://example.org/d", "d"),
        "git://example.org/d;protocol=http;name=d;destsuffix=d"
    );
    assert_eq!(
        git_to_fetch_url("git://example.org/x", "x"),
        "git://example.org/x;protocol=git;name=x;destsuffix=x"
    );
    assert_eq!(
        git_to_fetch_url("ssh://git@example.org/team/dep.git", "dep"),
        "git://example.org/team/dep;protocol=ssh;name=dep;destsuffix=dep"
    );
    assert_eq!(
        git_to_fetch_url("example.org/plain", "p"),
        "git://example.org/plain;protocol=https;name=p;destsuffix=p"
    );
    assert_eq!(
        git_to_fetch_url("https://example.org/r.git.git", "r"),
        "git://example.org/r;protocol=https;name=r;destsuffix=r"
    );
}

#[test]
fn path_dependency_contributes_nothing() {
    let p = path_pkg("inner");
    let r = dependency_entry(&p, &cfg()).unwrap();
    assert!(r.is_none());
    let deps = vec![path_pkg("inner"), registry_pkg("foo", "1.2.3", None)];
    let b = source_block(&deps, "me", &cfg()).unwrap();
    assert_eq!(b.uri_lines, vec!["    crate-archive://crates.io/foo/1.2.3 \\\n".to_string()]);
    assert!(b.extra_lines.is_empty());
}

#[test]
fn other_source_rendered_verbatim() {
    let p = ResolvedPackage {
        name: "blob".to_string(),
        version: "0.1.0".to_string(),
        source: SourceKind::Other { url: "https://example.org/blob.tar.gz".to_string() },
        checksum: None,
    };
    let r = dependency_entry(&p, &cfg()).unwrap().unwrap();
    assert_eq!(r.uri_line, "    https://example.org/blob.tar.gz \\\n");
}

#[test]
fn self_package_never_in_block() {
    let deps = vec![registry_pkg("me", "1.0.0", Some("ffff")), registry_pkg("foo", "1.2.3", None)];
    let b = source_block(&deps, "me", &cfg()).unwrap();
    assert_eq!(b.uri_lines, vec!["    crate-archive://crates.io/foo/1.2.3 \\\n".to_string()]);
}

#[test]
fn block_sorted_and_order_independent() {
    let a = vec![
        registry_pkg("zeta", "2.0.0", None),
        registry_pkg("alpha", "1.0.0", None),
        registry_pkg("mid", "3.0.0", None),
    ];
    let b = vec![
        registry_pkg("mid", "3.0.0", None),
        registry_pkg("zeta", "2.0.0", None),
        registry_pkg("alpha", "1.0.0", None),
    ];
    let ba = source_block(&a, "me", &cfg()).unwrap();
    let bb = source_block(&b, "me", &cfg()).unwrap();
    assert_eq!(ba.uri_lines, bb.uri_lines);
    let mut sorted = ba.uri_lines.clone();
    sorted.sort();
    assert_eq!(ba.uri_lines, sorted);
}

#[test]
fn duplicate_lines_collapse() {
    let deps = vec![registry_pkg("foo", "1.2.3", None), registry_pkg("foo", "1.2.3", None)];
    let b = source_block(&deps, "me", &cfg()).unwrap();
    assert_eq!(b.uri_lines.len(), 1);
}

#[test]
fn extras_keep_encounter_order() {
    let deps = vec![
        git_pkg("zz", "git://example.org/zz;name=zz", GitReference::Tag("v9".to_string()), None),
        git_pkg("aa", "git://example.org/aa;name=aa", GitReference::Tag("v1".to_string()), None),
    ];
    let b = source_block(&deps, "me", &cfg()).unwrap();
    assert_eq!(
        b.extra_lines,
        vec![
            "SRCREV_FORMAT .= \"_zz\"".to_string(),
            "SRCREV_zz = \"v9\"".to_string(),
            "EXTRA_OECARGO_PATHS += \"${WORKDIR}/zz\"".to_string(),
            "SRCREV_FORMAT .= \"_aa\"".to_string(),
            "SRCREV_aa = \"v1\"".to_string(),
            "EXTRA_OECARGO_PATHS += \"${WORKDIR}/aa\"".to_string(),
        ]
    );
}

#[test]
fn version_directive_modern_and_legacy() {
    let repo = ProjectRepoState {
        uri: String::new(),
        rev: "0123456789abcdef".to_string(),
        tag: false,
    };
    assert_eq!(version_directive(&repo, false), "PV:append = \".AUTOINC+0123456789\"");
    assert_eq!(version_directive(&repo, true), "PV_append = \".AUTOINC+0123456789\"");
}

#[test]
fn version_directive_empty_for_tagged_or_short() {
    let tagged = ProjectRepoState {
        uri: String::new(),
        rev: "0123456789abcdef".to_string(),
        tag: true,
    };
    assert_eq!(version_directive(&tagged, false), "");
    let short = ProjectRepoState { uri: String::new(), rev: "0123456789".to_string(), tag: false };
    assert_eq!(version_directive(&short, false), "");
}

#[test]
fn license_split_trim_join() {
    assert_eq!(format_license("MIT/Apache-2.0"), "MIT | Apache-2.0");
    assert_eq!(format_license(" MIT / Apache-2.0 "), "MIT | Apache-2.0");
    assert_eq!(format_license("MIT"), "MIT");
}

#[test]
fn split_on_slash_edges() {
    let parts = split_on_slash("a/b/c");
    assert_eq!(parts, vec!["a".to_string(), "b".to_string(), "c".to_string()]);
    assert_eq!(split_on_slash(""), vec!["".to_string()]);
    assert_eq!(split_on_slash("a/"), vec!["a".to_string(), "".to_string()]);
}

#[test]
fn trim_uses_unicode_whitespace() {
    assert_eq!(trim_str("  spaced out \t\n"), "spaced out");
    assert_eq!(trim_str("\u{2009}thin\u{2009}"), "thin");
    assert_eq!(trim_str("   "), "");
}

#[test]
fn text_order_and_join() {
    assert!(str_lt("abc", "abd"));
    assert!(!str_lt("abd", "abc"));
    assert!(str_lt("ab", "abc"));
    assert!(!str_lt("abc", "abc"));
    let parts = vec!["a".to_string(), "b".to_string()];
    assert_eq!(join_strings(&parts, " | "), "a | b");
    assert!(contains_char("under_score", '_'));
    assert!(!contains_char("dash-only", '_'));
}

#[test]
fn homepage_fallback_and_fatal() {
    let mut meta = meta_full();
    meta.homepage = None;
    let deps = Vec::new();
    let mut warnings = Vec::new();
    let r = assemble_recipe(
        "me",
        "1.0.0",
        &meta,
        &deps,
        &Vec::new(),
        &repo_tagged(),
        "",
        &cfg(),
        &mut warnings,
    )
    .unwrap();
    assert_eq!(r.homepage, "https://example.org/repo");
    assert!(warnings
        .iter()
        .any(|w| w == "No package.homepage set in your Cargo.toml, trying package.repository"));

    meta.repository = None;
    let mut warnings2 = Vec::new();
    let r2 = assemble_recipe(
        "me",
        "1.0.0",
        &meta,
        &deps,
        &Vec::new(),
        &repo_tagged(),
        "",
        &cfg(),
        &mut warnings2,
    );
    assert!(matches!(r2, Err(GenError::MissingHomepage)));
}

#[test]
fn license_fallback_chain() {
    let mut meta = meta_full();
    meta.license = None;
    meta.license_file = Some("COPYING".to_string());
    let mut warnings = Vec::new();
    let r = assemble_recipe(
        "me",
        "1.0.0",
        &meta,
        &Vec::new(),
        &Vec::new(),
        &repo_tagged(),
        "",
        &cfg(),
        &mut warnings,
    )
    .unwrap();
    assert_eq!(r.license, "COPYING");

    meta.license_file = None;
    let mut warnings2 = Vec::new();
    let r2 = assemble_recipe(
        "me",
        "1.0.0",
        &meta,
        &Vec::new(),
        &Vec::new(),
        &repo_tagged(),
        "",
        &cfg(),
        &mut warnings2,
    )
    .unwrap();
    assert_eq!(r2.license, "CLOSED");
    assert!(warnings2.iter().any(|w| w == "Assuming CLOSED license"));
}

#[test]
fn summary_trimmed_and_continued() {
    let mut meta = meta_full();
    meta.description = Some("  a tool\nthat wraps  ".to_string());
    let mut warnings = Vec::new();
    let r = assemble_recipe(
        "me",
        "1.0.0",
        &meta,
        &Vec::new(),
        &Vec::new(),
        &repo_tagged(),
        "",
        &cfg(),
        &mut warnings,
    )
    .unwrap();
    assert_eq!(r.summary, "a tool \\\nthat wraps");
}

#[test]
fn underscore_advisory_does_not_change_output() {
    let mut warnings = Vec::new();
    let r = assemble_recipe(
        "my_tool",
        "1.0.0",
        &meta_full(),
        &Vec::new(),
        &Vec::new(),
        &repo_tagged(),
        "",
        &cfg(),
        &mut warnings,
    )
    .unwrap();
    assert_eq!(warnings, vec!["Package name contains an underscore".to_string()]);
    assert_eq!(r.file_name, "my_tool_1.0.0.bb");
}

fn fields_eq(a: &RecipeFields, b: &RecipeFields) -> bool {
    a.name == b.name && a.version == b.version && a.summary == b.summary
        && a.homepage == b.homepage && a.license == b.license && a.lic_files == b.lic_files
        && a.src_uri == b.src_uri && a.src_uri_extras == b.src_uri_extras
        && a.project_rel_dir == b.project_rel_dir && a.project_src_uri == b.project_src_uri
        && a.project_src_rev == b.project_src_rev && a.git_srcpv == b.git_srcpv
        && a.file_name == b.file_name
}

#[test]
fn identical_snapshot_identical_recipe() {
    let deps = vec![
        registry_pkg("foo", "1.2.3", Some("abc123")),
        git_pkg(
            "dep",
            "git://example.org/dep;name=dep",
            GitReference::Branch("master".to_string()),
            Some("0123456789abcdef0123456789abcdef01234567"),
        ),
    ];
    let c = Config { reproducible: true, no_checksums: false, legacy_overrides: false };
    let mut w1 = Vec::new();
    let r1 = assemble_recipe(
        "me",
        "1.0.0",
        &meta_full(),
        &deps,
        &vec!["file://LICENSE;md5=abc \\\n".to_string()],
        &repo_tagged(),
        "sub/dir",
        &c,
        &mut w1,
    )
    .unwrap();
    let mut w2 = Vec::new();
    let r2 = assemble_recipe(
        "me",
        "1.0.0",
        &meta_full(),
        &deps,
        &vec!["file://LICENSE;md5=abc \\\n".to_string()],
        &repo_tagged(),
        "sub/dir",
        &c,
        &mut w2,
    )
    .unwrap();
    assert!(fields_eq(&r1, &r2));
    assert_eq!(w1, w2);
    assert!(r1.src_uri_extras.contains(
        "SRCREV_dep = \"0123456789abcdef0123456789abcdef01234567\""
    ));
}

#[test]
fn assembled_fields_exact() {
    let deps = vec![registry_pkg("foo", "1.2.3", Some("abc123")), path_pkg("inner")];
    let mut warnings = Vec::new();
    let r = assemble_recipe(
        "me",
        "0.2.0",
        &meta_full(),
        &deps,
        &vec!["file://LICENSE;md5=d41d8 \\\n".to_string()],
        &repo_tagged(),
        "",
        &cfg(),
        &mut warnings,
    )
    .unwrap();
    assert_eq!(r.name, "me");
    assert_eq!(r.version, "0.2.0");
    assert_eq!(r.summary, "A tool");
    assert_eq!(r.homepage, "https://example.org");
    assert_eq!(r.license, "MIT");
    assert_eq!(r.lic_files, "    file://LICENSE;md5=d41d8 \\\n");
    assert_eq!(
        r.src_uri,
        "    crate-archive://crates.io/foo/1.2.3;sha256sum=abc123;foo-1.2.3.sha256sum=abc123 \\\n"
    );
    assert_eq!(r.src_uri_extras, "");
    assert_eq!(r.project_src_rev, "0123456789abcdef0123456789abcdef01234567");
    assert_eq!(r.git_srcpv, "");
    assert_eq!(r.file_name, "me_0.2.0.bb");
    assert!(warnings.is_empty());
}
