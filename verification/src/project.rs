//! The project overview of `project`: language, package manager, metadata,
//! source totals, Git details, housekeeping files, and the lines shown.

use vstd::prelude::*;

use crate::fetch::{find_toml_string, cargo_value, opt_text, ProjectInfo};
use crate::git::{
    change_status, change_status_text, commit_count, inspect_with, latest_tag, ran, GitInfo,
};
use crate::paths::{extension, extension_of};
use crate::process::CommandError;
use crate::summary::inspected_by;
use crate::text::{
    ascii_lower, chars_of, chars_are, decimal, first_index, line_bounds, lines, push_char,
    push_decimal, same_text, string_of,
};
use crate::ui::{divider_line, heading_line, info_line, Ui};

verus! {

/// The whole `project` report.
#[derive(Debug, Clone)]
pub struct ProjectReport {
    pub yoo_version: String,
    pub project: ProjectDetails,
    pub source: SourceSummary,
    pub git: Option<GitProjectSummary>,
    pub files: ProjectFiles,
}

/// What the project is.
#[derive(Debug, Clone)]
pub struct ProjectDetails {
    pub name: String,
    pub language: String,
    pub package_manager: Option<String>,
    pub manifest: Option<String>,
    pub version: Option<String>,
    pub edition: Option<String>,
    pub license: Option<String>,
    pub directory: String,
}

/// Source totals.
#[derive(Debug, Clone, Copy)]
pub struct SourceSummary {
    pub files: usize,
    pub lines: usize,
}

/// Git details.
#[derive(Debug, Clone)]
pub struct GitProjectSummary {
    pub branch: String,
    pub changed_files: usize,
    pub commits: Option<usize>,
    pub latest_tag: Option<String>,
}

/// Which housekeeping files exist.
#[derive(Debug, Clone, Copy)]
pub struct ProjectFiles {
    pub readme: bool,
    pub license: bool,
    pub changelog: bool,
    pub gitignore: bool,
    pub ci: bool,
}

/// The source totals with one more file of `lines` lines. The totals are
/// counted in `usize`, so they must have room for it.
pub fn add_source_file(summary: SourceSummary, lines: usize) -> (r: SourceSummary)
    requires
        summary.files < usize::MAX,
        summary.lines + lines <= usize::MAX,
    ensures
        r.files == summary.files + 1,
        r.lines == summary.lines + lines,
{
    SourceSummary { files: summary.files + 1, lines: summary.lines + lines }
}

/// Whether `name` is among `names`.
pub open spec fn has_name(names: Seq<String>, name: Seq<char>) -> bool {
    exists|i: int| 0 <= i < names.len() && #[trigger] names[i]@ == name
}

pub(crate) fn contains_name(names: &Vec<String>, name: &str) -> (r: bool)
    ensures
        r == has_name(names@, name@),
{
    let mut i: usize = 0;
    while i < names.len()
        invariant
            i <= names@.len(),
            forall|k: int| 0 <= k < i ==> names@[k]@ != name@,
        decreases names.len() - i,
    {
        if same_text(names[i].as_str(), name) {
            return true;
        }
        i += 1;
    }
    false
}

/// The package manager of a project in `language`, judged by the lock and
/// build files among `files` (the names of the files in its directory).
pub open spec fn package_manager_spec(language: Seq<char>, files: Seq<String>) -> Option<Seq<char>> {
    if language == "Rust"@ {
        Some("Cargo"@)
    } else if language == "Node.js"@ {
        if has_name(files, "pnpm-lock.yaml"@) {
            Some("pnpm"@)
        } else if has_name(files, "yarn.lock"@) {
            Some("Yarn"@)
        } else if has_name(files, "bun.lockb"@) || has_name(files, "bun.lock"@) {
            Some("Bun"@)
        } else {
            Some("npm"@)
        }
    } else if language == "Python"@ {
        if has_name(files, "uv.lock"@) {
            Some("uv"@)
        } else if has_name(files, "poetry.lock"@) {
            Some("Poetry"@)
        } else if has_name(files, "Pipfile"@) {
            Some("Pipenv"@)
        } else {
            Some("pip"@)
        }
    } else if language == "Go"@ {
        Some("Go modules"@)
    } else if language == "Java"@ {
        if has_name(files, "pom.xml"@) {
            Some("Maven"@)
        } else {
            Some("Gradle"@)
        }
    } else if language == ".NET"@ {
        Some(".NET SDK"@)
    } else {
        None
    }
}

fn some_text(s: &str) -> (r: Option<String>)
    ensures
        r matches Some(t) && t@ == s@,
{
    Some(String::from_str(s))
}

/// The package manager of a project in `language`, given the names of the files in its directory.
pub fn package_manager(language: &str, files: &Vec<String>) -> (r: Option<String>)
    ensures
        opt_text(r) == package_manager_spec(language@, files@),
{
    let l = chars_of(language);
    if chars_are(&l, "Rust") {
        some_text("Cargo")
    } else if chars_are(&l, "Node.js") {
        if contains_name(files, "pnpm-lock.yaml") {
            some_text("pnpm")
        } else if contains_name(files, "yarn.lock") {
            some_text("Yarn")
        } else if contains_name(files, "bun.lockb") || contains_name(files, "bun.lock") {
            some_text("Bun")
        } else {
            some_text("npm")
        }
    } else if chars_are(&l, "Python") {
        if contains_name(files, "uv.lock") {
            some_text("uv")
        } else if contains_name(files, "poetry.lock") {
            some_text("Poetry")
        } else if contains_name(files, "Pipfile") {
            some_text("Pipenv")
        } else {
            some_text("pip")
        }
    } else if chars_are(&l, "Go") {
        some_text("Go modules")
    } else if chars_are(&l, "Java") {
        if contains_name(files, "pom.xml") {
            some_text("Maven")
        } else {
            some_text("Gradle")
        }
    } else if chars_are(&l, ".NET") {
        some_text(".NET SDK")
    } else {
        None
    }
}

/// Directories that source counting skips: generated, vendored and VCS folders.
pub open spec fn skipped_directory(name: Seq<char>) -> bool {
    name == ".git"@ || name == "target"@ || name == "node_modules"@ || name == "dist"@ || name
        == "build"@ || name == ".next"@ || name == ".venv"@ || name == "venv"@ || name == "vendor"@
        || name == "__pycache__"@
}

/// Whether source counting skips the directory named `name`.
pub fn should_skip_directory(name: &str) -> (r: bool)
    ensures
        r == skipped_directory(name@),
{
    let v = chars_of(name);
    chars_are(&v, ".git") || chars_are(&v, "target") || chars_are(&v, "node_modules") || chars_are(
        &v,
        "dist",
    ) || chars_are(&v, "build") || chars_are(&v, ".next") || chars_are(&v, ".venv") || chars_are(
        &v,
        "venv",
    ) || chars_are(&v, "vendor") || chars_are(&v, "__pycache__")
}

/// The source extensions counted, across all supported languages.
pub open spec fn source_extension_list() -> Seq<Seq<char>> {
    seq![
        "rs"@, "js"@, "cjs"@, "mjs"@, "jsx"@, "ts"@, "tsx"@, "py"@, "go"@, "java"@, "kt"@, "kts"@,
        "cs"@, "fs"@, "vb"@, "c"@, "cpp"@, "h"@, "hpp"@,
    ]
}

/// The source extensions counted, across all supported languages.
pub fn source_extensions() -> (r: Vec<&'static str>)
    ensures
        r@.map_values(|s: &str| s@) == source_extension_list(),
{
    let r = vec![
        "rs", "js", "cjs", "mjs", "jsx", "ts", "tsx", "py", "go", "java", "kt", "kts", "cs", "fs",
        "vb", "c", "cpp", "h", "hpp",
    ];
    assert(r@.map_values(|s: &str| s@) =~= source_extension_list());
    r
}

/// Whether a file named `name` counts as source: its extension, in any
/// ASCII letter case, is one of the source extensions.
pub open spec fn is_source_name(name: Seq<char>) -> bool {
    match extension_of(name) {
        Some(e) => source_extension_list().contains(ascii_lower(e)),
        None => false,
    }
}

/// Whether a file named `name` counts as source.
pub fn is_source_file(name: &str) -> (r: bool)
    ensures
        r == is_source_name(name@),
{
    match extension(&chars_of(name)) {
        Some(e) => {
            let lower = crate::text::ascii_lowercase(string_of(&e).as_str());
            let exts = source_extensions();
            let ghost list = source_extension_list();
            let mut i: usize = 0;
            while i < exts.len()
                invariant
                    i <= exts@.len(),
                    list == source_extension_list(),
                    lower@ == ascii_lower(e@),
                    extension_of(name@) == Some(e@),
                    exts@.map_values(|s: &str| s@) == list,
                    forall|k: int| 0 <= k < i ==> list[k] != lower@,
                decreases exts.len() - i,
            {
                assert(list[i as int] == exts@[i as int]@);
                if crate::text::same_chars(&lower, &chars_of(exts[i])) {
                    assert(list[i as int] == lower@);
                    return true;
                }
                i += 1;
            }
            false
        },
        None => false,
    }
}

/// The number of lines in `contents`, as `str::lines` counts them.
pub fn count_lines(contents: &str) -> (n: usize)
    ensures
        n == lines(contents@).len(),
{
    let v = chars_of(contents);
    let mut pos: usize = 0;
    let mut n: usize = 0;
    assert(v@.skip(0) == v@);
    while pos < v.len()
        invariant
            pos <= v@.len(),
            n <= pos,
            v@ == contents@,
            lines(v@).len() == n + lines(v@.skip(pos as int)).len(),
        decreases v.len() - pos,
    {
        let (_end, next) = line_bounds(&v, pos);
        n += 1;
        pos = next;
    }
    assert(lines(v@.skip(pos as int)).len() == 0);
    n
}

/// The license file names, in the order they are looked for.
pub open spec fn license_files() -> Seq<Seq<char>> {
    seq!["LICENSE"@, "LICENSE.md"@, "LICENCE"@, "LICENCE.md"@]
}

/// The first license file name among `files`.
pub open spec fn license_file_spec(files: Seq<String>) -> Option<Seq<char>> {
    if has_name(files, "LICENSE"@) {
        Some("LICENSE"@)
    } else if has_name(files, "LICENSE.md"@) {
        Some("LICENSE.md"@)
    } else if has_name(files, "LICENCE"@) {
        Some("LICENCE"@)
    } else if has_name(files, "LICENCE.md"@) {
        Some("LICENCE.md"@)
    } else {
        None
    }
}

/// The first license file present, given the names of the files in the directory.
pub fn find_license_file(files: &Vec<String>) -> (r: Option<String>)
    ensures
        opt_text(r) == license_file_spec(files@),
{
    if contains_name(files, "LICENSE") {
        some_text("LICENSE")
    } else if contains_name(files, "LICENSE.md") {
        some_text("LICENSE.md")
    } else if contains_name(files, "LICENCE") {
        some_text("LICENCE")
    } else if contains_name(files, "LICENCE.md") {
        some_text("LICENCE.md")
    } else {
        None
    }
}

/// Whether any of `candidates` is among `files`.
pub fn any_file_exists(files: &Vec<String>, candidates: &Vec<&str>) -> (r: bool)
    ensures
        r == exists|i: int| 0 <= i < candidates@.len() && has_name(files@, #[trigger] candidates@[i]@),
{
    let mut i: usize = 0;
    while i < candidates.len()
        invariant
            i <= candidates@.len(),
            forall|k: int| 0 <= k < i ==> !has_name(files@, #[trigger] candidates@[k]@),
        decreases candidates.len() - i,
    {
        if contains_name(files, candidates[i]) {
            return true;
        }
        i += 1;
    }
    false
}

/// `t` (the digits of a number) from index `i` on, with a comma before each
/// digit that starts a group of three counted from the right.
pub open spec fn group_from(t: Seq<char>, i: nat) -> Seq<char>
    decreases t.len() - i,
{
    if i >= t.len() {
        Seq::empty()
    } else {
        (if i > 0 && (t.len() - i) % 3 == 0 {
            seq![',', t[i as int]]
        } else {
            seq![t[i as int]]
        }) + group_from(t, i + 1)
    }
}

/// `n` in decimal with thousands separated by commas.
pub open spec fn grouped(n: nat) -> Seq<char> {
    group_from(decimal(n), 0)
}

/// `value` in decimal with thousands separated by commas, as in `1,234,567`.
pub fn format_number(value: usize) -> (r: String)
    ensures
        r@ == grouped(value as nat),
{
    let mut digits = String::new();
    push_decimal(&mut digits, value as u64);
    let t = chars_of(digits.as_str());
    let ghost ts = t@;
    let mut formatted = String::new();
    let mut index: usize = 0;
    while index < t.len()
        invariant
            index <= t@.len(),
            ts == t@,
            ts == decimal(value as nat),
            group_from(ts, 0) == formatted@ + group_from(ts, index as nat),
        decreases t.len() - index,
    {
        let ghost before = formatted@;
        if index > 0 && (t.len() - index) % 3 == 0 {
            push_char(&mut formatted, ',');
        }
        push_char(&mut formatted, t[index]);
        proof {
            let piece = if index > 0 && (ts.len() - index) % 3 == 0 {
                seq![',', ts[index as int]]
            } else {
                seq![ts[index as int]]
            };
            assert(group_from(ts, index as nat) == piece + group_from(ts, (index + 1) as nat));
            assert(formatted@ == before + piece);
        }
        index += 1;
    }
    formatted
}

/// The project details of a detected project. For Rust the edition and
/// license come from `Cargo.toml`, the license falling back to a license file;
/// for other languages the license is the name of a license file.
pub open spec fn details_spec(detected: ProjectInfo, manifest_contents: Option<String>, files: Seq<String>) -> (
    Option<Seq<char>>,
    Option<Seq<char>>,
) {
    let rust = detected.kind@ == "Rust"@;
    let edition = if rust && manifest_contents is Some {
        cargo_value(manifest_contents->0@, "edition"@)
    } else {
        None
    };
    let from_manifest = if rust && manifest_contents is Some {
        cargo_value(manifest_contents->0@, "license"@)
    } else {
        None
    };
    let license = match from_manifest {
        Some(l) => Some(l),
        None => license_file_spec(files),
    };
    (edition, license)
}

/// The housekeeping files among `files` (the names of the files in the directory).
pub open spec fn files_spec(files: Seq<String>, ci: bool) -> (bool, bool, bool, bool, bool) {
    (
        has_name(files, "README.md"@) || has_name(files, "README"@) || has_name(files, "readme.md"@),
        has_name(files, "LICENSE"@) || has_name(files, "LICENSE.md"@) || has_name(files, "LICENCE"@)
            || has_name(files, "LICENCE.md"@),
        has_name(files, "CHANGELOG.md"@) || has_name(files, "CHANGELOG"@) || has_name(
            files,
            "HISTORY.md"@,
        ),
        has_name(files, ".gitignore"@),
        ci,
    )
}

fn housekeeping(files: &Vec<String>, ci: bool) -> (r: ProjectFiles)
    ensures
        (r.readme, r.license, r.changelog, r.gitignore, r.ci) == files_spec(files@, ci),
{
    ProjectFiles {
        readme: contains_name(files, "README.md") || contains_name(files, "README") || contains_name(
            files,
            "readme.md",
        ),
        license: contains_name(files, "LICENSE") || contains_name(files, "LICENSE.md") || contains_name(
            files,
            "LICENCE",
        ) || contains_name(files, "LICENCE.md"),
        changelog: contains_name(files, "CHANGELOG.md") || contains_name(files, "CHANGELOG")
            || contains_name(files, "HISTORY.md"),
        gitignore: contains_name(files, ".gitignore"),
        ci,
    }
}

/// `cc` is an outcome of counting the commits through `run`.
pub open spec fn counted_by<F: Fn(&[&str]) -> Result<String, CommandError>>(
    run: F,
    cc: Result<Option<usize>, CommandError>,
) -> bool {
    exists|h: Result<String, CommandError>, c: Result<String, CommandError>|
        #![trigger crate::git::commit_count_result(h, c, cc)]
        ran(run, crate::git::verify_head_args(), h) && (h is Ok ==> ran(run, crate::git::count_args(), c))
            && crate::git::commit_count_result(h, c, cc)
}

/// `lt` is an outcome of asking `run` for the newest tag.
pub open spec fn tagged_by<F: Fn(&[&str]) -> Result<String, CommandError>>(
    run: F,
    lt: Result<Option<String>, CommandError>,
) -> bool {
    exists|d: Result<String, CommandError>|
        #![trigger crate::git::latest_tag_result(d, lt)]
        ran(run, crate::git::describe_args(), d) && crate::git::latest_tag_result(d, lt)
}

/// The Git details, given the outcomes of inspecting the repository (`g`),
/// counting the commits (`cc`) and asking for the newest tag (`lt`): no
/// details outside a repository, else the first failure, else all of them.
pub open spec fn git_summary_outcome(
    g: Result<Option<GitInfo>, CommandError>,
    cc: Result<Option<usize>, CommandError>,
    lt: Result<Option<String>, CommandError>,
) -> Result<Option<GitProjectSummary>, CommandError> {
    match g {
        Err(e) => Err(e),
        Ok(None) => Ok(None),
        Ok(Some(info)) => match cc {
            Err(e) => Err(e),
            Ok(commits) => match lt {
                Err(e) => Err(e),
                Ok(tag) => Ok(
                    Some(
                        GitProjectSummary {
                            branch: info.branch,
                            changed_files: info.changed_files,
                            commits,
                            latest_tag: tag,
                        },
                    ),
                ),
            },
        },
    }
}

/// The Git details of the repository that `run` queries: branch and changes,
/// then the commit count and newest tag; any Git failure is an error.
pub fn git_summary<F: Fn(&[&str]) -> Result<String, CommandError>>(run: F) -> (r: Result<
    Option<GitProjectSummary>,
    CommandError,
>)
    requires
        forall|a: &[&str]| #[trigger] call_requires(run, (a,)),
    ensures
        r matches Ok(Some(s)) ==> exists|
            r1: Result<String, CommandError>,
            r2: Result<String, CommandError>,
            r3: Result<String, CommandError>,
            r4: Result<String, CommandError>,
        |
            #![trigger crate::git::inspect_outcome(r1, r2, r3, r4)]
            crate::git::inspect_queries(run, r1, r2, r3, r4) && crate::git::inspect_outcome(
                r1,
                r2,
                r3,
                r4,
            ) == Ok::<Option<crate::git::GitInfoModel>, CommandError>(
                Some(crate::git::GitInfoModel { branch: s.branch@, changed_files: s.changed_files as nat }),
            ),
        r matches Ok(Some(s)) ==> exists|h: Result<String, CommandError>, c: Result<String, CommandError>|
            #![trigger crate::git::commit_count_result(h, c, Ok(s.commits))]
            ran(run, crate::git::verify_head_args(), h) && (h is Ok ==> ran(run, crate::git::count_args(), c))
                && crate::git::commit_count_result(h, c, Ok(s.commits)),
        r matches Ok(Some(s)) ==> exists|d: Result<String, CommandError>|
            #![trigger crate::git::latest_tag_result(d, Ok(s.latest_tag))]
            ran(run, crate::git::describe_args(), d) && crate::git::latest_tag_result(d, Ok(s.latest_tag)),
        r matches Ok(None) ==> exists|
            r1: Result<String, CommandError>,
            r2: Result<String, CommandError>,
            r3: Result<String, CommandError>,
            r4: Result<String, CommandError>,
        |
            #![trigger crate::git::inspect_outcome(r1, r2, r3, r4)]
            crate::git::inspect_queries(run, r1, r2, r3, r4) && crate::git::inspect_outcome(
                r1,
                r2,
                r3,
                r4,
            ) == Ok::<Option<crate::git::GitInfoModel>, CommandError>(None),
        exists|
            g: Result<Option<GitInfo>, CommandError>,
            cc: Result<Option<usize>, CommandError>,
            lt: Result<Option<String>, CommandError>,
        |
            #![trigger git_summary_outcome(g, cc, lt)]
            inspected_by(run, g) && (g matches Ok(Some(_)) ==> counted_by(run, cc)) && ((
            g matches Ok(Some(_)) && cc is Ok) ==> tagged_by(run, lt)) && r == git_summary_outcome(
                g,
                cc,
                lt,
            ),
{
    let none_count: Result<Option<usize>, CommandError> = Ok(None);
    let none_tag: Result<Option<String>, CommandError> = Ok(None);
    let g = inspect_with(&run);
    assert(inspected_by(run, g));
    let info = match g {
        Ok(Some(info)) => info,
        Ok(None) => {
            assert(git_summary_outcome(g, none_count, none_tag) == Ok::<
                Option<GitProjectSummary>,
                CommandError,
            >(None));
            return Ok(None);
        },
        Err(e) => {
            assert(git_summary_outcome(g, none_count, none_tag) == Err::<
                Option<GitProjectSummary>,
                CommandError,
            >(e));
            return Err(e);
        },
    };
    let cc = commit_count(&run);
    assert(counted_by(run, cc));
    let commits = match cc {
        Ok(c) => c,
        Err(e) => {
            assert(git_summary_outcome(g, cc, none_tag) == Err::<
                Option<GitProjectSummary>,
                CommandError,
            >(e));
            return Err(e);
        },
    };
    let lt = latest_tag(&run);
    assert(tagged_by(run, lt));
    let tag = match lt {
        Ok(t) => t,
        Err(e) => {
            assert(git_summary_outcome(g, cc, lt) == Err::<Option<GitProjectSummary>, CommandError>(
                e,
            ));
            return Err(e);
        },
    };
    let r = Ok(
        Some(
            GitProjectSummary {
                branch: info.branch,
                changed_files: info.changed_files,
                commits,
                latest_tag: tag,
            },
        ),
    );
    assert(r == git_summary_outcome(g, cc, lt));
    r
}

/// The report, from the detected project, the manifest text (where it could
/// be read), the names of the files in the directory, the source totals, the
/// Git details, and whether a CI workflow file exists.
pub fn collect(
    yoo_version: &str,
    detected: ProjectInfo,
    manifest_contents: Option<String>,
    files: &Vec<String>,
    source: SourceSummary,
    git: Option<GitProjectSummary>,
    ci: bool,
) -> (r: ProjectReport)
    ensures
        r.yoo_version@ == yoo_version@,
        r.project.name == detected.name,
        r.project.language == detected.kind,
        opt_text(r.project.package_manager) == package_manager_spec(detected.kind@, files@),
        r.project.manifest == detected.manifest,
        r.project.version == detected.version,
        (opt_text(r.project.edition), opt_text(r.project.license)) == details_spec(
            detected,
            manifest_contents,
            files@,
        ),
        r.project.directory == detected.directory,
        r.source == source,
        r.git == git,
        (r.files.readme, r.files.license, r.files.changelog, r.files.gitignore, r.files.ci)
            == files_spec(files@, ci),
{
    let rust = same_text(detected.kind.as_str(), "Rust");
    let edition = match &manifest_contents {
        Some(c) => if rust {
            find_toml_string(c.as_str(), "edition")
        } else {
            None
        },
        None => None,
    };
    let from_manifest = match &manifest_contents {
        Some(c) => if rust {
            find_toml_string(c.as_str(), "license")
        } else {
            None
        },
        None => None,
    };
    let license = match from_manifest {
        Some(l) => Some(l),
        None => find_license_file(files),
    };
    let package_manager = package_manager(detected.kind.as_str(), files);
    let files_found = housekeeping(files, ci);
    ProjectReport {
        yoo_version: String::from_str(yoo_version),
        project: ProjectDetails {
            name: detected.name,
            language: detected.kind,
            package_manager,
            manifest: detected.manifest,
            version: detected.version,
            edition,
            license,
            directory: detected.directory,
        },
        source,
        git,
        files: files_found,
    }
}

/// The line of a housekeeping file: found or not.
pub open spec fn check_line(ui: Ui, label: Seq<char>, present: bool) -> Seq<char> {
    if present {
        info_line(ui, "✓"@, label, "found"@)
    } else {
        info_line(ui, "○"@, label, "not found"@)
    }
}

fn print_check(ui: &Ui, label: &str, present: bool) -> (r: String)
    ensures
        r@ == check_line(*ui, label@, present),
{
    if present {
        ui.info("✓", label, "found")
    } else {
        ui.info("○", label, "not found")
    }
}

/// The lines naming the project.
pub open spec fn head_lines(p: ProjectDetails, ui: Ui) -> Seq<Seq<char>> {
    seq![
        heading_line(ui, "yoo project — project overview"@),
        Seq::<char>::empty(),
        divider_line(ui),
        info_line(ui, "📦"@, "Name:"@, p.name@),
        info_line(ui, "🔧"@, "Language:"@, p.language@),
    ] + (match p.package_manager {
        Some(m) => seq![info_line(ui, "📦"@, "Package manager:"@, m@)],
        None => Seq::empty(),
    }) + (match p.manifest {
        Some(m) => seq![info_line(ui, "📄"@, "Manifest:"@, m@)],
        None => Seq::empty(),
    }) + (match p.version {
        Some(v) => seq![info_line(ui, "🏷"@, "Version:"@, v@)],
        None => Seq::empty(),
    }) + (match p.edition {
        Some(v) => seq![info_line(ui, "🦀"@, "Edition:"@, v@)],
        None => Seq::empty(),
    }) + (match p.license {
        Some(v) => seq![info_line(ui, "⚖"@, "License:"@, v@)],
        None => Seq::empty(),
    })
}

/// The lines of the source totals.
pub open spec fn source_lines(s: SourceSummary, ui: Ui) -> Seq<Seq<char>> {
    seq![
        divider_line(ui),
        info_line(ui, "📁"@, "Source files:"@, grouped(s.files as nat)),
        info_line(ui, "📏"@, "Source lines:"@, grouped(s.lines as nat)),
        divider_line(ui),
    ]
}

/// The lines of the Git details.
pub open spec fn git_lines(git: Option<GitProjectSummary>, ui: Ui) -> Seq<Seq<char>> {
    match git {
        Some(g) => seq![
            info_line(ui, "🌿"@, "Git branch:"@, g.branch@),
            info_line(ui, "✏️"@, "Working tree:"@, change_status_text(g.changed_files as nat)),
        ] + (match g.commits {
            Some(c) => seq![info_line(ui, "📜"@, "Commits:"@, grouped(c as nat))],
            None => Seq::empty(),
        }) + (match g.latest_tag {
            Some(t) => seq![info_line(ui, "🏷"@, "Latest tag:"@, t@)],
            None => Seq::empty(),
        }),
        None => seq![info_line(ui, "🌿"@, "Git:"@, "not a repository"@)],
    }
}

/// The lines of the housekeeping files and the closing hint.
pub open spec fn tail_lines(r: ProjectReport, ui: Ui) -> Seq<Seq<char>> {
    seq![
        divider_line(ui),
        check_line(ui, "README"@, r.files.readme),
        check_line(ui, "LICENSE"@, r.files.license),
        check_line(ui, "CHANGELOG"@, r.files.changelog),
        check_line(ui, ".gitignore"@, r.files.gitignore),
        check_line(ui, "GitHub Actions CI"@, r.files.ci),
        divider_line(ui),
        info_line(
            ui,
            "⚡"@,
            "yoo:"@,
            "v"@ + r.yoo_version@ + " · try `yoo project --json` for automation"@,
        ),
    ]
}

/// The lines of the report, in order.
pub open spec fn project_lines(r: ProjectReport, ui: Ui) -> Seq<Seq<char>> {
    head_lines(r.project, ui) + source_lines(r.source, ui) + git_lines(r.git, ui) + tail_lines(r, ui)
}

/// The characters of each line.
pub open spec fn line_views(v: Seq<String>) -> Seq<Seq<char>> {
    v.map_values(|s: String| s@)
}

/// Appends the lines of `more` to `out`.
pub fn push_all(out: &mut Vec<String>, more: Vec<String>)
    ensures
        line_views(final(out)@) == line_views(old(out)@) + line_views(more@),
{
    let mut more = more;
    let ghost m = more@;
    out.append(&mut more);
    assert(line_views(out@) =~= line_views(old(out)@) + line_views(m));
}

fn print_head(p: &ProjectDetails, ui: &Ui) -> (r: Vec<String>)
    ensures
        line_views(r@) == head_lines(*p, *ui),
{
    let mut out: Vec<String> = Vec::new();
    out.push(ui.heading("yoo project — project overview"));
    out.push(ui.blank_line());
    out.push(ui.divider());
    out.push(ui.info("📦", "Name:", p.name.as_str()));
    out.push(ui.info("🔧", "Language:", p.language.as_str()));
    if let Some(m) = &p.package_manager {
        out.push(ui.info("📦", "Package manager:", m.as_str()));
    }
    if let Some(m) = &p.manifest {
        out.push(ui.info("📄", "Manifest:", m.as_str()));
    }
    if let Some(v) = &p.version {
        out.push(ui.info("🏷", "Version:", v.as_str()));
    }
    if let Some(v) = &p.edition {
        out.push(ui.info("🦀", "Edition:", v.as_str()));
    }
    if let Some(v) = &p.license {
        out.push(ui.info("⚖", "License:", v.as_str()));
    }
    assert(line_views(out@) =~= head_lines(*p, *ui));
    out
}

fn print_source(s: &SourceSummary, ui: &Ui) -> (r: Vec<String>)
    ensures
        line_views(r@) == source_lines(*s, *ui),
{
    let mut out: Vec<String> = Vec::new();
    out.push(ui.divider());
    let files = format_number(s.files);
    out.push(ui.info("📁", "Source files:", files.as_str()));
    let count = format_number(s.lines);
    out.push(ui.info("📏", "Source lines:", count.as_str()));
    out.push(ui.divider());
    assert(line_views(out@) =~= source_lines(*s, *ui));
    out
}

fn print_git(git: &Option<GitProjectSummary>, ui: &Ui) -> (r: Vec<String>)
    ensures
        line_views(r@) == git_lines(*git, *ui),
{
    let mut out: Vec<String> = Vec::new();
    match git {
        Some(g) => {
            out.push(ui.info("🌿", "Git branch:", g.branch.as_str()));
            let status = change_status(g.changed_files);
            out.push(ui.info("✏️", "Working tree:", status.as_str()));
            if let Some(c) = g.commits {
                let commits = format_number(c);
                out.push(ui.info("📜", "Commits:", commits.as_str()));
            }
            if let Some(t) = &g.latest_tag {
                out.push(ui.info("🏷", "Latest tag:", t.as_str()));
            }
        },
        None => {
            out.push(ui.info("🌿", "Git:", "not a repository"));
        },
    }
    assert(line_views(out@) =~= git_lines(*git, *ui));
    out
}

fn print_tail(report: &ProjectReport, ui: &Ui) -> (r: Vec<String>)
    ensures
        line_views(r@) == tail_lines(*report, *ui),
{
    let mut out: Vec<String> = Vec::new();
    out.push(ui.divider());
    out.push(print_check(ui, "README", report.files.readme));
    out.push(print_check(ui, "LICENSE", report.files.license));
    out.push(print_check(ui, "CHANGELOG", report.files.changelog));
    out.push(print_check(ui, ".gitignore", report.files.gitignore));
    out.push(print_check(ui, "GitHub Actions CI", report.files.ci));
    out.push(ui.divider());
    let mut tail = String::from_str("v");
    tail.append(report.yoo_version.as_str());
    tail.append(" · try `yoo project --json` for automation");
    out.push(ui.info("⚡", "yoo:", tail.as_str()));
    assert(line_views(out@) =~= tail_lines(*report, *ui));
    out
}

/// The lines that show the report, in order.
pub fn print(report: &ProjectReport, ui: &Ui) -> (r: Vec<String>)
    ensures
        line_views(r@) == project_lines(*report, *ui),
{
    let mut out = print_head(&report.project, ui);
    push_all(&mut out, print_source(&report.source, ui));
    push_all(&mut out, print_git(&report.git, ui));
    push_all(&mut out, print_tail(report, ui));
    out
}

} // verus!
