use yoo::fetch::ProjectInfo;
use yoo::project::{
    collect, find_license_file, format_number, is_source_file, package_manager, print,
    should_skip_directory, count_lines, GitProjectSummary, SourceSummary,
};
use yoo::ui::{Theme, Ui};

fn names(items: &[&str]) -> Vec<String> {
    items.iter().map(|item| (*item).to_owned()).collect()
}

#[test]
fn formats_numbers_for_display() {
    assert_eq!(format_number(0), "0");
    assert_eq!(format_number(123), "123");
    assert_eq!(format_number(1_234_567), "1,234,567");
}

#[test]
fn chooses_the_package_manager_from_lockfiles() {
    assert_eq!(package_manager("Rust", &names(&["Cargo.toml"])), Some("Cargo".into()));
    assert_eq!(
        package_manager("Node.js", &names(&["package.json", "pnpm-lock.yaml"])),
        Some("pnpm".into())
    );
    assert_eq!(package_manager("Node.js", &names(&["package.json"])), Some("npm".into()));
}

#[test]
fn recognises_source_files_and_skipped_directories() {
    assert!(is_source_file("main.RS"));
    assert!(is_source_file("index.tsx"));
    assert!(!is_source_file("README.md"));
    assert!(!is_source_file("Makefile"));
    assert!(should_skip_directory("node_modules"));
    assert!(should_skip_directory(".git"));
    assert!(!should_skip_directory("src"));
}

#[test]
fn counts_lines_as_lines_does() {
    assert_eq!(count_lines(""), 0);
    assert_eq!(count_lines("fn main() {}\n"), 1);
    assert_eq!(count_lines("a\nb"), 2);
    assert_eq!(count_lines("a\r\nb\r\n\n"), 3);
}

#[test]
fn finds_the_first_license_file() {
    assert_eq!(find_license_file(&names(&["LICENCE.md", "LICENSE"])), Some("LICENSE".into()));
    assert_eq!(find_license_file(&names(&["COPYING"])), None);
}

#[test]
fn report_lines_show_the_project() {
    let detected = ProjectInfo {
        name: "lean-demo".into(),
        kind: "Rust".into(),
        manifest: Some("Cargo.toml".into()),
        version: Some("7.2.0".into()),
        directory: "/work/lean-demo".into(),
    };
    let files = names(&["Cargo.toml", "README.md", ".gitignore"]);
    let report = collect(
        "1.1.2",
        detected,
        Some("[package]\nedition = \"2024\"\nlicense = \"MIT\"\n".into()),
        &files,
        SourceSummary { files: 1, lines: 1_200 },
        Some(GitProjectSummary {
            branch: "main".into(),
            changed_files: 0,
            commits: Some(3),
            latest_tag: None,
        }),
        false,
    );
    assert_eq!(report.project.edition.as_deref(), Some("2024"));
    assert_eq!(report.project.license.as_deref(), Some("MIT"));
    assert_eq!(report.project.package_manager.as_deref(), Some("Cargo"));
    assert!(report.files.readme);
    assert!(report.files.gitignore);
    assert!(!report.files.license);
    let lines = print(&report, &Ui::new(Theme::Mono, false, 0));
    assert_eq!(lines[0], "yoo project — project overview");
    assert!(lines.contains(&"📏 Source lines: 1,200".to_owned()));
    assert!(lines.contains(&"✏️ Working tree: clean".to_owned()));
    assert!(lines.contains(&"○ LICENSE not found".to_owned()));
}

#[test]
fn collects_a_rust_project_overview() {
    let manifest = r#"[package]
name = "demo"
version = "1.2.3"
edition = "2024"
license = "MIT"
"#;
    let probe = yoo::fetch::ProjectProbe {
        directory: "/tmp/yoo-project-test".into(),
        directory_name: Some("yoo-project-test".into()),
        cargo_toml: Some(manifest.into()),
        package_json: None,
        pyproject_toml: false,
        go_mod: None,
        pom_xml: false,
        build_gradle: false,
        build_gradle_kts: false,
        entries: names(&["Cargo.toml", "src", "README.md", "LICENSE"]),
    };
    let detected = yoo::fetch::detect_project(&probe);
    let files = names(&["Cargo.toml", "README.md", "LICENSE"]);
    let lines = count_lines("fn main() {}\n");
    let report = collect(
        "1.1.2",
        detected,
        Some(manifest.into()),
        &files,
        SourceSummary { files: 1, lines },
        None,
        false,
    );

    assert_eq!(report.project.name, "demo");
    assert_eq!(report.project.language, "Rust");
    assert_eq!(report.project.package_manager.as_deref(), Some("Cargo"));
    assert_eq!(report.project.edition.as_deref(), Some("2024"));
    assert_eq!(report.project.license.as_deref(), Some("MIT"));
    assert_eq!(report.source.files, 1);
    assert!(report.files.readme);
    assert!(report.files.license);
}

#[test]
fn chooses_pnpm_when_its_lockfile_exists() {
    assert_eq!(
        package_manager("Node.js", &names(&["pnpm-lock.yaml"])).as_deref(),
        Some("pnpm")
    );
}

#[test]
fn source_totals_grow_by_one_file() {
    let totals = yoo::project::add_source_file(SourceSummary { files: 2, lines: 10 }, 5);
    assert_eq!((totals.files, totals.lines), (3, 15));
}
