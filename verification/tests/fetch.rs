use yoo::fetch::{
    command_version, detect_editor, detect_project, detect_shell, detect_terminal, display_os,
    executable_name, find_toml_string, ProjectProbe,
};
use yoo::process::{CommandError, ErrorKind};

fn probe() -> ProjectProbe {
    ProjectProbe {
        directory: "/work/demo".into(),
        directory_name: Some("demo".into()),
        cargo_toml: None,
        package_json: None,
        pyproject_toml: false,
        go_mod: None,
        pom_xml: false,
        build_gradle: false,
        build_gradle_kts: false,
        entries: vec![],
    }
}

const CARGO: &str = r#"
[workspace.package]
name = "wrong-section"

[package]
name = 'lean-demo'
version = "7.2.0" # inline comments are allowed
edition = "2024"
license = "MIT"
"#;

#[test]
fn reads_package_fields_only_from_the_package_section() {
    assert_eq!(find_toml_string(CARGO, "name"), Some("lean-demo".into()));
    assert_eq!(find_toml_string(CARGO, "version"), Some("7.2.0".into()));
    assert_eq!(find_toml_string(CARGO, "edition"), Some("2024".into()));
    assert_eq!(find_toml_string(CARGO, "license"), Some("MIT".into()));
    assert_eq!(find_toml_string(CARGO, "authors"), None);
}

#[test]
fn detects_a_rust_project_from_its_manifest() {
    let mut p = probe();
    p.cargo_toml = Some(CARGO.into());
    p.package_json = Some("{}".into());
    let info = detect_project(&p);
    assert_eq!(info.name, "lean-demo");
    assert_eq!(info.kind, "Rust");
    assert_eq!(info.manifest.as_deref(), Some("Cargo.toml"));
    assert_eq!(info.version.as_deref(), Some("7.2.0"));
    assert_eq!(info.directory, "/work/demo");
}

#[test]
fn python_projects_take_the_directory_name_and_no_version() {
    let mut p = probe();
    p.pyproject_toml = true;
    let info = detect_project(&p);
    assert_eq!(info.name, "demo");
    assert_eq!(info.kind, "Python");
    assert_eq!(info.version, None);
}

#[test]
fn go_java_dotnet_and_generic_directories() {
    let mut go = probe();
    go.go_mod = Some("module github.com/example/rocket\n\ngo 1.24\n".into());
    assert_eq!(detect_project(&go).name, "rocket");
    let mut java = probe();
    java.build_gradle = true;
    java.build_gradle_kts = true;
    assert_eq!(detect_project(&java).manifest.as_deref(), Some("build.gradle.kts"));
    let mut dotnet = probe();
    dotnet.entries = vec!["README.md".into(), "App.csproj".into(), "Other.sln".into()];
    let info = detect_project(&dotnet);
    assert_eq!(info.kind, ".NET");
    assert_eq!(info.manifest.as_deref(), Some("App.csproj"));
    let mut plain = probe();
    plain.directory_name = None;
    let info = detect_project(&plain);
    assert_eq!(info.kind, "Generic directory");
    assert_eq!(info.name, "current directory");
}

#[test]
fn describes_the_environment() {
    assert_eq!(display_os("macos"), "macOS");
    assert_eq!(display_os("freebsd"), "freebsd");
    assert_eq!(executable_name("/usr/bin/zsh", false), Some("zsh".into()));
    assert_eq!(executable_name("C:\\Windows\\System32\\cmd.exe", true), Some("cmd".into()));
    assert_eq!(detect_shell(false, false, &None, &Some("/bin/bash".into())), "bash");
    assert_eq!(detect_shell(true, true, &None, &None), "PowerShell");
    assert_eq!(detect_shell(false, false, &None, &None), "not detected");
    assert_eq!(detect_terminal(false, &Some(" iTerm.app ".into()), false, &None), "iTerm.app");
    assert_eq!(detect_terminal(false, &None, false, &Some("dumb".into())), "not detected");
    assert_eq!(detect_editor(true, &None, &None), "Visual Studio Code");
}

#[test]
fn command_versions_are_trimmed_and_failures_dropped() {
    assert_eq!(command_version(Ok("git version 2.43.0\n".into())), Some("git version 2.43.0".into()));
    let failure = CommandError {
        kind: ErrorKind::Io,
        command: "git".into(),
        message: "not found".into(),
        stdout: String::new(),
        stderr: String::new(),
        exit_code: None,
    };
    assert_eq!(command_version(Err(failure)), None);
}

#[test]
fn collect_never_panics_for_a_temp_directory() {
    let environment = yoo::fetch::EnvironmentInfo {
        os: display_os("linux"),
        architecture: "x86_64".into(),
        shell: "bash".into(),
        terminal: "not detected".into(),
        editor: "not detected".into(),
        rustc: None,
        cargo: None,
        git: None,
    };
    let mut p = probe();
    p.directory_name = Some("tmp".into());
    let report = yoo::fetch::collect("1.1.2", environment, detect_project(&p), Ok(None)).unwrap();
    assert!(!report.environment.os.is_empty());
    assert!(!report.project.name.is_empty());
    assert!(report.git.is_none());
}

#[test]
fn node_projects_are_named_and_versioned_by_package_json() {
    let mut p = probe();
    p.package_json = Some(r#"{"name":"web-demo","version":"1.0.0"}"#.into());
    let info = detect_project(&p);
    assert_eq!(info.name, "web-demo");
    assert_eq!(info.kind, "Node.js");
    assert_eq!(info.version.as_deref(), Some("1.0.0"));
    p.package_json = Some("{}".into());
    let info = detect_project(&p);
    assert_eq!(info.name, "demo");
    assert_eq!(info.version, None);
}

#[test]
fn package_values_decode_escapes_and_read_integers() {
    let manifest = "[ package ] # the crate\nname = \"a\\\"b\\u00e9\\\\\"\nversion = 7 # odd\nedition = \"\"\nlicense = 'C:\\x'\n";
    assert_eq!(find_toml_string(manifest, "name"), Some("a\"bé\\".into()));
    assert_eq!(find_toml_string(manifest, "version"), Some("7".into()));
    assert_eq!(find_toml_string(manifest, "edition"), Some(String::new()));
    assert_eq!(find_toml_string(manifest, "license"), Some("C:\\x".into()));
    assert_eq!(find_toml_string("[package]\nversion = -012\n", "version"), None);
    assert_eq!(find_toml_string("[package]\nversion = -12\n", "version"), Some("-12".into()));
    assert_eq!(find_toml_string("[package]\nname = \"bad\\q\"\nname = \"ok\"\n", "name"), Some("ok".into()));
    assert_eq!(find_toml_string("[package]\nname = \"\\uD800\"\n", "name"), None);
}
