use yoo::snapshot::{
    format_difference, format_timestamp, free_snapshot_name, is_snapshot_file, order_newest_first, print_compare,
    print_list, print_saved, snapshot_file_name, two_newest, Snapshot, ToolVersions,
};
use yoo::ui::{Theme, Ui};

fn sample(timestamp: u128, files: usize, lines: usize) -> Snapshot {
    Snapshot {
        timestamp,
        working_directory: "/tmp/project".into(),
        project_name: "demo".into(),
        project_type: "Rust".into(),
        project_version: Some("0.1.0".into()),
        git_branch: Some("main".into()),
        git_changed_files: Some(1),
        latest_commit_hash: Some("abc".into()),
        latest_commit_message: Some("Initial".into()),
        source_file_count: files,
        source_line_count: lines,
        tools: ToolVersions {
            rustc: Some("rustc 1".into()),
            cargo: Some("cargo 1".into()),
            git: Some("git 1".into()),
        },
    }
}

fn plain() -> Ui {
    Ui::new(Theme::Neon, false, 0)
}

#[test]
fn formats_unix_epoch_timestamp_for_display() {
    assert_eq!(format_timestamp(0), "1970-01-01 00:00:00 UTC");
}

#[test]
fn formats_later_timestamps_for_display() {
    assert_eq!(format_timestamp(951_782_400_000), "2000-02-29 00:00:00 UTC");
    assert_eq!(format_timestamp(1_700_000_000_999), "2023-11-14 22:13:20 UTC");
}

#[test]
fn comparison_reports_differences() {
    let old = sample(1, 2, 10);
    let mut new = sample(2, 3, 7);
    new.git_branch = Some("feature".into());
    new.tools.git = Some("git 2".into());
    let comparison = Snapshot::compare(&old, &new);
    assert_eq!(comparison.source_files_difference, 1);
    assert_eq!(comparison.source_lines_difference, -3);
    assert_eq!(comparison.branch, Some(("main".into(), "feature".into())));
    assert_eq!(comparison.changed_versions.len(), 1);
    let mut no_git = old;
    no_git.git_changed_files = None;
    assert_eq!(Snapshot::compare(&no_git, &new).changed_files, Some((0, 1)));
}

#[test]
fn snapshots_are_ordered_newest_first() {
    let ordered = order_newest_first(vec![sample(10, 1, 1), sample(30, 1, 1), sample(20, 1, 1)]);
    assert_eq!(
        ordered.iter().map(|snapshot| snapshot.timestamp).collect::<Vec<_>>(),
        vec![30, 20, 10]
    );
}

#[test]
fn equal_timestamps_keep_their_order() {
    let mut first = sample(5, 1, 1);
    first.project_name = "first".into();
    let mut second = sample(5, 1, 1);
    second.project_name = "second".into();
    let ordered = order_newest_first(vec![first, sample(9, 1, 1), second]);
    assert_eq!(ordered[0].timestamp, 9);
    assert_eq!(ordered[1].project_name, "first");
    assert_eq!(ordered[2].project_name, "second");
}

#[test]
fn the_two_newest_are_compared_older_first() {
    let (older, newer) = two_newest(vec![sample(10, 1, 1), sample(30, 1, 1), sample(20, 1, 1)]).unwrap();
    assert_eq!((older.timestamp, newer.timestamp), (20, 30));
    assert!(two_newest(vec![sample(10, 1, 1)]).is_none());
}

#[test]
fn file_names_and_differences() {
    assert_eq!(snapshot_file_name(1_700_000_000_000), "1700000000000.json");
    assert!(is_snapshot_file("1700000000000.json"));
    assert!(!is_snapshot_file("notes.JSON"));
    assert!(!is_snapshot_file(".json"));
    assert_eq!(format_difference(3), "+3");
    assert_eq!(format_difference(0), "0");
    assert_eq!(format_difference(-12), "-12");
    assert_eq!(format_difference(i128::MIN), i128::MIN.to_string());
}

#[test]
fn saved_and_listed_snapshots_are_shown() {
    let mut snapshot = sample(0, 4, 1_234);
    snapshot.git_branch = None;
    let lines = print_saved(&snapshot, &plain());
    assert_eq!(
        lines,
        vec![
            "📸 Snapshot: 1970-01-01 00:00:00 UTC".to_owned(),
            "📁 Project: demo (Rust)".to_owned(),
            "🌿 Git: not a repository".to_owned(),
            "📏 Source: 4 files · 1234 lines".to_owned(),
        ]
    );
    let empty = print_list(&vec![], &plain());
    assert_eq!(
        empty,
        vec!["yoo snapshot — saved snapshots".to_owned(), "○ Snapshots: none saved".to_owned()]
    );
    let listed = print_list(&vec![sample(0, 1, 1), sample(0, 1, 1)], &plain());
    assert_eq!(listed.len(), 2 + 2 * 4);
    assert_eq!(listed[1], "");
}

#[test]
fn comparison_lines_show_each_change() {
    let old = sample(0, 2, 10);
    let mut new = sample(86_400_000, 3, 7);
    new.git_branch = None;
    new.tools.rustc = None;
    let lines = print_compare(&old, &new, &plain());
    assert_eq!(
        lines,
        vec![
            "yoo snapshot — comparison".to_owned(),
            "📸 Snapshots: 1970-01-01 00:00:00 UTC → 1970-01-02 00:00:00 UTC".to_owned(),
            "🌿 Git branch: main → not available".to_owned(),
            "📁 Source files: +1".to_owned(),
            "📏 Source lines: -3".to_owned(),
            "🛠 Rustc version: rustc 1 → not available".to_owned(),
        ]
    );
}

#[test]
fn a_taken_file_name_moves_to_the_next_free_millisecond() {
    assert_eq!(free_snapshot_name(10, &vec![]), "10.json");
    let taken = vec!["10.json".to_owned(), "notes.txt".to_owned(), "11.json".to_owned()];
    assert_eq!(free_snapshot_name(10, &taken), "12.json");
    assert_eq!(free_snapshot_name(9, &taken), "9.json");
}
