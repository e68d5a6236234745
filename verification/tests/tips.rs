use yoo::tips::{
    built_in_packs, is_yaml_file, list_packs, merge_and_sort, names_match, name_at_most,
    pack_from_document, print_packs, random_tip, PackSource, TipPack, TipPackDocument, DEFAULT_PACK,
    SAMPLE_PACK,
};

fn local(name: &str, tips: &[&str]) -> TipPack {
    TipPack {
        name: name.into(),
        description: "Local".into(),
        tips: tips.iter().map(|tip| (*tip).to_owned()).collect(),
        source: PackSource::Local,
    }
}

#[test]
fn built_in_general_pack_exists() {
    let packs = built_in_packs();
    assert!(packs.iter().any(|pack| pack.name == "general"));
}

#[test]
fn packs_are_sorted_and_local_packs_replace_built_ins() {
    let packs = list_packs(vec![local("RUST", &["a"]), local("web", &["b"]), local("alpha", &["c"])]);
    let names: Vec<&str> = packs.iter().map(|pack| pack.name.as_str()).collect();
    assert_eq!(names, vec!["RUST", "alpha", "general", "git", "linux", "web"]);
    let rust = packs.iter().find(|pack| pack.name == "RUST").unwrap();
    assert_eq!(rust.source, PackSource::Local);
    assert_eq!(list_packs(vec![]).len(), 4);
}

#[test]
fn a_later_local_pack_replaces_an_earlier_one() {
    let packs = merge_and_sort(vec![], vec![local("web", &["one"]), local("Web", &["two"])]);
    assert_eq!(packs.len(), 1);
    assert_eq!(packs[0].tips, vec!["two".to_owned()]);
}

#[test]
fn names_compare_as_text() {
    assert!(names_match("Rust", "rUST"));
    assert!(!names_match("rust", "rusty"));
    assert!(name_at_most("Zed", "apple"));
    assert!(name_at_most("git", "git"));
    assert!(!name_at_most("linux", "git"));
    assert!(name_at_most("gi", "git"));
}

#[test]
fn random_tip_finds_the_pack_and_picks_a_tip() {
    let packs = list_packs(vec![local("empty", &[])]);
    let tip = random_tip(" RUST ", &packs, 0, 0).unwrap();
    // 0xD4 = 212, and 212 % 4 = 0.
    assert_eq!(tip, "Run cargo fmt and cargo clippy before you push.");
    assert_eq!(
        random_tip("nope", &packs, 0, 0).unwrap_err().to_string(),
        "tip pack `nope` was not found; run `yoo tips` to see available packs"
    );
    assert_eq!(
        random_tip("EMPTY", &packs, 0, 0).unwrap_err().to_string(),
        "tip pack `empty` has no tips"
    );
}

#[test]
fn yaml_files_are_recognised_in_any_case() {
    assert!(is_yaml_file("community.yaml"));
    assert!(is_yaml_file("Web.YML"));
    assert!(!is_yaml_file("notes.txt"));
    assert!(!is_yaml_file(".yaml"));
    assert!(SAMPLE_PACK.contains("name: community"));
}

#[test]
fn documents_become_local_packs() {
    let pack = pack_from_document(
        TipPackDocument {
            name: None,
            description: None,
            tips: vec!["  Test the happy path ".into(), "   ".into()],
        },
        Some("web.yaml".into()),
        "/tips/web.yaml",
    )
    .unwrap();
    assert_eq!(pack.name, "web");
    assert_eq!(pack.description, "Local community tip pack.");
    assert_eq!(pack.tips, vec!["Test the happy path".to_owned()]);
    assert_eq!(pack.source, PackSource::Local);
    let empty_name = pack_from_document(
        TipPackDocument { name: Some("  ".into()), description: None, tips: vec!["a".into()] },
        None,
        "/tips/x.yaml",
    );
    assert_eq!(empty_name.unwrap_err().to_string(), "tip pack /tips/x.yaml has an empty name");
    let no_tips = pack_from_document(
        TipPackDocument { name: Some("x".into()), description: None, tips: vec![" ".into()] },
        None,
        "/tips/x.yaml",
    );
    assert_eq!(no_tips.unwrap_err().to_string(), "tip pack /tips/x.yaml has no tips");
}

#[test]
fn pack_list_lines() {
    let lines = print_packs(&vec![local("web", &["a"])], "/home/me/.config/yoo/tips");
    assert_eq!(
        lines,
        vec![
            "Available yoo tip packs:".to_owned(),
            String::new(),
            "- web          [local] Local".to_owned(),
            String::new(),
            "Add community packs as YAML files in:".to_owned(),
            "/home/me/.config/yoo/tips".to_owned(),
        ]
    );
}

#[test]
fn the_default_pack_survives_local_packs() {
    let packs = list_packs(vec![local("GENERAL", &["only local"])]);
    assert_eq!(random_tip(DEFAULT_PACK, &packs, 0, 0), Ok("only local".to_owned()));
}
