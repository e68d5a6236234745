use yoo::manifest::{member_text, JsonMember};
use yoo::manifest::go_mod;

#[test]
fn reads_the_module_name_of_go_mod() {
    let go = go_mod("module github.com/example/rocket\n\ngo 1.24\n");
    assert_eq!(go.name.as_deref(), Some("rocket"));
    assert_eq!(go.version, None);
    assert_eq!(go_mod("module \"example.com/quoted/\"\n").name.as_deref(), Some("quoted"));
    assert_eq!(go_mod("go 1.22\n").name, None);
}

#[test]
fn reads_package_json_metadata() {
    let metadata = yoo::manifest::package_json(r#"{"name":"web-demo","version":"1.0.0","license":"MIT"}"#);

    assert_eq!(metadata.name.as_deref(), Some("web-demo"));
    assert_eq!(metadata.version.as_deref(), Some("1.0.0"));
    assert_eq!(metadata.license.as_deref(), Some("MIT"));
}

#[test]
fn package_json_numbers_are_written_out_and_other_values_ignored() {
    let metadata = yoo::manifest::package_json(r#"{"name":["x"],"version":2,"license":null}"#);
    assert_eq!(metadata.name, None);
    assert_eq!(metadata.version.as_deref(), Some("2"));
    assert_eq!(metadata.license, None);
    assert_eq!(metadata.edition, None);
    assert_eq!(yoo::manifest::package_json("not json").name, None);
}

#[test]
fn member_text_takes_strings_and_numbers_only() {
    assert_eq!(member_text(JsonMember::Text("a".into())), Some("a".into()));
    assert_eq!(member_text(JsonMember::Number("1.5".into())), Some("1.5".into()));
    for other in [
        JsonMember::NotJson,
        JsonMember::Missing,
        JsonMember::Null,
        JsonMember::Bool(true),
        JsonMember::Array,
        JsonMember::Object,
    ] {
        assert_eq!(member_text(other), None);
    }
}
