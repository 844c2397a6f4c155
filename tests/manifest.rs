use bardock::document::{count_nesting_marks, updated_manifest_text, MAX_DEPTH, MAX_NESTING_MARKS};
use bardock::errors::BardockError;
use bardock::manifest::{
    get_updated_manifest, update_manifest_dependencies, update_manifest_lib, pyo3_dependency_map, CargoToml};
use bardock::value::{item_depth_within, table_depth_within, Item};

const CARGO_NEW_MANIFEST: &str = "[package]
name = \"foo\"
version = \"0.1.0\"
authors = [\"You <you@example.org>\"]
edition = \"2018\"

# See more keys and their definitions at https://doc.rust-lang.org/cargo/reference/manifest.html

[dependencies]
";

fn reparse(text: &str) -> toml::Value {
    toml::from_str::<toml::Value>(text).expect("the output parses")
}

fn text_of(i: &Item) -> Option<&str> {
    match i {
        Item::Text(s) => Some(s.as_str()),
        _ => None,
    }
}

fn entry<'a>(t: &'a [(String, Item)], k: &str) -> Option<&'a Item> {
    t.iter().find(|(key, _)| key == k).map(|(_, v)| v)
}

fn table<'a>(t: &'a [(String, Item)], k: &str) -> &'a [(String, Item)] {
    match entry(t, k) {
        Some(Item::Table(t)) => t,
        other => panic!("{} is not a table: {:?}", k, other.is_some()),
    }
}

#[test]
fn test_update_manifest() {
    let mut manifest = CargoToml::parse(CARGO_NEW_MANIFEST).expect("a cargo manifest parses");
    get_updated_manifest(&mut manifest, "foo").expect("the overlay applies");
    let lib = table(&manifest.sections, "lib");
    assert_eq!(entry(lib, "name").and_then(text_of), Some("foo"));
    assert_eq!(entry(lib, "path").and_then(text_of), Some("src/lib.rs"));
    let deps = table(&manifest.sections, "dependencies");
    assert_eq!(entry(deps, "log").and_then(text_of), Some("0.4.8"));
    assert!(entry(deps, "pyo3").is_some());
}

#[test]
fn test_read_manifest() {
    let manifest = CargoToml::parse(CARGO_NEW_MANIFEST).expect("a cargo manifest parses");
    let package = table(&manifest.sections, "package");
    assert_eq!(entry(package, "name").and_then(text_of), Some("foo"));
    assert_eq!(entry(package, "version").and_then(text_of), Some("0.1.0"));
    let text = manifest.to_text().expect("the manifest is written out");
    assert_eq!(reparse(&text), reparse(CARGO_NEW_MANIFEST));
}

#[test]
fn overlay_sets_lib_keys_and_keeps_others() {
    let input = "[package]\nname = \"x\"\n\n[lib]\nname = \"old\"\ntest = false\ndoctest = true\n";
    let out = updated_manifest_text(input, "newname").expect("the overlay applies");
    let v = reparse(&out);
    let lib = &v["lib"];
    assert_eq!(lib["name"].as_str(), Some("newname"));
    assert_eq!(lib["path"].as_str(), Some("src/lib.rs"));
    assert_eq!(lib["crate-type"], toml::Value::Array(vec![toml::Value::String("cdylib".to_string())]));
    assert_eq!(lib["test"].as_bool(), Some(false));
    assert_eq!(lib["doctest"].as_bool(), Some(true));
    assert_eq!(lib.as_table().unwrap().len(), 5);
    assert_eq!(v["package"]["name"].as_str(), Some("x"));
}

#[test]
fn overlay_adds_pyo3_and_log_and_keeps_dependencies() {
    let input = "[package]\nname = \"x\"\n\n[dependencies]\nserde = \"1.0\"\nrand = { version = \"0.8\", features = [\"small_rng\"] }\n";
    let out = updated_manifest_text(input, "x").expect("the overlay applies");
    let v = reparse(&out);
    let deps = &v["dependencies"];
    assert_eq!(deps["pyo3"]["version"].as_str(), Some("0.11.1"));
    assert_eq!(
        deps["pyo3"]["features"],
        toml::Value::Array(vec![toml::Value::String("extension-module".to_string())])
    );
    assert_eq!(deps["log"].as_str(), Some("0.4.8"));
    assert_eq!(deps["serde"].as_str(), Some("1.0"));
    assert_eq!(deps["rand"]["version"].as_str(), Some("0.8"));
    assert_eq!(deps.as_table().unwrap().len(), 4);
}

#[test]
fn overlay_creates_missing_sections() {
    let out = updated_manifest_text("[package]\nname = \"x\"\n", "x").expect("the overlay applies");
    let v = reparse(&out);
    assert_eq!(v["lib"]["name"].as_str(), Some("x"));
    assert_eq!(v["dependencies"]["log"].as_str(), Some("0.4.8"));
}

#[test]
fn overlay_keeps_other_sections() {
    let input = "[package]\nname = \"x\"\n\n[features]\ndefault = [\"a\"]\na = []\n\n[profile.release]\nlto = true\nopt-level = 3\n\n[custom-section]\nratio = 1.5\n";
    let out = updated_manifest_text(input, "x").expect("the overlay applies");
    let before = reparse(input);
    let after = reparse(&out);
    for key in ["package", "features", "profile", "custom-section"] {
        assert_eq!(before[key], after[key]);
    }
}

#[test]
fn overlay_is_idempotent() {
    let once = updated_manifest_text(CARGO_NEW_MANIFEST, "foo").expect("the overlay applies");
    let twice = updated_manifest_text(&once, "foo").expect("the overlay applies again");
    assert_eq!(once, twice);
}

#[test]
fn overlay_is_idempotent_on_the_model() {
    let mut a = CargoToml::parse(CARGO_NEW_MANIFEST).unwrap();
    get_updated_manifest(&mut a, "foo").unwrap();
    let first = a.to_text().unwrap();
    get_updated_manifest(&mut a, "foo").unwrap();
    assert_eq!(first, a.to_text().unwrap());
}

#[test]
fn round_trip_keeps_sections_and_values() {
    let input = "[package]\nname = \"x\"\nversion = \"1.2.3\"\n\n[badges]\nmaintenance = { status = \"passively-maintained\" }\n\n[[bin]]\nname = \"tool\"\npath = \"src/tool.rs\"\n\n[workspace]\nmembers = [\"a\", \"b\"]\n";
    let text = CargoToml::parse(input).unwrap().to_text().unwrap();
    assert_eq!(reparse(&text), reparse(input));
}

#[test]
fn scenario_new_foo_manifest() {
    let out = updated_manifest_text(CARGO_NEW_MANIFEST, "foo").unwrap();
    let v = reparse(&out);
    assert_eq!(v["lib"]["name"].as_str(), Some("foo"));
    assert_eq!(v["lib"]["crate-type"][0].as_str(), Some("cdylib"));
    assert!(out.contains("[lib]"));
}

#[test]
fn scenario_new_foo_named_bar_manifest() {
    let out = updated_manifest_text(CARGO_NEW_MANIFEST, "bar").unwrap();
    let v = reparse(&out);
    assert_eq!(v["lib"]["name"].as_str(), Some("bar"));
    assert!(out.contains("name = \"bar\""));
    assert_eq!(v["package"]["name"].as_str(), Some("foo"));
}

#[test]
fn lib_that_is_not_a_table_is_refused() {
    let r = updated_manifest_text("lib = \"x\"\n", "x");
    assert!(matches!(r, Err(BardockError::ManifestShape)));
}

#[test]
fn dependencies_that_are_not_a_table_are_refused() {
    let mut m = CargoToml::parse("dependencies = [1, 2]\n[lib]\nname = \"a\"\n").unwrap();
    let before = m.to_text().unwrap();
    let r = get_updated_manifest(&mut m, "x");
    assert!(matches!(r, Err(BardockError::ManifestShape)));
    assert_eq!(m.to_text().unwrap(), before);
}

#[test]
fn invalid_text_is_a_parse_error() {
    assert!(matches!(updated_manifest_text("[package\nname = ", "x"), Err(BardockError::ManifestParse(_))));
    assert!(matches!(CargoToml::parse("a = \n"), Err(BardockError::ManifestParse(_))));
}

#[test]
fn update_lib_overwrites_in_place() {
    let mut lib = vec![
        ("crate-type".to_string(), Item::Text("rlib".to_string())),
        ("bench".to_string(), Item::Boolean(false)),
    ];
    update_manifest_lib(&mut lib, "n");
    let keys: Vec<&str> = lib.iter().map(|(k, _)| k.as_str()).collect();
    assert_eq!(keys, vec!["crate-type", "bench", "name", "path"]);
    assert!(matches!(&lib[0].1, Item::List(v) if v.len() == 1 && text_of(&v[0]) == Some("cdylib")));
    assert!(matches!(lib[1].1, Item::Boolean(false)));
}

#[test]
fn update_dependencies_adds_pyo3_then_log() {
    let mut deps = vec![("serde".to_string(), Item::Text("1".to_string()))];
    update_manifest_dependencies(&mut deps, pyo3_dependency_map());
    let keys: Vec<&str> = deps.iter().map(|(k, _)| k.as_str()).collect();
    assert_eq!(keys, vec!["serde", "pyo3", "log"]);
    let pyo3 = match &deps[1].1 {
        Item::Table(t) => t,
        _ => panic!("pyo3 is a table"),
    };
    assert_eq!(entry(pyo3, "version").and_then(text_of), Some("0.11.1"));
}

#[test]
fn package_fields_are_read() {
    let m = CargoToml::parse(CARGO_NEW_MANIFEST).unwrap();
    let p = m.package();
    assert_eq!(p.name.as_deref(), Some("foo"));
    assert_eq!(p.version.as_deref(), Some("0.1.0"));
    assert_eq!(p.authors, Some(vec!["You <you@example.org>".to_string()]));
    let bare = CargoToml::parse("[package]\nname = \"x\"\nauthors = [\"a\", 1]\n").unwrap().package();
    assert_eq!(bare.name.as_deref(), Some("x"));
    assert!(bare.version.is_none());
    assert!(bare.authors.is_none());
    let none = CargoToml::parse("[lib]\n").unwrap().package();
    assert!(none.name.is_none());
}

#[test]
fn nesting_marks_are_counted() {
    assert_eq!(count_nesting_marks("[a.b]\nx = { y = [1.5] }\n"), 5);
    assert_eq!(count_nesting_marks("name = \"é\"\n"), 0);
}

#[test]
fn deeply_nested_text_is_refused_unread() {
    let deep = format!("a = {}1{}\n", "[".repeat(MAX_NESTING_MARKS + 1), "]".repeat(MAX_NESTING_MARKS + 1));
    assert!(matches!(CargoToml::parse(&deep), Err(BardockError::ManifestParse(_))));
    assert!(matches!(updated_manifest_text(&deep, "x"), Err(BardockError::ManifestParse(_))));
    let shallow = format!("a = {}1{}\n", "[".repeat(20), "]".repeat(20));
    assert!(CargoToml::parse(&shallow).is_ok());
}

#[test]
fn deeply_nested_model_is_refused_unwritten() {
    let mut item = Item::Integer(1);
    for _ in 0..MAX_DEPTH + 1 {
        item = Item::List(vec![item]);
    }
    assert!(!item_depth_within(&item, MAX_DEPTH));
    assert!(item_depth_within(&item, MAX_DEPTH + 1));
    let m = CargoToml { sections: vec![("a".to_string(), item)] };
    assert!(matches!(m.to_text(), Err(BardockError::ManifestSerialize(_))));
    let ok = CargoToml { sections: vec![("a".to_string(), Item::List(vec![Item::Integer(1)]))] };
    assert_eq!(ok.to_text().unwrap().trim(), "a = [1]");
    assert!(table_depth_within(&ok.sections, 1));
    assert!(!table_depth_within(&ok.sections, 0));
}

#[test]
fn plain_top_level_keys_are_written_before_tables() {
    let input = "[badges]\nmaintenance = { status = \"none\" }\n\n[package]\nname = \"x\"\n";
    let mut m = CargoToml::parse(input).unwrap();
    m.sections.push(("cargo-features".to_string(), Item::List(vec![Item::Text("edition2024".to_string())])));
    let text = m.to_text().expect("plain values after tables are written first");
    let v = reparse(&text);
    assert_eq!(v["cargo-features"][0].as_str(), Some("edition2024"));
    assert_eq!(v["package"]["name"].as_str(), Some("x"));
    let updated = updated_manifest_text(&text, "x").unwrap();
    assert_eq!(reparse(&updated)["cargo-features"][0].as_str(), Some("edition2024"));
}
