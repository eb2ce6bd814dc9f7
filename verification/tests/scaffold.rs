use freight::config::Manifest;
use freight::rustc::Edition;
use freight::scaffold::scaffold_gitignore;
use freight::scaffold::scaffold_main_stub;
use freight::scaffold::scaffold_manifest;

#[test]
fn ignore_file_is_exactly_target() {
    assert_eq!(scaffold_gitignore(), "/target");
}

#[test]
fn main_stub_matches_fixed_template() {
    assert_eq!(scaffold_main_stub(), "fn main() {\n    println!(\"Hello, World!\");\n}\n");
}

#[test]
fn scaffold_manifest_names_the_project() {
    assert_eq!(scaffold_manifest("demo"), "name = \"demo\"\nedition = \"2021\"\n");
}

#[test]
fn scaffold_manifest_parses_back() {
    let manifest = Manifest::parse(&scaffold_manifest("test_init_dir")).unwrap();
    assert_eq!(manifest.crate_name, "test_init_dir");
    assert_eq!(manifest.edition, Edition::E2021);
}
