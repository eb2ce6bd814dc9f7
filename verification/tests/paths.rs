use freight::bin_source;
use freight::build_dir;
use freight::config::Manifest;
use freight::doc_dir;
use freight::errors::BuildError;
use freight::lib_source;
use freight::manifest_file_name;
use freight::plan_doc;
use freight::resolve_root;
use freight::run_artifact_path;
use freight::rustc::Edition;
use freight::rustdoc::RustDoc;
use freight::test_build_dir;
use freight::text::file_stem;
use freight::text::has_extension;
use freight::text::has_no_extension;
use freight::text::label_of;
use freight::text::path_join;

#[test]
fn conventional_layout_paths() {
    assert_eq!(manifest_file_name(), "Freight.toml");
    assert_eq!(lib_source("/p"), "/p/src/lib.rs");
    assert_eq!(bin_source("/p"), "/p/src/main.rs");
    assert_eq!(build_dir("/p"), "/p/target/debug");
    assert_eq!(test_build_dir("/p"), "/p/target/debug/tests");
    assert_eq!(doc_dir("/p"), "/p/target/doc");
    assert_eq!(path_join("/p", "Freight.toml"), "/p/Freight.toml");
}

#[test]
fn file_stem_strips_directory_and_extension() {
    assert_eq!(file_stem("src/lib.rs"), "lib");
    assert_eq!(file_stem("src/main.rs"), "main");
    assert_eq!(file_stem("tests/my_test.rs"), "my_test");
    assert_eq!(file_stem("plain"), "plain");
    assert_eq!(file_stem("dir/.hidden"), ".hidden");
    assert_eq!(file_stem("a.b.c"), "a.b");
}

#[test]
fn extension_predicates() {
    assert!(has_extension("tests/alpha.rs", "rs"));
    assert!(!has_extension("tests/alpha.txt", "rs"));
    assert!(!has_extension("tests/alpha", "rs"));
    assert!(!has_extension(".gitignore", "gitignore"));
    assert!(has_no_extension("test_demo_lib"));
    assert!(has_no_extension(".hidden"));
    assert!(!has_no_extension("test_demo_lib.d"));
}

#[test]
fn labels_follow_the_last_underscore() {
    assert_eq!(label_of("test_demo_alpha"), "alpha");
    assert_eq!(label_of("plain"), "plain");
    assert_eq!(label_of("trailing_"), "");
}

#[test]
fn root_is_nearest_ancestor_with_a_manifest() {
    assert_eq!(resolve_root(&vec![false, true, true]), Some(1));
    assert_eq!(resolve_root(&vec![true, false]), Some(0));
    assert_eq!(resolve_root(&vec![false, false, false]), None);
    assert_eq!(resolve_root(&Vec::new()), None);
}

#[test]
fn run_artifact_lands_in_build_dir() {
    let manifest = Manifest { crate_name: "demo".to_string(), edition: Edition::E2021 };
    assert_eq!(run_artifact_path(&manifest, "/p"), "/p/target/debug/demo");
}

#[test]
fn doc_invocation_targets_library_source() {
    let manifest = Manifest { crate_name: "demo".to_string(), edition: Edition::E2018 };
    let (doc, source) = plan_doc(&manifest, "/p");
    assert_eq!(source, "/p/src/lib.rs");
    let args = doc.doc_args(&source).unwrap();
    assert_eq!(
        args,
        vec![
            "/p/src/lib.rs",
            "--crate-name",
            "demo",
            "--edition",
            "2018",
            "-L",
            "/p/target/debug",
            "--out-dir",
            "/p/target/doc",
        ]
    );
}

#[test]
fn doc_generation_needs_an_output_path() {
    let doc = RustDoc::new(Edition::E2021, "demo", "target/debug", None::<&str>);
    let err = doc.doc_args("src/lib.rs").unwrap_err();
    assert!(matches!(err, BuildError::MissingOutputPath));
    assert_eq!(err.message(), "The output path should be specified. This is a freight bug.");
}
