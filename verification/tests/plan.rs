use freight::config::Manifest;
use freight::errors::BuildError;
use freight::harness_name;
use freight::logger::LogEvent;
use freight::plan_build;
use freight::plan_tests;
use freight::rustc::Edition;

fn demo_manifest() -> Manifest {
    Manifest { crate_name: "demo".to_string(), edition: Edition::E2021 }
}

#[test]
fn build_orders_lib_before_bin() {
    let steps = plan_build(&demo_manifest(), ".", true, true).unwrap();
    assert_eq!(steps.len(), 2);

    assert_eq!(steps[0].source_path, "./src/lib.rs");
    assert!(matches!(
        steps[0].event,
        Some(LogEvent::CompilingLib { ref crate_name }) if crate_name == "demo"
    ));
    let lib_args = steps[0].request.args("./src/lib.rs");
    assert_eq!(
        lib_args,
        vec![
            "./src/lib.rs",
            "--edition",
            "2021",
            "--crate-type",
            "lib",
            "--crate-name",
            "demo",
            "--out-dir",
            "./target/debug",
            "-L",
            "./target/debug",
        ]
    );

    assert_eq!(steps[1].source_path, "./src/main.rs");
    assert!(matches!(
        steps[1].event,
        Some(LogEvent::CompilingBin { ref crate_name }) if crate_name == "demo"
    ));
    let bin_args = steps[1].request.args("./src/main.rs");
    assert_eq!(
        bin_args,
        vec![
            "./src/main.rs",
            "--edition",
            "2021",
            "--crate-type",
            "bin",
            "--crate-name",
            "demo",
            "--out-dir",
            "./target/debug",
            "-L",
            "./target/debug",
            "--extern",
            "demo",
        ]
    );
}

#[test]
fn build_lib_only() {
    let steps = plan_build(&demo_manifest(), ".", true, false).unwrap();
    assert_eq!(steps.len(), 1);
    let args = steps[0].request.args("./src/lib.rs");
    assert!(args.contains(&"lib".to_string()));
    assert!(!args.contains(&"--extern".to_string()));
}

#[test]
fn build_bin_only_has_no_externs() {
    let steps = plan_build(&demo_manifest(), ".", false, true).unwrap();
    assert_eq!(steps.len(), 1);
    let args = steps[0].request.args("./src/main.rs");
    assert!(!args.contains(&"--extern".to_string()));
}

#[test]
fn build_with_neither_source_is_nothing_to_compile() {
    let err = plan_build(&demo_manifest(), ".", false, false).unwrap_err();
    assert!(matches!(err, BuildError::NothingToCompile));
    assert_eq!(err.message(), "There is nothing to compile");
}

#[test]
fn test_build_with_neither_source_is_nothing_to_compile() {
    let err = plan_tests(&demo_manifest(), ".", false, false, &Vec::new()).unwrap_err();
    assert!(matches!(err, BuildError::NothingToCompile));
}

#[test]
fn harness_names_are_unique_per_project() {
    assert_eq!(harness_name("demo", "lib"), "test_demo_lib");
    assert_eq!(harness_name("demo", "main"), "test_demo_main");
    assert_ne!(harness_name("demo", "lib"), harness_name("demo", "main"));
}

#[test]
fn test_build_both_sources() {
    let steps = plan_tests(&demo_manifest(), ".", true, true, &Vec::new()).unwrap();
    assert_eq!(steps.len(), 3);

    let harness_lib = steps[0].request.args("./src/lib.rs");
    assert!(harness_lib.contains(&"--test".to_string()));
    assert!(harness_lib.contains(&"test_demo_lib".to_string()));
    assert!(!harness_lib.contains(&"--extern".to_string()));
    assert_eq!(steps[0].request.out_dir(), "./target/debug/tests");

    let plain_lib = steps[1].request.args("./src/lib.rs");
    assert!(!plain_lib.contains(&"--test".to_string()));
    assert!(plain_lib.contains(&"lib".to_string()));
    assert_eq!(steps[1].request.out_dir(), "./target/debug/tests");

    let harness_bin = steps[2].request.args("./src/main.rs");
    assert!(harness_bin.contains(&"--test".to_string()));
    assert!(harness_bin.contains(&"test_demo_main".to_string()));
    assert!(harness_bin.contains(&"--extern".to_string()));
    assert!(harness_bin.contains(&"demo".to_string()));
}

#[test]
fn test_build_compiles_each_auxiliary_file() {
    let files = vec!["alpha.rs".to_string(), "notes.txt".to_string(), "beta.rs".to_string()];
    let steps = plan_tests(&demo_manifest(), ".", true, false, &files).unwrap();
    assert_eq!(steps.len(), 3);

    assert_eq!(steps[1].source_path, "./tests/alpha.rs");
    let alpha = steps[1].request.args("./tests/alpha.rs");
    assert!(alpha.contains(&"test_demo_alpha".to_string()));
    assert!(alpha.contains(&"--test".to_string()));
    assert!(alpha.contains(&"--extern".to_string()));
    assert!(alpha.contains(&"demo".to_string()));

    assert_eq!(steps[2].source_path, "./tests/beta.rs");
    let beta = steps[2].request.args("./tests/beta.rs");
    assert!(beta.contains(&"test_demo_beta".to_string()));
}

#[test]
fn auxiliary_files_extern_nothing_without_a_library() {
    let files = vec!["alpha.rs".to_string()];
    let steps = plan_tests(&demo_manifest(), ".", false, true, &files).unwrap();
    assert_eq!(steps.len(), 2);
    let alpha = steps[1].request.args("./tests/alpha.rs");
    assert!(!alpha.contains(&"--extern".to_string()));
}
