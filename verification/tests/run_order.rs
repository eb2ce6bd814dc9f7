use freight::config::Manifest;
use freight::logger::LogEvent;
use freight::runner::plan_test_run;
use freight::runner::RunStep;
use freight::rustc::Edition;

fn demo_manifest() -> Manifest {
    Manifest { crate_name: "demo".to_string(), edition: Edition::E2021 }
}

#[test]
fn unit_tests_run_before_file_tests_before_doc_tests() {
    // Enumeration order deliberately scrambles the two unit-test harnesses
    // between the file-based artifacts; the plan must reorder them.
    let entries = vec![
        "test_demo_beta".to_string(),
        "test_demo_main".to_string(),
        "test_demo_alpha".to_string(),
        "test_demo_lib".to_string(),
    ];
    let plan = plan_test_run(&demo_manifest(), ".", &entries, true);
    assert_eq!(plan.len(), 5);

    match &plan[0] {
        RunStep::Artifact { artifact, event } => {
            assert_eq!(artifact, "test_demo_lib");
            assert!(matches!(event, LogEvent::UnitTest { file } if file == "src/lib.rs"));
        }
        _ => panic!("library unit test must come first"),
    }
    match &plan[1] {
        RunStep::Artifact { artifact, event } => {
            assert_eq!(artifact, "test_demo_main");
            assert!(matches!(event, LogEvent::UnitTest { file } if file == "src/main.rs"));
        }
        _ => panic!("binary unit test must come second"),
    }
    match &plan[2] {
        RunStep::Artifact { artifact, event } => {
            assert_eq!(artifact, "test_demo_beta");
            assert!(matches!(event, LogEvent::FileTest { label } if label == "beta"));
        }
        _ => panic!("file tests must keep enumeration order"),
    }
    match &plan[3] {
        RunStep::Artifact { artifact, event } => {
            assert_eq!(artifact, "test_demo_alpha");
            assert!(matches!(event, LogEvent::FileTest { label } if label == "alpha"));
        }
        _ => panic!("file tests must keep enumeration order"),
    }
    match &plan[4] {
        RunStep::DocTests { doc, source_path, event } => {
            assert_eq!(source_path, "./src/lib.rs");
            assert!(matches!(event, LogEvent::DocTest { crate_name } if crate_name == "demo"));
            let args = doc.test_args(source_path.as_str());
            assert_eq!(
                args,
                vec![
                    "--test",
                    "./src/lib.rs",
                    "--crate-name",
                    "demo",
                    "--edition",
                    "2021",
                    "-L",
                    "./target/debug",
                ]
            );
        }
        _ => panic!("documentation tests must come last"),
    }
}

#[test]
fn entries_with_extensions_are_not_artifacts() {
    let entries = vec![
        "test_demo_lib.d".to_string(),
        "libdemo.rlib".to_string(),
        "test_demo_lib".to_string(),
    ];
    let plan = plan_test_run(&demo_manifest(), ".", &entries, false);
    assert_eq!(plan.len(), 1);
    match &plan[0] {
        RunStep::Artifact { artifact, .. } => assert_eq!(artifact, "test_demo_lib"),
        _ => panic!("only the extensionless entry is runnable"),
    }
}

#[test]
fn no_doc_tests_without_a_library() {
    let entries = vec!["test_demo_main".to_string()];
    let plan = plan_test_run(&demo_manifest(), ".", &entries, false);
    assert_eq!(plan.len(), 1);
    assert!(matches!(&plan[0], RunStep::Artifact { .. }));
}

#[test]
fn doc_tests_run_even_with_no_artifacts() {
    let plan = plan_test_run(&demo_manifest(), ".", &Vec::new(), true);
    assert_eq!(plan.len(), 1);
    assert!(matches!(&plan[0], RunStep::DocTests { .. }));
}

#[test]
fn file_test_label_is_suffix_after_last_underscore() {
    let entries = vec!["test_demo_some_long_name".to_string()];
    let plan = plan_test_run(&demo_manifest(), ".", &entries, false);
    assert_eq!(plan.len(), 1);
    match &plan[0] {
        RunStep::Artifact { event, .. } => {
            assert!(matches!(event, LogEvent::FileTest { label } if label == "name"));
        }
        _ => panic!("expected a file test"),
    }
}
