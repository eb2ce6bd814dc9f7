use freight::errors::BuildError;
use freight::rustc::CrateType;
use freight::rustc::Edition;
use freight::rustc::Rustc;

#[test]
fn edition_from_str() -> Result<(), BuildError> {
    let e2015 = Edition::from_str("2015")?;
    assert_eq!(e2015, Edition::E2015);
    let e2018 = Edition::from_str("2018")?;
    assert_eq!(e2018, Edition::E2018);
    let e2021 = Edition::from_str("2021")?;
    assert_eq!(e2021, Edition::E2021);
    if !Edition::from_str("\"2015\"").is_err() {
        panic!("bad string parsed correctly");
    }

    Ok(())
}

#[test]
fn crate_type_from_str() -> Result<(), BuildError> {
    let bin = CrateType::from_str("bin")?;
    assert_eq!(bin, CrateType::Bin);
    let lib = CrateType::from_str("lib")?;
    assert_eq!(lib, CrateType::Lib);
    let rlib = CrateType::from_str("rlib")?;
    assert_eq!(rlib, CrateType::RLib);
    let dylib = CrateType::from_str("dylib")?;
    assert_eq!(dylib, CrateType::DyLib);
    let cdylib = CrateType::from_str("cdylib")?;
    assert_eq!(cdylib, CrateType::CDyLib);
    let staticlib = CrateType::from_str("staticlib")?;
    assert_eq!(staticlib, CrateType::StaticLib);
    let proc_macro = CrateType::from_str("proc-macro")?;
    assert_eq!(proc_macro, CrateType::ProcMacro);
    if !CrateType::from_str("proc-marco").is_err() {
        panic!("bad string parsed correctly");
    }

    Ok(())
}

#[test]
fn edition_round_trip_all() {
    for e in [Edition::E2015, Edition::E2018, Edition::E2021] {
        let parsed = Edition::from_str(e.as_str()).expect("canonical form must parse");
        assert_eq!(parsed, e);
    }
}

#[test]
fn crate_type_round_trip_all() {
    for t in [
        CrateType::Bin,
        CrateType::Lib,
        CrateType::RLib,
        CrateType::DyLib,
        CrateType::CDyLib,
        CrateType::StaticLib,
        CrateType::ProcMacro,
    ] {
        let parsed = CrateType::from_str(t.as_str()).expect("canonical form must parse");
        assert_eq!(parsed, t);
    }
}

#[test]
fn edition_parse_error_names_input() {
    let err = Edition::from_str("2024").unwrap_err();
    assert_eq!(err.message(), "Edition 2024 is not supported");
}

#[test]
fn crate_type_parse_error_names_input() {
    let err = CrateType::from_str("banana").unwrap_err();
    assert_eq!(err.message(), "Crate Type banana is not supported");
}

#[test]
fn rustc_args_one_to_one() {
    let request = Rustc::builder()
        .edition(Edition::E2021)
        .crate_type(CrateType::Bin)
        .crate_name("freight")
        .out_dir(".")
        .lib_dir(".")
        .done();
    let args = request.args("src/main.rs");
    assert_eq!(
        args,
        vec![
            "src/main.rs",
            "--edition",
            "2021",
            "--crate-type",
            "bin",
            "--crate-name",
            "freight",
            "--out-dir",
            ".",
            "-L",
            ".",
        ]
    );
}

#[test]
fn rustc_args_test_externs_and_cfg() {
    let request = Rustc::builder()
        .edition(Edition::E2018)
        .crate_type(CrateType::Bin)
        .crate_name("test_demo_lib")
        .out_dir("target/debug/tests")
        .lib_dir("target/debug/tests")
        .test(true)
        .externs("demo")
        .externs("other")
        .cfg("feature=\"x\"")
        .done();
    let args = request.args("src/lib.rs");
    assert_eq!(
        args,
        vec![
            "src/lib.rs",
            "--edition",
            "2018",
            "--crate-type",
            "bin",
            "--crate-name",
            "test_demo_lib",
            "--out-dir",
            "target/debug/tests",
            "-L",
            "target/debug/tests",
            "--test",
            "--extern",
            "demo",
            "--extern",
            "other",
            "--cfg",
            "feature=\"x\"",
        ]
    );
}

#[test]
fn rustc_builder_edition_defaults_to_oldest() {
    let request = Rustc::builder()
        .crate_type(CrateType::Lib)
        .crate_name("demo")
        .out_dir("out")
        .lib_dir("out")
        .done();
    let args = request.args("src/lib.rs");
    assert_eq!(args[1], "--edition");
    assert_eq!(args[2], "2015");
    assert_eq!(request.out_dir(), "out");
}
