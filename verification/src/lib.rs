//! A minimal build orchestrator for single-crate compiled projects.
//!
//! Given a project manifest (crate name and language edition) and the
//! conventional source layout (an optional library entry point, an optional
//! binary entry point, and a directory of auxiliary test files), the library
//! derives the ordered sequence of compiler invocations for a build or a test
//! build, and the ordered sequence of test executions for a test run.  The
//! surrounding binary performs the filesystem probes and spawns the external
//! processes; everything that decides *what* to do is here, with contracts.

pub mod config;
pub mod errors;
pub mod logger;
pub mod rustc;
pub mod runner;
pub mod rustdoc;
pub mod scaffold;
pub mod text;

use crate::config::Manifest;
use crate::config::ManifestView;
use crate::errors::BuildError;
use crate::errors::BuildErrorView;
use crate::logger::LogEvent;
use crate::logger::LogEventView;
use crate::rustc::CrateType;
use crate::rustc::Rustc;
use crate::rustc::RustcView;
use crate::rustdoc::RustDoc;
use crate::rustdoc::RustDocView;
use crate::text::file_stem;
use crate::text::has_extension;
use crate::text::spec_extension;
use crate::text::spec_file_stem;
use vstd::prelude::*;
use vstd::string::StringExecFns;

verus! {

/// The name of the manifest file every project root carries.
pub fn manifest_file_name() -> (r: &'static str)
    ensures
        r@ == "Freight.toml"@,
{
    "Freight.toml"
}

/// The library entry point of a project: `src/lib.rs` under its root.
pub open spec fn spec_lib_source(root: Seq<char>) -> Seq<char> {
    root + "/src/lib.rs"@
}

/// The binary entry point of a project: `src/main.rs` under its root.
pub open spec fn spec_bin_source(root: Seq<char>) -> Seq<char> {
    root + "/src/main.rs"@
}

/// Where normal build artifacts go: `target/debug` under the root.
pub open spec fn spec_build_dir(root: Seq<char>) -> Seq<char> {
    root + "/target/debug"@
}

/// Where test artifacts go: `target/debug/tests` under the root.
pub open spec fn spec_test_build_dir(root: Seq<char>) -> Seq<char> {
    root + "/target/debug/tests"@
}

/// Where generated documentation goes: `target/doc` under the root.
pub open spec fn spec_doc_dir(root: Seq<char>) -> Seq<char> {
    root + "/target/doc"@
}

/// The library entry point of a project, as [`spec_lib_source`] defines it.
pub fn lib_source(root: &str) -> (r: String)
    ensures
        r@ == spec_lib_source(root@),
{
    root.to_owned().concat("/src/lib.rs")
}

/// The binary entry point of a project, as [`spec_bin_source`] defines it.
pub fn bin_source(root: &str) -> (r: String)
    ensures
        r@ == spec_bin_source(root@),
{
    root.to_owned().concat("/src/main.rs")
}

/// The normal build directory, as [`spec_build_dir`] defines it.
pub fn build_dir(root: &str) -> (r: String)
    ensures
        r@ == spec_build_dir(root@),
{
    root.to_owned().concat("/target/debug")
}

/// The test build directory, as [`spec_test_build_dir`] defines it.
pub fn test_build_dir(root: &str) -> (r: String)
    ensures
        r@ == spec_test_build_dir(root@),
{
    root.to_owned().concat("/target/debug/tests")
}

/// The documentation output directory, as [`spec_doc_dir`] defines it.
pub fn doc_dir(root: &str) -> (r: String)
    ensures
        r@ == spec_doc_dir(root@),
{
    root.to_owned().concat("/target/doc")
}

/// Project root resolution: among the starting directory and its parents,
/// in inner-to-outer order, the root is the first candidate that holds the
/// manifest file.  `holds_manifest[i]` says whether the i-th candidate
/// does; the result is the index of the root, or `None` when no candidate
/// holds the manifest and the project has no root.
pub fn resolve_root(holds_manifest: &Vec<bool>) -> (r: Option<usize>)
    ensures
        match r {
            Some(i) => i < holds_manifest@.len() && holds_manifest@[i as int] && forall|j: int|
                0 <= j < i ==> !holds_manifest@[j],
            None => forall|j: int| 0 <= j < holds_manifest@.len() ==> !holds_manifest@[j],
        },
{
    let mut i: usize = 0;
    while i < holds_manifest.len()
        invariant
            i <= holds_manifest@.len(),
            forall|j: int| 0 <= j < i ==> !holds_manifest@[j],
        decreases holds_manifest@.len() - i,
    {
        if holds_manifest[i] {
            return Some(i);
        }
        i = i + 1;
    }
    None
}

/// The artifact name of a test harness: derived deterministically from the
/// project's crate name and the compiled file's stem, so that the library
/// harness and the binary harness never collide in one output directory.
pub open spec fn spec_harness_name(crate_name: Seq<char>, stem: Seq<char>) -> Seq<char> {
    "test_"@ + crate_name + "_"@ + stem
}

/// The artifact name of a test harness, as [`spec_harness_name`] defines it.
pub fn harness_name(crate_name: &str, stem: &str) -> (r: String)
    ensures
        r@ == spec_harness_name(crate_name@, stem@),
{
    "test_".to_owned().concat(crate_name).concat("_").concat(stem)
}

/// For one crate name, distinct file stems give distinct test-harness
/// artifact names: harness names are unique per project.
pub proof fn lemma_harness_names_unique(crate_name: Seq<char>, stem_a: Seq<char>, stem_b: Seq<char>)
    requires
        stem_a != stem_b,
    ensures
        spec_harness_name(crate_name, stem_a) != spec_harness_name(crate_name, stem_b),
{
    let head = "test_"@ + crate_name + "_"@;
    let a = spec_harness_name(crate_name, stem_a);
    let b = spec_harness_name(crate_name, stem_b);
    assert(a == head + stem_a);
    assert(b == head + stem_b);
    if a == b {
        assert(stem_a =~= stem_b) by {
            assert(a.len() == b.len());
            assert(stem_a.len() == stem_b.len());
            assert forall|i: int| 0 <= i < stem_a.len() implies stem_a[i] == stem_b[i] by {
                assert(a[head.len() + i] == stem_a[i]);
                assert(b[head.len() + i] == stem_b[i]);
            }
        }
    }
}

/// The mathematical model of a [`CompileStep`].
pub struct CompileStepView {
    pub request: RustcView,
    pub source_path: Seq<char>,
    pub event: Option<LogEventView>,
}

/// One step of a compilation plan: the compiler invocation, the source file
/// it compiles, and the phase event to announce before running it, if any.
#[derive(Debug)]
pub struct CompileStep {
    pub request: Rustc,
    pub source_path: String,
    pub event: Option<LogEvent>,
}

impl View for CompileStep {
    type V = CompileStepView;

    open spec fn view(&self) -> CompileStepView {
        CompileStepView {
            request: self.request@,
            source_path: self.source_path@,
            event: match self.event {
                Some(ref e) => Some(e@),
                None => None,
            },
        }
    }
}

impl DeepView for CompileStep {
    type V = CompileStepView;

    open spec fn deep_view(&self) -> CompileStepView {
        self.view()
    }
}

/// The compiler invocation that builds the project's library.
pub open spec fn spec_lib_request(m: ManifestView, out_dir: Seq<char>) -> RustcView {
    RustcView {
        edition: m.edition,
        crate_type: CrateType::Lib,
        crate_name: m.crate_name,
        out_dir,
        lib_dir: out_dir,
        cfg: Seq::empty(),
        externs: Seq::empty(),
        test: false,
    }
}

/// The compiler invocation that builds the project's binary, with the given
/// extern links.
pub open spec fn spec_bin_request(
    m: ManifestView,
    out_dir: Seq<char>,
    externs: Seq<Seq<char>>,
) -> RustcView {
    RustcView {
        edition: m.edition,
        crate_type: CrateType::Bin,
        crate_name: m.crate_name,
        out_dir,
        lib_dir: out_dir,
        cfg: Seq::empty(),
        externs,
        test: false,
    }
}

/// The compiler invocation that builds a test harness from the given source
/// file, named after the project and the file's stem.
pub open spec fn spec_test_request(
    m: ManifestView,
    source_path: Seq<char>,
    out_dir: Seq<char>,
    externs: Seq<Seq<char>>,
) -> RustcView {
    RustcView {
        edition: m.edition,
        crate_type: CrateType::Bin,
        crate_name: spec_harness_name(m.crate_name, spec_file_stem(source_path)),
        out_dir,
        lib_dir: out_dir,
        cfg: Seq::empty(),
        externs,
        test: true,
    }
}

/// The library compile step, announced as compiling the library.
pub open spec fn spec_lib_step(
    m: ManifestView,
    source: Seq<char>,
    out_dir: Seq<char>,
) -> CompileStepView {
    CompileStepView {
        request: spec_lib_request(m, out_dir),
        source_path: source,
        event: Some(LogEventView::CompilingLib { crate_name: m.crate_name }),
    }
}

/// The binary compile step, announced as compiling the binary.
pub open spec fn spec_bin_step(
    m: ManifestView,
    source: Seq<char>,
    out_dir: Seq<char>,
    externs: Seq<Seq<char>>,
) -> CompileStepView {
    CompileStepView {
        request: spec_bin_request(m, out_dir, externs),
        source_path: source,
        event: Some(LogEventView::CompilingBin { crate_name: m.crate_name }),
    }
}

/// A test-harness compile step; test compiles are not announced.
pub open spec fn spec_test_step(
    m: ManifestView,
    source: Seq<char>,
    out_dir: Seq<char>,
    externs: Seq<Seq<char>>,
) -> CompileStepView {
    CompileStepView {
        request: spec_test_request(m, source, out_dir, externs),
        source_path: source,
        event: None,
    }
}

/// Assembles the compile step for the project's library.
pub fn lib_compile(manifest: &Manifest, lib_path: &str, out_dir: &str) -> (r: CompileStep)
    ensures
        r@ == spec_lib_step(manifest@, lib_path@, out_dir@),
{
    let request = Rustc::builder().edition(manifest.edition).crate_type(
        CrateType::Lib,
    ).crate_name(manifest.crate_name.as_str()).out_dir(out_dir).lib_dir(out_dir).done();
    CompileStep {
        request,
        source_path: lib_path.to_owned(),
        event: Some(LogEvent::CompilingLib { crate_name: manifest.crate_name.clone() }),
    }
}

/// Assembles the compile step for the project's binary, with the given
/// extern links in the order supplied.
pub fn bin_compile(manifest: &Manifest, bin_path: &str, out_dir: &str, externs: &Vec<String>) -> (r:
    CompileStep)
    ensures
        r@ == spec_bin_step(manifest@, bin_path@, out_dir@, externs.deep_view()),
{
    let mut builder = Rustc::builder().edition(manifest.edition).crate_type(
        CrateType::Bin,
    ).crate_name(manifest.crate_name.as_str()).out_dir(out_dir).lib_dir(out_dir);
    let mut i: usize = 0;
    proof {
        assert(externs.deep_view().take(0) =~= Seq::<Seq<char>>::empty());
    }
    while i < externs.len()
        invariant
            i <= externs@.len(),
            externs.deep_view().len() == externs@.len(),
            builder@ == (rustc::RustcBuilderView {
                edition: Some(manifest@.edition),
                crate_type: Some(CrateType::Bin),
                crate_name: Some(manifest@.crate_name),
                out_dir: Some(out_dir@),
                lib_dir: Some(out_dir@),
                cfg: Seq::empty(),
                externs: externs.deep_view().take(i as int),
                test: false,
            }),
        decreases externs@.len() - i,
    {
        builder = builder.externs(externs[i].as_str());
        proof {
            assert(externs.deep_view().take(i + 1 as int) =~= externs.deep_view().take(
                i as int,
            ).push(externs.deep_view()[i as int]));
        }
        i = i + 1;
    }
    proof {
        assert(externs.deep_view().take(externs@.len() as int) =~= externs.deep_view());
    }
    let request = builder.done();
    CompileStep {
        request,
        source_path: bin_path.to_owned(),
        event: Some(LogEvent::CompilingBin { crate_name: manifest.crate_name.clone() }),
    }
}

/// Assembles the compile step for a test harness built from the given
/// source file, with the given extern links in the order supplied.
pub fn test_compile(
    manifest: &Manifest,
    source_path: &str,
    out_dir: &str,
    externs: &Vec<String>,
) -> (r: CompileStep)
    ensures
        r@ == spec_test_step(manifest@, source_path@, out_dir@, externs.deep_view()),
{
    let stem = file_stem(source_path);
    let name = harness_name(manifest.crate_name.as_str(), stem.as_str());
    let mut builder = Rustc::builder().edition(manifest.edition).crate_type(
        CrateType::Bin,
    ).crate_name(name.as_str()).out_dir(out_dir).lib_dir(out_dir).test(true);
    let mut i: usize = 0;
    proof {
        assert(externs.deep_view().take(0) =~= Seq::<Seq<char>>::empty());
    }
    while i < externs.len()
        invariant
            i <= externs@.len(),
            externs.deep_view().len() == externs@.len(),
            builder@ == (rustc::RustcBuilderView {
                edition: Some(manifest@.edition),
                crate_type: Some(CrateType::Bin),
                crate_name: Some(
                    spec_harness_name(manifest@.crate_name, spec_file_stem(source_path@)),
                ),
                out_dir: Some(out_dir@),
                lib_dir: Some(out_dir@),
                cfg: Seq::empty(),
                externs: externs.deep_view().take(i as int),
                test: true,
            }),
        decreases externs@.len() - i,
    {
        builder = builder.externs(externs[i].as_str());
        proof {
            assert(externs.deep_view().take(i + 1 as int) =~= externs.deep_view().take(
                i as int,
            ).push(externs.deep_view()[i as int]));
        }
        i = i + 1;
    }
    proof {
        assert(externs.deep_view().take(externs@.len() as int) =~= externs.deep_view());
    }
    let request = builder.done();
    CompileStep { request, source_path: source_path.to_owned(), event: None }
}

/// The ordered compile steps of a normal build, given which of the two
/// conventional source files are present.  With both present, the library
/// is compiled strictly before the binary and the binary's extern links are
/// exactly the project's crate name; with neither, there is nothing to
/// compile.
pub open spec fn spec_plan_build(
    m: ManifestView,
    root: Seq<char>,
    lib_present: bool,
    bin_present: bool,
) -> Result<Seq<CompileStepView>, BuildErrorView> {
    let out = spec_build_dir(root);
    if lib_present && bin_present {
        Ok(
            seq![
                spec_lib_step(m, spec_lib_source(root), out),
                spec_bin_step(m, spec_bin_source(root), out, seq![m.crate_name]),
            ],
        )
    } else if lib_present {
        Ok(seq![spec_lib_step(m, spec_lib_source(root), out)])
    } else if bin_present {
        Ok(seq![spec_bin_step(m, spec_bin_source(root), out, Seq::empty())])
    } else {
        Err(BuildErrorView::NothingToCompile)
    }
}

/// Derives the ordered compile steps of a normal build, as
/// [`spec_plan_build`] defines them.
pub fn plan_build(manifest: &Manifest, root: &str, lib_present: bool, bin_present: bool) -> (r:
    Result<Vec<CompileStep>, BuildError>)
    ensures
        match r {
            Ok(steps) => spec_plan_build(manifest@, root@, lib_present, bin_present) == Ok::<
                _,
                BuildErrorView,
            >(steps.deep_view()),
            Err(e) => spec_plan_build(manifest@, root@, lib_present, bin_present) == Err::<
                Seq<CompileStepView>,
                _,
            >(e@),
        },
{
    let out = build_dir(root);
    let mut steps: Vec<CompileStep> = Vec::new();
    if lib_present && bin_present {
        let libp = lib_source(root);
        let binp = bin_source(root);
        let mut externs: Vec<String> = Vec::new();
        externs.push(manifest.crate_name.clone());
        proof {
            assert(externs.deep_view() =~= seq![manifest@.crate_name]);
        }
        steps.push(lib_compile(manifest, libp.as_str(), out.as_str()));
        steps.push(bin_compile(manifest, binp.as_str(), out.as_str(), &externs));
        proof {
            assert(steps.deep_view() =~= seq![
                spec_lib_step(manifest@, spec_lib_source(root@), spec_build_dir(root@)),
                spec_bin_step(
                    manifest@,
                    spec_bin_source(root@),
                    spec_build_dir(root@),
                    seq![manifest@.crate_name],
                ),
            ]);
        }
        Ok(steps)
    } else if lib_present {
        let libp = lib_source(root);
        steps.push(lib_compile(manifest, libp.as_str(), out.as_str()));
        proof {
            assert(steps.deep_view() =~= seq![
                spec_lib_step(manifest@, spec_lib_source(root@), spec_build_dir(root@)),
            ]);
        }
        Ok(steps)
    } else if bin_present {
        let binp = bin_source(root);
        let externs: Vec<String> = Vec::new();
        proof {
            assert(externs.deep_view() =~= Seq::<Seq<char>>::empty());
        }
        steps.push(bin_compile(manifest, binp.as_str(), out.as_str(), &externs));
        proof {
            assert(steps.deep_view() =~= seq![
                spec_bin_step(
                    manifest@,
                    spec_bin_source(root@),
                    spec_build_dir(root@),
                    Seq::empty(),
                ),
            ]);
        }
        Ok(steps)
    } else {
        Err(BuildError::NothingToCompile)
    }
}

/// The compile steps for the auxiliary test files: each file with the
/// source extension, in the order given, compiled as an independent test
/// harness into the test build directory, externing the project's library
/// crate name when a library exists.
pub open spec fn spec_file_test_compiles(
    m: ManifestView,
    root: Seq<char>,
    files: Seq<Seq<char>>,
    lib_present: bool,
) -> Seq<CompileStepView>
    decreases files.len(),
{
    if files.len() == 0 {
        Seq::empty()
    } else {
        let rest = spec_file_test_compiles(m, root, files.drop_last(), lib_present);
        let f = files.last();
        if spec_extension(f) == Some("rs"@) {
            rest.push(
                spec_test_step(
                    m,
                    root + "/tests/"@ + f,
                    spec_test_build_dir(root),
                    if lib_present {
                        seq![m.crate_name]
                    } else {
                        Seq::empty()
                    },
                ),
            )
        } else {
            rest
        }
    }
}

/// The ordered compile steps of a test build.  The same presence matrix as
/// a normal build decides the base steps: each present unit yields a test
/// harness, and when both are present the plain library is also compiled
/// into the test build directory, between the two harnesses, so the
/// binary's harness can link it.  The auxiliary test files follow.
pub open spec fn spec_plan_tests(
    m: ManifestView,
    root: Seq<char>,
    lib_present: bool,
    bin_present: bool,
    files: Seq<Seq<char>>,
) -> Result<Seq<CompileStepView>, BuildErrorView> {
    let out = spec_test_build_dir(root);
    let libp = spec_lib_source(root);
    let binp = spec_bin_source(root);
    if !lib_present && !bin_present {
        Err(BuildErrorView::NothingToCompile)
    } else {
        let base = if lib_present && bin_present {
            seq![
                spec_test_step(m, libp, out, Seq::empty()),
                spec_lib_step(m, libp, out),
                spec_test_step(m, binp, out, seq![m.crate_name]),
            ]
        } else if lib_present {
            seq![spec_test_step(m, libp, out, Seq::empty())]
        } else {
            seq![spec_test_step(m, binp, out, Seq::empty())]
        };
        Ok(base + spec_file_test_compiles(m, root, files, lib_present))
    }
}

/// Derives the ordered compile steps of a test build, as
/// [`spec_plan_tests`] defines them.  `test_files` holds the names of the
/// entries of the auxiliary test directory, in enumeration order.
pub fn plan_tests(
    manifest: &Manifest,
    root: &str,
    lib_present: bool,
    bin_present: bool,
    test_files: &Vec<String>,
) -> (r: Result<Vec<CompileStep>, BuildError>)
    ensures
        match r {
            Ok(steps) => spec_plan_tests(
                manifest@,
                root@,
                lib_present,
                bin_present,
                test_files.deep_view(),
            ) == Ok::<_, BuildErrorView>(steps.deep_view()),
            Err(e) => spec_plan_tests(
                manifest@,
                root@,
                lib_present,
                bin_present,
                test_files.deep_view(),
            ) == Err::<Seq<CompileStepView>, _>(e@),
        },
{
    if !lib_present && !bin_present {
        return Err(BuildError::NothingToCompile);
    }
    let out = test_build_dir(root);
    let libp = lib_source(root);
    let binp = bin_source(root);
    let no_externs: Vec<String> = Vec::new();
    proof {
        assert(no_externs.deep_view() =~= Seq::<Seq<char>>::empty());
    }
    let mut lib_externs: Vec<String> = Vec::new();
    lib_externs.push(manifest.crate_name.clone());
    proof {
        assert(lib_externs.deep_view() =~= seq![manifest@.crate_name]);
    }
    let mut steps: Vec<CompileStep> = Vec::new();
    if lib_present && bin_present {
        steps.push(test_compile(manifest, libp.as_str(), out.as_str(), &no_externs));
        steps.push(lib_compile(manifest, libp.as_str(), out.as_str()));
        steps.push(test_compile(manifest, binp.as_str(), out.as_str(), &lib_externs));
    } else if lib_present {
        steps.push(test_compile(manifest, libp.as_str(), out.as_str(), &no_externs));
    } else {
        steps.push(test_compile(manifest, binp.as_str(), out.as_str(), &no_externs));
    }
    let ghost base = steps.deep_view();
    proof {
        let m = manifest@;
        let out_v = spec_test_build_dir(root@);
        let libp_v = spec_lib_source(root@);
        let binp_v = spec_bin_source(root@);
        if lib_present && bin_present {
            assert(base =~= seq![
                spec_test_step(m, libp_v, out_v, Seq::empty()),
                spec_lib_step(m, libp_v, out_v),
                spec_test_step(m, binp_v, out_v, seq![m.crate_name]),
            ]);
        } else if lib_present {
            assert(base =~= seq![spec_test_step(m, libp_v, out_v, Seq::empty())]);
        } else {
            assert(base =~= seq![spec_test_step(m, binp_v, out_v, Seq::empty())]);
        }
    }
    let file_externs = if lib_present {
        lib_externs
    } else {
        no_externs
    };
    let ghost files_v = test_files.deep_view();
    let mut i: usize = 0;
    proof {
        assert(files_v.take(0) =~= Seq::<Seq<char>>::empty());
        assert(steps.deep_view() =~= base + spec_file_test_compiles(
            manifest@,
            root@,
            files_v.take(0),
            lib_present,
        ));
    }
    while i < test_files.len()
        invariant
            i <= test_files@.len(),
            files_v == test_files.deep_view(),
            files_v.len() == test_files@.len(),
            out@ == spec_test_build_dir(root@),
            file_externs.deep_view() == if lib_present {
                seq![manifest@.crate_name]
            } else {
                Seq::<Seq<char>>::empty()
            },
            steps.deep_view() == base + spec_file_test_compiles(
                manifest@,
                root@,
                files_v.take(i as int),
                lib_present,
            ),
        decreases test_files@.len() - i,
    {
        proof {
            assert(files_v.take(i + 1 as int).drop_last() =~= files_v.take(i as int));
            assert(files_v.take(i + 1 as int).last() == files_v[i as int]);
            assert(test_files[i as int]@ == files_v[i as int]);
        }
        let file = &test_files[i];
        if has_extension(file.as_str(), "rs") {
            let source = root.to_owned().concat("/tests/").concat(file.as_str());
            let ghost prev = steps.deep_view();
            let step = test_compile(manifest, source.as_str(), out.as_str(), &file_externs);
            steps.push(step);
            proof {
                assert(steps.deep_view() =~= prev.push(step@));
                assert(source@ == root@ + "/tests/"@ + files_v[i as int]);
                assert(step@ == spec_test_step(
                    manifest@,
                    root@ + "/tests/"@ + files_v[i as int],
                    spec_test_build_dir(root@),
                    if lib_present {
                        seq![manifest@.crate_name]
                    } else {
                        Seq::empty()
                    },
                ));
                assert(spec_file_test_compiles(
                    manifest@,
                    root@,
                    files_v.take(i + 1 as int),
                    lib_present,
                ) == spec_file_test_compiles(
                    manifest@,
                    root@,
                    files_v.take(i as int),
                    lib_present,
                ).push(step@));
                assert(steps.deep_view() =~= base + spec_file_test_compiles(
                    manifest@,
                    root@,
                    files_v.take(i + 1 as int),
                    lib_present,
                ));
            }
        } else {
            proof {
                assert(spec_file_test_compiles(
                    manifest@,
                    root@,
                    files_v.take(i + 1 as int),
                    lib_present,
                ) == spec_file_test_compiles(
                    manifest@,
                    root@,
                    files_v.take(i as int),
                    lib_present,
                ));
            }
        }
        i = i + 1;
    }
    proof {
        assert(files_v.take(test_files@.len() as int) =~= files_v);
    }
    Ok(steps)
}

/// The documentation invocation of a project: the doc tool pointed at the
/// library source, searching the normal build directory and writing into
/// the documentation output directory.
pub fn plan_doc(manifest: &Manifest, root: &str) -> (r: (RustDoc, String))
    ensures
        r.0@ == (RustDocView {
            edition: manifest@.edition,
            crate_name: manifest@.crate_name,
            lib_path: spec_build_dir(root@),
            out_path: Some(spec_doc_dir(root@)),
        }),
        r.1@ == spec_lib_source(root@),
{
    let lib_dir = build_dir(root);
    let out = doc_dir(root);
    let doc = RustDoc::new(
        manifest.edition,
        manifest.crate_name.as_str(),
        lib_dir.as_str(),
        Some(out.as_str()),
    );
    (doc, lib_source(root))
}

/// Where the built binary of a project lands: the normal build directory,
/// then the crate name.
pub fn run_artifact_path(manifest: &Manifest, root: &str) -> (r: String)
    ensures
        r@ == spec_build_dir(root@) + "/"@ + manifest@.crate_name,
{
    build_dir(root).concat("/").concat(manifest.crate_name.as_str())
}

/// With both sources present, a build plan compiles the library strictly
/// before the binary, and the binary's extern links are exactly the
/// project's crate name.
pub proof fn lemma_build_orders_lib_before_bin(m: ManifestView, root: Seq<char>)
    ensures
        spec_plan_build(m, root, true, true) is Ok,
        spec_plan_build(m, root, true, true)->Ok_0.len() == 2,
        spec_plan_build(m, root, true, true)->Ok_0[0].request.crate_type == CrateType::Lib,
        spec_plan_build(m, root, true, true)->Ok_0[1].request.crate_type == CrateType::Bin,
        spec_plan_build(m, root, true, true)->Ok_0[1].request.externs == seq![m.crate_name],
{
}

/// With neither source present, requesting a build or a test build yields
/// the nothing-to-compile error, and so no compile step at all.
pub proof fn lemma_build_nothing_to_compile(
    m: ManifestView,
    root: Seq<char>,
    files: Seq<Seq<char>>,
)
    ensures
        spec_plan_build(m, root, false, false) == Err::<Seq<CompileStepView>, BuildErrorView>(
            BuildErrorView::NothingToCompile,
        ),
        spec_plan_tests(m, root, false, false, files) == Err::<
            Seq<CompileStepView>,
            BuildErrorView,
        >(BuildErrorView::NothingToCompile),
{
}

} // verus!

