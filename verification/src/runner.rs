//! Test discovery and run planning.
//!
//! After a test build, the entries of the test output directory whose file
//! names carry no extension are the runnable test artifacts.  The run order
//! is fixed: the library unit-test harness first, then the binary unit-test
//! harness, then the remaining artifacts in enumeration order, and finally
//! the documentation-example tests when the project has a library.

use crate::build_dir;
use crate::config::Manifest;
use crate::config::ManifestView;
use crate::harness_name;
use crate::lemma_harness_names_unique;
use crate::lib_source;
use crate::logger::LogEvent;
use crate::logger::LogEventView;
use crate::rustdoc::RustDoc;
use crate::rustdoc::RustDocView;
use crate::spec_build_dir;
use crate::spec_harness_name;
use crate::spec_lib_source;
use crate::text::has_no_extension;
use crate::text::label_of;
use crate::text::spec_extension;
use crate::text::spec_label;
use crate::text::str_eq;
use vstd::prelude::*;

verus! {

/// The mathematical model of a [`RunStep`].
pub enum RunStepView {
    /// Run one compiled test artifact after announcing the given event.
    Artifact { artifact: Seq<char>, event: LogEventView },
    /// Run the documentation examples of the given source file as tests
    /// after announcing the given event.
    DocTests { doc: RustDocView, source_path: Seq<char>, event: LogEventView },
}

/// One step of a test run: which artifact or documentation test to execute
/// next, and the phase event to announce before it.
#[derive(Debug)]
pub enum RunStep {
    /// Run one compiled test artifact after announcing the given event.
    Artifact { artifact: String, event: LogEvent },
    /// Run the documentation examples of the given source file as tests
    /// after announcing the given event.
    DocTests { doc: RustDoc, source_path: String, event: LogEvent },
}

impl View for RunStep {
    type V = RunStepView;

    open spec fn view(&self) -> RunStepView {
        match self {
            RunStep::Artifact { artifact, event } => RunStepView::Artifact {
                artifact: artifact@,
                event: event@,
            },
            RunStep::DocTests { doc, source_path, event } => RunStepView::DocTests {
                doc: doc@,
                source_path: source_path@,
                event: event@,
            },
        }
    }
}

impl DeepView for RunStep {
    type V = RunStepView;

    open spec fn deep_view(&self) -> RunStepView {
        self.view()
    }
}

/// The runnable test artifacts among the directory entries: those whose
/// file name has no extension, in enumeration order.
pub open spec fn spec_runnable(entries: Seq<Seq<char>>) -> Seq<Seq<char>> {
    entries.filter(|e: Seq<char>| spec_extension(e) is None)
}

/// The run steps for the file-based test artifacts: every runnable
/// artifact other than the two unit-test harnesses, in enumeration order,
/// each labeled with the suffix of its name after the last underscore.
pub open spec fn spec_file_test_runs(
    runnable: Seq<Seq<char>>,
    lib_harness: Seq<char>,
    bin_harness: Seq<char>,
) -> Seq<RunStepView>
    decreases runnable.len(),
{
    if runnable.len() == 0 {
        Seq::empty()
    } else {
        let rest = spec_file_test_runs(runnable.drop_last(), lib_harness, bin_harness);
        let f = runnable.last();
        if f == lib_harness || f == bin_harness {
            rest
        } else {
            rest.push(
                RunStepView::Artifact {
                    artifact: f,
                    event: LogEventView::FileTest { label: spec_label(f) },
                },
            )
        }
    }
}

/// The documentation-test step: the doc tool in test mode against the
/// library source, searching the normal build directory for the library
/// artifact.
pub open spec fn spec_doc_test_run(m: ManifestView, root: Seq<char>) -> RunStepView {
    RunStepView::DocTests {
        doc: RustDocView {
            edition: m.edition,
            crate_name: m.crate_name,
            lib_path: spec_build_dir(root),
            out_path: None,
        },
        source_path: spec_lib_source(root),
        event: LogEventView::DocTest { crate_name: m.crate_name },
    }
}

/// The ordered steps of a test run: the library unit-test harness when
/// present, then the binary unit-test harness when present, then the
/// remaining runnable artifacts in enumeration order, then the
/// documentation tests when the project has a library.
pub open spec fn spec_plan_test_run(
    m: ManifestView,
    root: Seq<char>,
    entries: Seq<Seq<char>>,
    lib_present: bool,
) -> Seq<RunStepView> {
    let runnable = spec_runnable(entries);
    let lib_harness = spec_harness_name(m.crate_name, "lib"@);
    let bin_harness = spec_harness_name(m.crate_name, "main"@);
    (if runnable.contains(lib_harness) {
        seq![
            RunStepView::Artifact {
                artifact: lib_harness,
                event: LogEventView::UnitTest { file: "src/lib.rs"@ },
            },
        ]
    } else {
        Seq::empty()
    }) + (if runnable.contains(bin_harness) {
        seq![
            RunStepView::Artifact {
                artifact: bin_harness,
                event: LogEventView::UnitTest { file: "src/main.rs"@ },
            },
        ]
    } else {
        Seq::empty()
    }) + spec_file_test_runs(runnable, lib_harness, bin_harness) + (if lib_present {
        seq![spec_doc_test_run(m, root)]
    } else {
        Seq::empty()
    })
}

/// Whether a vector of strings holds the given string.
fn contains_str(v: &Vec<String>, s: &str) -> (r: bool)
    ensures
        r == v.deep_view().contains(s@),
{
    let mut i: usize = 0;
    while i < v.len()
        invariant
            i <= v@.len(),
            v.deep_view().len() == v@.len(),
            forall|j: int| 0 <= j < i ==> v.deep_view()[j] != s@,
        decreases v@.len() - i,
    {
        if str_eq(v[i].as_str(), s) {
            proof {
                assert(v.deep_view()[i as int] == s@);
            }
            return true;
        }
        i = i + 1;
    }
    proof {
        vstd::assert_by_contradiction!(!v.deep_view().contains(s@), {
            let j = choose|j: int| 0 <= j < v.deep_view().len() && v.deep_view()[j] == s@;
            assert(v.deep_view()[j] != s@);
        });
    }
    false
}

/// Derives the ordered steps of a test run, as [`spec_plan_test_run`]
/// defines them.  `entries` holds the file names found in the test output
/// directory, in enumeration order.
pub fn plan_test_run(manifest: &Manifest, root: &str, entries: &Vec<String>, lib_present: bool) -> (r:
    Vec<RunStep>)
    ensures
        r.deep_view() == spec_plan_test_run(manifest@, root@, entries.deep_view(), lib_present),
{
    let ghost entries_v = entries.deep_view();
    let mut runnable: Vec<String> = Vec::new();
    let mut i: usize = 0;
    proof {
        reveal(Seq::filter);
        assert(entries_v.take(0) =~= Seq::<Seq<char>>::empty());
        assert(runnable.deep_view() =~= Seq::<Seq<char>>::empty());
    }
    while i < entries.len()
        invariant
            i <= entries@.len(),
            entries_v == entries.deep_view(),
            entries_v.len() == entries@.len(),
            runnable.deep_view() == spec_runnable(entries_v.take(i as int)),
        decreases entries@.len() - i,
    {
        proof {
            reveal(Seq::filter);
            assert(entries_v.take(i + 1 as int).drop_last() =~= entries_v.take(i as int));
            assert(entries_v.take(i + 1 as int).last() == entries_v[i as int]);
            assert(entries[i as int]@ == entries_v[i as int]);
        }
        let entry = &entries[i];
        if has_no_extension(entry.as_str()) {
            let ghost prev = runnable.deep_view();
            runnable.push(entry.clone());
            proof {
                assert(runnable.deep_view() =~~= prev.push(entries_v[i as int]));
            }
        }
        i = i + 1;
    }
    proof {
        assert(entries_v.take(entries@.len() as int) =~= entries_v);
    }
    let ghost runnable_v = runnable.deep_view();
    let lib_harness = harness_name(manifest.crate_name.as_str(), "lib");
    let bin_harness = harness_name(manifest.crate_name.as_str(), "main");
    let mut r: Vec<RunStep> = Vec::new();
    if contains_str(&runnable, lib_harness.as_str()) {
        let step = RunStep::Artifact {
            artifact: lib_harness.clone(),
            event: LogEvent::UnitTest { file: "src/lib.rs".to_owned() },
        };
        let ghost prev = r.deep_view();
        r.push(step);
        proof {
            assert(r.deep_view() =~= prev.push(
                RunStepView::Artifact {
                    artifact: lib_harness@,
                    event: LogEventView::UnitTest { file: "src/lib.rs"@ },
                },
            ));
        }
    }
    if contains_str(&runnable, bin_harness.as_str()) {
        let step = RunStep::Artifact {
            artifact: bin_harness.clone(),
            event: LogEvent::UnitTest { file: "src/main.rs".to_owned() },
        };
        let ghost prev = r.deep_view();
        r.push(step);
        proof {
            assert(r.deep_view() =~= prev.push(
                RunStepView::Artifact {
                    artifact: bin_harness@,
                    event: LogEventView::UnitTest { file: "src/main.rs"@ },
                },
            ));
        }
    }
    let ghost head = r.deep_view();
    proof {
        let libh = spec_harness_name(manifest@.crate_name, "lib"@);
        let binh = spec_harness_name(manifest@.crate_name, "main"@);
        assert(head =~= (if runnable_v.contains(libh) {
            seq![
                RunStepView::Artifact {
                    artifact: libh,
                    event: LogEventView::UnitTest { file: "src/lib.rs"@ },
                },
            ]
        } else {
            Seq::empty()
        }) + (if runnable_v.contains(binh) {
            seq![
                RunStepView::Artifact {
                    artifact: binh,
                    event: LogEventView::UnitTest { file: "src/main.rs"@ },
                },
            ]
        } else {
            Seq::empty()
        }));
    }
    let mut k: usize = 0;
    proof {
        assert(runnable_v.take(0) =~= Seq::<Seq<char>>::empty());
        assert(r.deep_view() =~= head + spec_file_test_runs(
            runnable_v.take(0),
            lib_harness@,
            bin_harness@,
        ));
    }
    while k < runnable.len()
        invariant
            k <= runnable@.len(),
            runnable_v == runnable.deep_view(),
            runnable_v.len() == runnable@.len(),
            r.deep_view() == head + spec_file_test_runs(
                runnable_v.take(k as int),
                lib_harness@,
                bin_harness@,
            ),
        decreases runnable@.len() - k,
    {
        proof {
            assert(runnable_v.take(k + 1 as int).drop_last() =~= runnable_v.take(k as int));
            assert(runnable_v.take(k + 1 as int).last() == runnable_v[k as int]);
            assert(runnable[k as int]@ == runnable_v[k as int]);
        }
        let artifact = &runnable[k];
        if str_eq(artifact.as_str(), lib_harness.as_str()) || str_eq(
            artifact.as_str(),
            bin_harness.as_str(),
        ) {
            proof {
                assert(spec_file_test_runs(
                    runnable_v.take(k + 1 as int),
                    lib_harness@,
                    bin_harness@,
                ) == spec_file_test_runs(runnable_v.take(k as int), lib_harness@, bin_harness@));
            }
        } else {
            let label = label_of(artifact.as_str());
            let step = RunStep::Artifact {
                artifact: artifact.clone(),
                event: LogEvent::FileTest { label },
            };
            let ghost prev = r.deep_view();
            r.push(step);
            proof {
                assert(r.deep_view() =~= prev.push(
                    RunStepView::Artifact {
                        artifact: runnable_v[k as int],
                        event: LogEventView::FileTest { label: spec_label(runnable_v[k as int]) },
                    },
                ));
                assert(r.deep_view() =~= head + spec_file_test_runs(
                    runnable_v.take(k + 1 as int),
                    lib_harness@,
                    bin_harness@,
                ));
            }
        }
        k = k + 1;
    }
    proof {
        assert(runnable_v.take(runnable@.len() as int) =~= runnable_v);
    }
    if lib_present {
        let lib_dir = build_dir(root);
        let doc = RustDoc::new(
            manifest.edition,
            manifest.crate_name.as_str(),
            lib_dir.as_str(),
            None::<&str>,
        );
        let step = RunStep::DocTests {
            doc,
            source_path: lib_source(root),
            event: LogEvent::DocTest { crate_name: manifest.crate_name.clone() },
        };
        let ghost prev = r.deep_view();
        r.push(step);
        proof {
            assert(r.deep_view() =~= prev.push(spec_doc_test_run(manifest@, root@)));
        }
    }
    proof {
        assert(r.deep_view() =~= spec_plan_test_run(
            manifest@,
            root@,
            entries.deep_view(),
            lib_present,
        ));
    }
    r
}

/// The place a run step occupies in the fixed order: the library unit-test
/// harness first, the binary unit-test harness second, file-based tests
/// third, documentation tests last.
pub open spec fn spec_run_rank(s: RunStepView, m: ManifestView) -> int {
    match s {
        RunStepView::Artifact { artifact, event: _ } => {
            if artifact == spec_harness_name(m.crate_name, "lib"@) {
                0
            } else if artifact == spec_harness_name(m.crate_name, "main"@) {
                1
            } else {
                2
            }
        },
        RunStepView::DocTests { doc: _, source_path: _, event: _ } => 3,
    }
}

/// Every step of the file-based segment runs an artifact other than the
/// two unit-test harnesses.
proof fn lemma_file_test_runs_rank(
    runnable: Seq<Seq<char>>,
    lib_harness: Seq<char>,
    bin_harness: Seq<char>,
    m: ManifestView,
)
    requires
        lib_harness == spec_harness_name(m.crate_name, "lib"@),
        bin_harness == spec_harness_name(m.crate_name, "main"@),
    ensures
        forall|k: int|
            0 <= k < spec_file_test_runs(runnable, lib_harness, bin_harness).len()
                ==> spec_run_rank(
                #[trigger] spec_file_test_runs(runnable, lib_harness, bin_harness)[k],
                m,
            ) == 2,
    decreases runnable.len(),
{
    if runnable.len() > 0 {
        lemma_file_test_runs_rank(runnable.drop_last(), lib_harness, bin_harness, m);
        let rest = spec_file_test_runs(runnable.drop_last(), lib_harness, bin_harness);
        let cur = spec_file_test_runs(runnable, lib_harness, bin_harness);
        assert forall|k: int| 0 <= k < cur.len() implies spec_run_rank(cur[k], m) == 2 by {
            if k < rest.len() {
                assert(cur[k] == rest[k]);
                assert(spec_run_rank(rest[k], m) == 2);
            }
        }
    }
}

/// A test run never goes backwards through the fixed order: the library
/// unit test precedes the binary unit test, both precede every file-based
/// test, and the documentation tests come last.
pub proof fn lemma_test_run_order(
    m: ManifestView,
    root: Seq<char>,
    entries: Seq<Seq<char>>,
    lib_present: bool,
)
    ensures
        forall|i: int, j: int|
            0 <= i < j < spec_plan_test_run(m, root, entries, lib_present).len()
                ==> spec_run_rank(#[trigger] spec_plan_test_run(m, root, entries, lib_present)[i], m)
                <= spec_run_rank(#[trigger] spec_plan_test_run(m, root, entries, lib_present)[j], m),
{
    let runnable = spec_runnable(entries);
    let lib_harness = spec_harness_name(m.crate_name, "lib"@);
    let bin_harness = spec_harness_name(m.crate_name, "main"@);
    let plan = spec_plan_test_run(m, root, entries, lib_present);
    assert(lib_harness != bin_harness) by {
        reveal_strlit("lib");
        reveal_strlit("main");
        lemma_harness_names_unique(m.crate_name, "lib"@, "main"@);
    }
    lemma_file_test_runs_rank(runnable, lib_harness, bin_harness, m);
    let s1 = if runnable.contains(lib_harness) {
        seq![
            RunStepView::Artifact {
                artifact: lib_harness,
                event: LogEventView::UnitTest { file: "src/lib.rs"@ },
            },
        ]
    } else {
        Seq::<RunStepView>::empty()
    };
    let s2 = if runnable.contains(bin_harness) {
        seq![
            RunStepView::Artifact {
                artifact: bin_harness,
                event: LogEventView::UnitTest { file: "src/main.rs"@ },
            },
        ]
    } else {
        Seq::<RunStepView>::empty()
    };
    let s3 = spec_file_test_runs(runnable, lib_harness, bin_harness);
    let s4 = if lib_present {
        seq![spec_doc_test_run(m, root)]
    } else {
        Seq::<RunStepView>::empty()
    };
    assert(plan == s1 + s2 + s3 + s4);
    assert forall|i: int| 0 <= i < plan.len() implies spec_run_rank(#[trigger] plan[i], m) == (
        if i < s1.len() {
            0int
        } else if i < s1.len() + s2.len() {
            1int
        } else if i < s1.len() + s2.len() + s3.len() {
            2int
        } else {
            3int
        }
    ) by {
        if i < s1.len() {
            assert(plan[i] == s1[i]);
        } else if i < s1.len() + s2.len() {
            assert(plan[i] == s2[i - s1.len()]);
        } else if i < s1.len() + s2.len() + s3.len() {
            assert(plan[i] == s3[i - s1.len() - s2.len()]);
            assert(spec_run_rank(s3[i - s1.len() - s2.len()], m) == 2);
        } else {
            assert(plan[i] == s4[i - s1.len() - s2.len() - s3.len()]);
        }
    }
}

} // verus!

