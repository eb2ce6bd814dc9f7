//! The documentation-generator invocation model.
//!
//! A [`RustDoc`] value describes one invocation of the external
//! documentation tool: either generating documentation into an output
//! directory, or running the documentation examples as tests (which needs
//! no output directory).

use crate::errors::BuildError;
use crate::errors::BuildErrorView;
use crate::rustc::push_arg;
use crate::rustc::spec_edition_str;
use crate::rustc::Edition;
use vstd::prelude::*;

verus! {

/// The mathematical model of a [`RustDoc`] invocation.
pub struct RustDocView {
    pub edition: Edition,
    pub crate_name: Seq<char>,
    pub lib_path: Seq<char>,
    pub out_path: Option<Seq<char>>,
}

/// One invocation of the external documentation generator.
#[derive(Debug)]
pub struct RustDoc {
    edition: Edition,
    crate_name: String,
    lib_path: String,
    out_path: Option<String>,
}

impl View for RustDoc {
    type V = RustDocView;

    closed spec fn view(&self) -> RustDocView {
        RustDocView {
            edition: self.edition,
            crate_name: self.crate_name@,
            lib_path: self.lib_path@,
            out_path: match self.out_path {
                Some(ref p) => Some(p@),
                None => None,
            },
        }
    }
}

/// The argument vector for generating documentation for the given source
/// file into the given output directory.
pub open spec fn spec_rustdoc_doc_args(d: RustDocView, path: Seq<char>, out: Seq<char>) -> Seq<
    Seq<char>,
> {
    seq![
        path,
        "--crate-name"@,
        d.crate_name,
        "--edition"@,
        spec_edition_str(d.edition),
        "-L"@,
        d.lib_path,
        "--out-dir"@,
        out,
    ]
}

/// The argument vector for running the documentation examples of the given
/// source file as tests.
pub open spec fn spec_rustdoc_test_args(d: RustDocView, path: Seq<char>) -> Seq<Seq<char>> {
    seq![
        "--test"@,
        path,
        "--crate-name"@,
        d.crate_name,
        "--edition"@,
        spec_edition_str(d.edition),
        "-L"@,
        d.lib_path,
    ]
}

impl RustDoc {
    /// Describes a documentation invocation.  The output path is only
    /// needed for generation mode, not for testing documentation examples.
    pub fn new(edition: Edition, crate_name: &str, lib_path: &str, out_path: Option<&str>) -> (r:
        RustDoc)
        ensures
            r@ == (RustDocView {
                edition,
                crate_name: crate_name@,
                lib_path: lib_path@,
                out_path: match out_path {
                    Some(p) => Some(p@),
                    None => None,
                },
            }),
    {
        RustDoc {
            edition,
            crate_name: crate_name.to_owned(),
            lib_path: lib_path.to_owned(),
            out_path: match out_path {
                Some(p) => Some(p.to_owned()),
                None => None,
            },
        }
    }

    /// Derives the argument vector for generating documentation of the
    /// given source file; an invocation configured without an output
    /// directory cannot generate and is rejected.
    pub fn doc_args(&self, path: &str) -> (r: Result<Vec<String>, BuildError>)
        ensures
            match r {
                Ok(a) => self@.out_path is Some && a.deep_view() == spec_rustdoc_doc_args(
                    self@,
                    path@,
                    self@.out_path->0,
                ),
                Err(e) => self@.out_path is None && e@ == BuildErrorView::MissingOutputPath,
            },
    {
        let out = match self.out_path {
            Some(ref p) => p,
            None => {
                return Err(BuildError::MissingOutputPath);
            },
        };
        let mut a: Vec<String> = Vec::new();
        push_arg(&mut a, path);
        push_arg(&mut a, "--crate-name");
        push_arg(&mut a, self.crate_name.as_str());
        push_arg(&mut a, "--edition");
        push_arg(&mut a, self.edition.as_str());
        push_arg(&mut a, "-L");
        push_arg(&mut a, self.lib_path.as_str());
        push_arg(&mut a, "--out-dir");
        push_arg(&mut a, out.as_str());
        proof {
            assert(a.deep_view() =~= spec_rustdoc_doc_args(self@, path@, self@.out_path->0));
        }
        Ok(a)
    }

    /// Derives the argument vector for running the documentation examples
    /// of the given source file as tests.
    pub fn test_args(&self, path: &str) -> (r: Vec<String>)
        ensures
            r.deep_view() == spec_rustdoc_test_args(self@, path@),
    {
        let mut a: Vec<String> = Vec::new();
        push_arg(&mut a, "--test");
        push_arg(&mut a, path);
        push_arg(&mut a, "--crate-name");
        push_arg(&mut a, self.crate_name.as_str());
        push_arg(&mut a, "--edition");
        push_arg(&mut a, self.edition.as_str());
        push_arg(&mut a, "-L");
        push_arg(&mut a, self.lib_path.as_str());
        proof {
            assert(a.deep_view() =~= spec_rustdoc_test_args(self@, path@));
        }
        a
    }
}

} // verus!
