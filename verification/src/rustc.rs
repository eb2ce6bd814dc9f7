//! The compiler-invocation model: language editions, crate types, and the
//! builder for one compiler invocation.
//!
//! An [`Edition`] and a [`CrateType`] each round-trip losslessly through
//! their canonical string form; any other string is rejected with an error
//! naming the bad input.

use crate::errors::BuildError;
use crate::errors::BuildErrorView;
use crate::text::str_eq;
use vstd::prelude::*;

verus! {

/// A language edition: an opaque toolchain-compatibility tag.
#[derive(Debug, Clone, Copy, PartialEq, Eq, Structural)]
pub enum Edition {
    E2015,
    E2018,
    E2021,
}

/// The canonical string form of an edition.
pub open spec fn spec_edition_str(e: Edition) -> Seq<char> {
    match e {
        Edition::E2015 => "2015"@,
        Edition::E2018 => "2018"@,
        Edition::E2021 => "2021"@,
    }
}

/// The edition a string denotes, or `None` when it denotes none.
pub open spec fn spec_parse_edition(s: Seq<char>) -> Option<Edition> {
    if s == "2015"@ {
        Some(Edition::E2015)
    } else if s == "2018"@ {
        Some(Edition::E2018)
    } else if s == "2021"@ {
        Some(Edition::E2021)
    } else {
        None
    }
}

impl Edition {
    /// The canonical string form of this edition.
    pub fn as_str(&self) -> (r: &'static str)
        ensures
            r@ == spec_edition_str(*self),
    {
        match self {
            Edition::E2015 => "2015",
            Edition::E2018 => "2018",
            Edition::E2021 => "2021",
        }
    }

    /// Parses the canonical string form of an edition; any other input is
    /// rejected with an error naming it.
    pub fn from_str(input: &str) -> (r: Result<Edition, BuildError>)
        ensures
            match r {
                Ok(e) => spec_parse_edition(input@) == Some(e),
                Err(err) => spec_parse_edition(input@) is None && err@
                    == (BuildErrorView::UnsupportedEdition { input: input@ }),
            },
    {
        if str_eq(input, "2015") {
            Ok(Edition::E2015)
        } else if str_eq(input, "2018") {
            Ok(Edition::E2018)
        } else if str_eq(input, "2021") {
            Ok(Edition::E2021)
        } else {
            Err(BuildError::UnsupportedEdition { input: input.to_owned() })
        }
    }
}

/// What kind of artifact one compiler invocation produces.  Only `Bin` and
/// `Lib` are produced by the planner's own logic; the rest exist so the
/// invocation model is general-purpose.
#[derive(Debug, Clone, Copy, PartialEq, Eq, Structural)]
pub enum CrateType {
    Bin,
    Lib,
    RLib,
    DyLib,
    CDyLib,
    StaticLib,
    ProcMacro,
}

/// The canonical string form of a crate type.
pub open spec fn spec_crate_type_str(t: CrateType) -> Seq<char> {
    match t {
        CrateType::Bin => "bin"@,
        CrateType::Lib => "lib"@,
        CrateType::RLib => "rlib"@,
        CrateType::DyLib => "dylib"@,
        CrateType::CDyLib => "cdylib"@,
        CrateType::StaticLib => "staticlib"@,
        CrateType::ProcMacro => "proc-macro"@,
    }
}

/// The crate type a string denotes, or `None` when it denotes none.
pub open spec fn spec_parse_crate_type(s: Seq<char>) -> Option<CrateType> {
    if s == "bin"@ {
        Some(CrateType::Bin)
    } else if s == "lib"@ {
        Some(CrateType::Lib)
    } else if s == "rlib"@ {
        Some(CrateType::RLib)
    } else if s == "dylib"@ {
        Some(CrateType::DyLib)
    } else if s == "cdylib"@ {
        Some(CrateType::CDyLib)
    } else if s == "staticlib"@ {
        Some(CrateType::StaticLib)
    } else if s == "proc-macro"@ {
        Some(CrateType::ProcMacro)
    } else {
        None
    }
}

impl CrateType {
    /// The canonical string form of this crate type.
    pub fn as_str(&self) -> (r: &'static str)
        ensures
            r@ == spec_crate_type_str(*self),
    {
        match self {
            CrateType::Bin => "bin",
            CrateType::Lib => "lib",
            CrateType::RLib => "rlib",
            CrateType::DyLib => "dylib",
            CrateType::CDyLib => "cdylib",
            CrateType::StaticLib => "staticlib",
            CrateType::ProcMacro => "proc-macro",
        }
    }

    /// Parses the canonical string form of a crate type; any other input is
    /// rejected with an error naming it.
    pub fn from_str(input: &str) -> (r: Result<CrateType, BuildError>)
        ensures
            match r {
                Ok(t) => spec_parse_crate_type(input@) == Some(t),
                Err(err) => spec_parse_crate_type(input@) is None && err@
                    == (BuildErrorView::UnsupportedCrateType { input: input@ }),
            },
    {
        if str_eq(input, "bin") {
            Ok(CrateType::Bin)
        } else if str_eq(input, "lib") {
            Ok(CrateType::Lib)
        } else if str_eq(input, "rlib") {
            Ok(CrateType::RLib)
        } else if str_eq(input, "dylib") {
            Ok(CrateType::DyLib)
        } else if str_eq(input, "cdylib") {
            Ok(CrateType::CDyLib)
        } else if str_eq(input, "staticlib") {
            Ok(CrateType::StaticLib)
        } else if str_eq(input, "proc-macro") {
            Ok(CrateType::ProcMacro)
        } else {
            Err(BuildError::UnsupportedCrateType { input: input.to_owned() })
        }
    }
}

/// The mathematical model of a [`Rustc`] invocation: each carried string
/// abstracted to its sequence of characters.
pub struct RustcView {
    pub edition: Edition,
    pub crate_type: CrateType,
    pub crate_name: Seq<char>,
    pub out_dir: Seq<char>,
    pub lib_dir: Seq<char>,
    pub cfg: Seq<Seq<char>>,
    pub externs: Seq<Seq<char>>,
    pub test: bool,
}

/// One finalized compiler invocation: everything the external compiler needs
/// to compile one source file, except the source path itself, which is
/// supplied when the argument vector is derived.
#[derive(Debug)]
pub struct Rustc {
    edition: Edition,
    crate_type: CrateType,
    crate_name: String,
    out_dir: String,
    lib_dir: String,
    cfg: Vec<String>,
    externs: Vec<String>,
    test: bool,
}

impl View for Rustc {
    type V = RustcView;

    closed spec fn view(&self) -> RustcView {
        RustcView {
            edition: self.edition,
            crate_type: self.crate_type,
            crate_name: self.crate_name@,
            out_dir: self.out_dir@,
            lib_dir: self.lib_dir@,
            cfg: self.cfg.deep_view(),
            externs: self.externs.deep_view(),
            test: self.test,
        }
    }
}

/// The given flag repeated before each of the given values, in order:
/// `flag v1 flag v2 ...`.
pub open spec fn spec_pair_flags(flag: Seq<char>, values: Seq<Seq<char>>) -> Seq<Seq<char>>
    decreases values.len(),
{
    if values.len() == 0 {
        Seq::empty()
    } else {
        spec_pair_flags(flag, values.drop_last()) + seq![flag, values.last()]
    }
}

/// The fixed front of a compiler argument vector: the source path and the
/// one-to-one flags of the request, with the test-harness flag iff the
/// request asks for one.
pub open spec fn spec_rustc_args_head(r: RustcView, path: Seq<char>) -> Seq<Seq<char>> {
    seq![
        path,
        "--edition"@,
        spec_edition_str(r.edition),
        "--crate-type"@,
        spec_crate_type_str(r.crate_type),
        "--crate-name"@,
        r.crate_name,
        "--out-dir"@,
        r.out_dir,
        "-L"@,
        r.lib_dir,
    ] + if r.test {
        seq!["--test"@]
    } else {
        Seq::empty()
    }
}

/// The full compiler argument vector derived from a request and a source
/// path: the fixed front, then an extern flag for each extern link in the
/// order supplied, then a cfg flag for each cfg value in the order supplied.
pub open spec fn spec_rustc_args(r: RustcView, path: Seq<char>) -> Seq<Seq<char>> {
    spec_rustc_args_head(r, path) + spec_pair_flags("--extern"@, r.externs) + spec_pair_flags(
        "--cfg"@,
        r.cfg,
    )
}

/// Appends one argument to an argument vector.
pub(crate) fn push_arg(v: &mut Vec<String>, s: &str)
    ensures
        final(v).deep_view() == old(v).deep_view().push(s@),
{
    v.push(s.to_owned());
    proof {
        assert(v.deep_view() =~= old(v).deep_view().push(s@));
    }
}

impl Rustc {
    /// Creates a builder to assemble a compiler invocation incrementally.
    pub fn builder() -> (r: RustcBuilder)
        ensures
            r@ == (RustcBuilderView {
                edition: None,
                crate_type: None,
                crate_name: None,
                out_dir: None,
                lib_dir: None,
                cfg: Seq::empty(),
                externs: Seq::empty(),
                test: false,
            }),
    {
        let b = RustcBuilder {
            edition: None,
            crate_type: None,
            crate_name: None,
            out_dir: None,
            lib_dir: None,
            cfg: Vec::new(),
            externs: Vec::new(),
            test: false,
        };
        proof {
            assert(b.cfg.deep_view() =~= Seq::<Seq<char>>::empty());
            assert(b.externs.deep_view() =~= Seq::<Seq<char>>::empty());
        }
        b
    }

    /// The directory the produced artifact is written to.
    pub fn out_dir(&self) -> (r: &String)
        ensures
            r@ == self@.out_dir,
    {
        &self.out_dir
    }

    /// Derives the argument vector for compiling the given source file: a
    /// deterministic one-to-one image of the request's fields.
    pub fn args(&self, path: &str) -> (r: Vec<String>)
        ensures
            r.deep_view() == spec_rustc_args(self@, path@),
    {
        let mut a: Vec<String> = Vec::new();
        push_arg(&mut a, path);
        push_arg(&mut a, "--edition");
        push_arg(&mut a, self.edition.as_str());
        push_arg(&mut a, "--crate-type");
        push_arg(&mut a, self.crate_type.as_str());
        push_arg(&mut a, "--crate-name");
        push_arg(&mut a, self.crate_name.as_str());
        push_arg(&mut a, "--out-dir");
        push_arg(&mut a, self.out_dir.as_str());
        push_arg(&mut a, "-L");
        push_arg(&mut a, self.lib_dir.as_str());
        if self.test {
            push_arg(&mut a, "--test");
        }
        proof {
            assert(a.deep_view() =~= spec_rustc_args_head(self@, path@));
        }
        let mut i: usize = 0;
        while i < self.externs.len()
            invariant
                i <= self.externs@.len(),
                self@.externs.len() == self.externs@.len(),
                a.deep_view() =~= spec_rustc_args_head(self@, path@) + spec_pair_flags(
                    "--extern"@,
                    self@.externs.take(i as int),
                ),
            decreases self.externs@.len() - i,
        {
            push_arg(&mut a, "--extern");
            push_arg(&mut a, self.externs[i].as_str());
            proof {
                let taken = self@.externs.take(i + 1 as int);
                assert(taken.drop_last() =~= self@.externs.take(i as int));
                assert(taken.last() == self@.externs[i as int]);
                assert(a.deep_view() =~= spec_rustc_args_head(self@, path@) + spec_pair_flags(
                    "--extern"@,
                    taken,
                ));
            }
            i = i + 1;
        }
        proof {
            assert(self@.externs.take(self.externs@.len() as int) =~= self@.externs);
        }
        let mut j: usize = 0;
        while j < self.cfg.len()
            invariant
                j <= self.cfg@.len(),
                self@.cfg.len() == self.cfg@.len(),
                a.deep_view() =~= spec_rustc_args_head(self@, path@) + spec_pair_flags(
                    "--extern"@,
                    self@.externs,
                ) + spec_pair_flags("--cfg"@, self@.cfg.take(j as int)),
            decreases self.cfg@.len() - j,
        {
            push_arg(&mut a, "--cfg");
            push_arg(&mut a, self.cfg[j].as_str());
            proof {
                let taken = self@.cfg.take(j + 1 as int);
                assert(taken.drop_last() =~= self@.cfg.take(j as int));
                assert(taken.last() == self@.cfg[j as int]);
                assert(a.deep_view() =~= spec_rustc_args_head(self@, path@) + spec_pair_flags(
                    "--extern"@,
                    self@.externs,
                ) + spec_pair_flags("--cfg"@, taken));
            }
            j = j + 1;
        }
        proof {
            assert(self@.cfg.take(self.cfg@.len() as int) =~= self@.cfg);
        }
        a
    }
}

/// The mathematical model of a [`RustcBuilder`].
pub struct RustcBuilderView {
    pub edition: Option<Edition>,
    pub crate_type: Option<CrateType>,
    pub crate_name: Option<Seq<char>>,
    pub out_dir: Option<Seq<char>>,
    pub lib_dir: Option<Seq<char>>,
    pub cfg: Seq<Seq<char>>,
    pub externs: Seq<Seq<char>>,
    pub test: bool,
}

/// An incrementally assembled compiler invocation.  `crate_type`,
/// `crate_name`, `out_dir` and `lib_dir` must be supplied before the builder
/// is finalized; the edition defaults to the oldest one.
#[derive(Debug)]
pub struct RustcBuilder {
    edition: Option<Edition>,
    crate_type: Option<CrateType>,
    crate_name: Option<String>,
    out_dir: Option<String>,
    lib_dir: Option<String>,
    cfg: Vec<String>,
    externs: Vec<String>,
    test: bool,
}

impl View for RustcBuilder {
    type V = RustcBuilderView;

    closed spec fn view(&self) -> RustcBuilderView {
        RustcBuilderView {
            edition: self.edition,
            crate_type: self.crate_type,
            crate_name: match self.crate_name {
                Some(ref s) => Some(s@),
                None => None,
            },
            out_dir: match self.out_dir {
                Some(ref s) => Some(s@),
                None => None,
            },
            lib_dir: match self.lib_dir {
                Some(ref s) => Some(s@),
                None => None,
            },
            cfg: self.cfg.deep_view(),
            externs: self.externs.deep_view(),
            test: self.test,
        }
    }
}

impl RustcBuilder {
    /// Sets the language edition.
    pub fn edition(self, edition: Edition) -> (r: RustcBuilder)
        ensures
            r@ == (RustcBuilderView { edition: Some(edition), ..self@ }),
    {
        let mut b = self;
        b.edition = Some(edition);
        b
    }

    /// Sets the output directory.
    pub fn out_dir(self, out_dir: &str) -> (r: RustcBuilder)
        ensures
            r@ == (RustcBuilderView { out_dir: Some(out_dir@), ..self@ }),
    {
        let mut b = self;
        b.out_dir = Some(out_dir.to_owned());
        b
    }

    /// Sets the library search directory.
    pub fn lib_dir(self, lib_dir: &str) -> (r: RustcBuilder)
        ensures
            r@ == (RustcBuilderView { lib_dir: Some(lib_dir@), ..self@ }),
    {
        let mut b = self;
        b.lib_dir = Some(lib_dir.to_owned());
        b
    }

    /// Sets the produced artifact's crate name.
    pub fn crate_name(self, crate_name: &str) -> (r: RustcBuilder)
        ensures
            r@ == (RustcBuilderView { crate_name: Some(crate_name@), ..self@ }),
    {
        let mut b = self;
        b.crate_name = Some(crate_name.to_owned());
        b
    }

    /// Sets the crate type.
    pub fn crate_type(self, crate_type: CrateType) -> (r: RustcBuilder)
        ensures
            r@ == (RustcBuilderView { crate_type: Some(crate_type), ..self@ }),
    {
        let mut b = self;
        b.crate_type = Some(crate_type);
        b
    }

    /// Appends one cfg value.
    pub fn cfg(self, cfg: &str) -> (r: RustcBuilder)
        ensures
            r@ == (RustcBuilderView { cfg: self@.cfg.push(cfg@), ..self@ }),
    {
        let mut b = self;
        b.cfg.push(cfg.to_owned());
        proof {
            assert(b.cfg.deep_view() =~= self@.cfg.push(cfg@));
        }
        b
    }

    /// Appends one extern link.
    pub fn externs(self, ext: &str) -> (r: RustcBuilder)
        ensures
            r@ == (RustcBuilderView { externs: self@.externs.push(ext@), ..self@ }),
    {
        let mut b = self;
        b.externs.push(ext.to_owned());
        proof {
            assert(b.externs.deep_view() =~= self@.externs.push(ext@));
        }
        b
    }

    /// Sets whether the invocation builds a test harness.
    pub fn test(self, test: bool) -> (r: RustcBuilder)
        ensures
            r@ == (RustcBuilderView { test, ..self@ }),
    {
        let mut b = self;
        b.test = test;
        b
    }

    /// Finalizes the builder into an immutable invocation.  The required
    /// fields must have been supplied; the edition defaults to the oldest
    /// one when unset.
    pub fn done(self) -> (r: Rustc)
        requires
            self@.crate_type is Some,
            self@.crate_name is Some,
            self@.out_dir is Some,
            self@.lib_dir is Some,
        ensures
            r@ == (RustcView {
                edition: if self@.edition is Some {
                    self@.edition->0
                } else {
                    Edition::E2015
                },
                crate_type: self@.crate_type->0,
                crate_name: self@.crate_name->0,
                out_dir: self@.out_dir->0,
                lib_dir: self@.lib_dir->0,
                cfg: self@.cfg,
                externs: self@.externs,
                test: self@.test,
            }),
    {
        let edition = match self.edition {
            Some(e) => e,
            None => Edition::E2015,
        };
        let crate_type = match self.crate_type {
            Some(t) => t,
            None => CrateType::Bin,
        };
        let crate_name = match self.crate_name {
            Some(s) => s,
            None => String::new(),
        };
        let out_dir = match self.out_dir {
            Some(s) => s,
            None => String::new(),
        };
        let lib_dir = match self.lib_dir {
            Some(s) => s,
            None => String::new(),
        };
        Rustc {
            edition,
            crate_type,
            crate_name,
            out_dir,
            lib_dir,
            cfg: self.cfg,
            externs: self.externs,
            test: self.test,
        }
    }
}

/// Parsing the canonical string form of an edition gives that edition back:
/// the string round-trip of [`Edition`] holds.
pub proof fn lemma_edition_round_trip(e: Edition)
    ensures
        spec_parse_edition(spec_edition_str(e)) == Some(e),
{
    reveal_strlit("2015");
    reveal_strlit("2018");
    reveal_strlit("2021");
    match e {
        Edition::E2015 => {
        },
        Edition::E2018 => {
            assert(("2018"@)[3] == '8' && ("2015"@)[3] == '5');
        },
        Edition::E2021 => {
            assert(("2021"@)[2] == '2' && ("2015"@)[2] == '1' && ("2018"@)[2] == '1');
        },
    }
}

/// A string that parses as an edition is that edition's canonical form: the
/// parse of [`Edition`] accepts nothing else.
pub proof fn lemma_edition_parse_exact(s: Seq<char>, e: Edition)
    requires
        spec_parse_edition(s) == Some(e),
    ensures
        s == spec_edition_str(e),
{
}

/// Parsing the canonical string form of a crate type gives that crate type
/// back: the string round-trip of [`CrateType`] holds.
pub proof fn lemma_crate_type_round_trip(t: CrateType)
    ensures
        spec_parse_crate_type(spec_crate_type_str(t)) == Some(t),
{
    reveal_strlit("bin");
    reveal_strlit("lib");
    reveal_strlit("rlib");
    reveal_strlit("dylib");
    reveal_strlit("cdylib");
    reveal_strlit("staticlib");
    reveal_strlit("proc-macro");
    assert(("bin"@).len() == 3 && ("lib"@).len() == 3 && ("rlib"@).len() == 4 && ("dylib"@).len()
        == 5 && ("cdylib"@).len() == 6 && ("staticlib"@).len() == 9 && ("proc-macro"@).len()
        == 10);
    if t == CrateType::Lib {
        assert(("lib"@)[0] == 'l' && ("bin"@)[0] == 'b');
    }
}

/// A string that parses as a crate type is that crate type's canonical form:
/// the parse of [`CrateType`] accepts nothing else.
pub proof fn lemma_crate_type_parse_exact(s: Seq<char>, t: CrateType)
    requires
        spec_parse_crate_type(s) == Some(t),
    ensures
        s == spec_crate_type_str(t),
{
}

} // verus!
