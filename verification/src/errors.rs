//! The error taxonomy of the orchestrator.
//!
//! Configuration errors (a bad manifest), project-shape errors (nothing to
//! compile), and a misuse of the documentation invocation each get a variant.
//! Every variant renders to the exact human-readable message through
//! [`BuildError::message`].

use vstd::prelude::*;
use vstd::string::StringExecFns;

verus! {

/// The mathematical model of a [`BuildError`]: the same variants, with each
/// carried string abstracted to its sequence of characters.
pub enum BuildErrorView {
    /// A manifest `edition` value outside the supported set.
    UnsupportedEdition { input: Seq<char> },
    /// A crate-type string outside the supported set.
    UnsupportedCrateType { input: Seq<char> },
    /// A manifest key other than `name` or `edition`.
    UnsupportedKey { key: Seq<char> },
    /// A manifest line with no `=` between key and value.
    MissingSeparator { line: Seq<char> },
    /// The manifest never assigned `name`.
    MissingName,
    /// The manifest never assigned `edition`.
    MissingEdition,
    /// Neither a library nor a binary entry point is present.
    NothingToCompile,
    /// A documentation invocation was asked to generate output with no
    /// output directory configured.
    MissingOutputPath,
}

/// An error of the build orchestrator.
#[derive(Debug)]
pub enum BuildError {
    /// A manifest `edition` value outside the supported set.
    UnsupportedEdition { input: String },
    /// A crate-type string outside the supported set.
    UnsupportedCrateType { input: String },
    /// A manifest key other than `name` or `edition`.
    UnsupportedKey { key: String },
    /// A manifest line with no `=` between key and value.
    MissingSeparator { line: String },
    /// The manifest never assigned `name`.
    MissingName,
    /// The manifest never assigned `edition`.
    MissingEdition,
    /// Neither a library nor a binary entry point is present.
    NothingToCompile,
    /// A documentation invocation was asked to generate output with no
    /// output directory configured.
    MissingOutputPath,
}

impl View for BuildError {
    type V = BuildErrorView;

    open spec fn view(&self) -> BuildErrorView {
        match self {
            BuildError::UnsupportedEdition { input } => BuildErrorView::UnsupportedEdition {
                input: input@,
            },
            BuildError::UnsupportedCrateType { input } => BuildErrorView::UnsupportedCrateType {
                input: input@,
            },
            BuildError::UnsupportedKey { key } => BuildErrorView::UnsupportedKey { key: key@ },
            BuildError::MissingSeparator { line } => BuildErrorView::MissingSeparator {
                line: line@,
            },
            BuildError::MissingName => BuildErrorView::MissingName,
            BuildError::MissingEdition => BuildErrorView::MissingEdition,
            BuildError::NothingToCompile => BuildErrorView::NothingToCompile,
            BuildError::MissingOutputPath => BuildErrorView::MissingOutputPath,
        }
    }
}

/// The human-readable message of each error variant.
pub open spec fn spec_message(e: BuildErrorView) -> Seq<char> {
    match e {
        BuildErrorView::UnsupportedEdition { input } => "Edition "@ + input
            + " is not supported"@,
        BuildErrorView::UnsupportedCrateType { input } => "Crate Type "@ + input
            + " is not supported"@,
        BuildErrorView::UnsupportedKey { key } => "Field "@ + key + " is unsupported"@,
        BuildErrorView::MissingSeparator { line } => "Line "@ + line
            + " has no key/value separator"@,
        BuildErrorView::MissingName => "name is a required field"@,
        BuildErrorView::MissingEdition => "edition is a required field"@,
        BuildErrorView::NothingToCompile => "There is nothing to compile"@,
        BuildErrorView::MissingOutputPath => "The output path should be specified. This is a freight bug."@,
    }
}

impl BuildError {
    /// Renders the error as its human-readable message.
    pub fn message(&self) -> (r: String)
        ensures
            r@ == spec_message(self@),
    {
        match self {
            BuildError::UnsupportedEdition { input } => "Edition ".to_owned().concat(
                input.as_str(),
            ).concat(" is not supported"),
            BuildError::UnsupportedCrateType { input } => "Crate Type ".to_owned().concat(
                input.as_str(),
            ).concat(" is not supported"),
            BuildError::UnsupportedKey { key } => "Field ".to_owned().concat(key.as_str()).concat(
                " is unsupported",
            ),
            BuildError::MissingSeparator { line } => "Line ".to_owned().concat(
                line.as_str(),
            ).concat(" has no key/value separator"),
            BuildError::MissingName => "name is a required field".to_owned(),
            BuildError::MissingEdition => "edition is a required field".to_owned(),
            BuildError::NothingToCompile => "There is nothing to compile".to_owned(),
            BuildError::MissingOutputPath => "The output path should be specified. This is a freight bug.".to_owned(),
        }
    }
}

} // verus!
