//! The project manifest: the crate name and the language edition, parsed
//! from newline-separated `key = "value"` pairs.
//!
//! The recognized keys are `name` and `edition`; any other key is a hard
//! parse error naming the offending key, and either required key missing is
//! a hard error.

use crate::errors::BuildError;
use crate::errors::BuildErrorView;
use crate::rustc::spec_parse_edition;
use crate::rustc::Edition;
use crate::text::chars_eq_str;
use crate::text::chars_to_string;
use crate::text::spec_lines;
use crate::text::spec_split;
use crate::text::spec_trim;
use crate::text::spec_unquote;
use crate::text::split_chars;
use crate::text::split_into_lines;
use crate::text::str_to_chars;
use crate::text::trim_chars;
use crate::text::unquote_chars;
use vstd::prelude::*;

verus! {

/// The mathematical model of a [`Manifest`].
pub struct ManifestView {
    pub crate_name: Seq<char>,
    pub edition: Edition,
}

/// A project's manifest: its crate name and language edition.  Immutable
/// once parsed; owned by the orchestrator for the duration of one
/// top-level command.
#[derive(Debug)]
pub struct Manifest {
    pub crate_name: String,
    pub edition: Edition,
}

impl View for Manifest {
    type V = ManifestView;

    open spec fn view(&self) -> ManifestView {
        ManifestView { crate_name: self.crate_name@, edition: self.edition }
    }
}

/// Folds the manifest lines over the accumulated `name` and `edition`
/// assignments.  Each line is split at `=`; the key is the trimmed text
/// before the first `=`, the value is the trimmed text between the first
/// and second `=` with all double quotes removed.  A later assignment of a
/// key overwrites an earlier one; the first offending line stops the parse.
pub open spec fn spec_parse_lines(
    lines: Seq<Seq<char>>,
    name: Option<Seq<char>>,
    edition: Option<Edition>,
) -> Result<(Option<Seq<char>>, Option<Edition>), BuildErrorView>
    decreases lines.len(),
{
    if lines.len() == 0 {
        Ok((name, edition))
    } else {
        let line = lines.first();
        let segs = spec_split(line, '=');
        if segs.len() < 2 {
            Err(BuildErrorView::MissingSeparator { line })
        } else {
            let field = spec_trim(segs[0]);
            let value = spec_unquote(spec_trim(segs[1]));
            if field == "name"@ {
                spec_parse_lines(lines.drop_first(), Some(value), edition)
            } else if field == "edition"@ {
                match spec_parse_edition(value) {
                    Some(e) => spec_parse_lines(lines.drop_first(), name, Some(e)),
                    None => Err(BuildErrorView::UnsupportedEdition { input: value }),
                }
            } else {
                Err(BuildErrorView::UnsupportedKey { key: field })
            }
        }
    }
}

/// The manifest a text denotes: its lines folded over empty assignments,
/// then both required keys demanded, `name` first.
pub open spec fn spec_parse_manifest(s: Seq<char>) -> Result<ManifestView, BuildErrorView> {
    match spec_parse_lines(spec_lines(s), None, None) {
        Err(e) => Err(e),
        Ok((name, edition)) => match name {
            None => Err(BuildErrorView::MissingName),
            Some(n) => match edition {
                None => Err(BuildErrorView::MissingEdition),
                Some(e) => Ok(ManifestView { crate_name: n, edition: e }),
            },
        },
    }
}

impl Manifest {
    /// Parses a manifest text, as [`spec_parse_manifest`] defines it.
    pub fn parse(text: &str) -> (r: Result<Manifest, BuildError>)
        ensures
            match r {
                Ok(m) => spec_parse_manifest(text@) == Ok::<ManifestView, BuildErrorView>(m@),
                Err(e) => spec_parse_manifest(text@) == Err::<ManifestView, BuildErrorView>(e@),
            },
    {
        let chars = str_to_chars(text);
        let lines = split_into_lines(&chars);
        let ghost lines_v = lines.deep_view();
        let mut name: Option<Vec<char>> = None;
        let ghost mut name_v: Option<Seq<char>> = None;
        let mut edition: Option<Edition> = None;
        let mut i: usize = 0;
        proof {
            assert(lines_v.skip(0) =~= lines_v);
        }
        while i < lines.len()
            invariant
                i <= lines@.len(),
                lines_v == lines.deep_view(),
                lines_v == spec_lines(text@),
                name_v == (match name {
                    Some(ref v) => Some(v@),
                    None => None::<Seq<char>>,
                }),
                spec_parse_lines(lines_v, None, None) == spec_parse_lines(
                    lines_v.skip(i as int),
                    name_v,
                    edition,
                ),
            decreases lines@.len() - i,
        {
            proof {
                assert(lines_v.skip(i as int).first() == lines_v[i as int]);
                assert(lines_v.skip(i as int).drop_first() =~= lines_v.skip(i + 1 as int));
                assert(lines[i as int]@ == lines_v[i as int]);
            }
            let line = &lines[i];
            let segs = split_chars(line, '=');
            if segs.len() < 2 {
                return Err(BuildError::MissingSeparator { line: chars_to_string(line) });
            }
            let field = trim_chars(&segs[0]);
            let trimmed = trim_chars(&segs[1]);
            let value = unquote_chars(&trimmed);
            proof {
                assert(segs[0]@ == segs.deep_view()[0]);
                assert(segs[1]@ == segs.deep_view()[1]);
            }
            if chars_eq_str(&field, "name") {
                proof {
                    name_v = Some(value@);
                }
                name = Some(value);
            } else if chars_eq_str(&field, "edition") {
                let value_str = chars_to_string(&value);
                match Edition::from_str(value_str.as_str()) {
                    Ok(e) => {
                        edition = Some(e);
                    },
                    Err(err) => {
                        return Err(err);
                    },
                }
            } else {
                return Err(BuildError::UnsupportedKey { key: chars_to_string(&field) });
            }
            i = i + 1;
        }
        proof {
            assert(lines_v.skip(lines_v.len() as int) =~= Seq::<Seq<char>>::empty());
        }
        match name {
            None => Err(BuildError::MissingName),
            Some(n) => match edition {
                None => Err(BuildError::MissingEdition),
                Some(e) => Ok(Manifest { crate_name: chars_to_string(&n), edition: e }),
            },
        }
    }
}

} // verus!
