//! The fixed templates written when a new project is initialized: the
//! ignore file, the binary stub, and the initial manifest.
//!
//! The surrounding binary writes these to disk and sets up version
//! control; the contents themselves are fixed here.

use crate::config::spec_parse_lines;
use crate::config::spec_parse_manifest;
use crate::config::ManifestView;
use crate::errors::BuildErrorView;
use crate::rustc::spec_parse_edition;
use crate::rustc::Edition;
use crate::text::lemma_split_append_no_sep;
use crate::text::lemma_split_append_sep;
use crate::text::lemma_split_no_sep;
use crate::text::lemma_unquote_clean;
use crate::text::lemma_unquote_concat;
use crate::text::spec_is_space;
use crate::text::spec_lines;
use crate::text::spec_split;
use crate::text::spec_trim;
use crate::text::spec_trim_end;
use crate::text::spec_trim_start;
use crate::text::spec_unquote;
use vstd::prelude::*;
use vstd::string::StringExecFns;

verus! {

/// The content of the ignore file a new project starts with.
pub fn scaffold_gitignore() -> (r: String)
    ensures
        r@ == "/target"@,
{
    "/target".to_owned()
}

/// The content of the binary stub a new project starts with.
pub fn scaffold_main_stub() -> (r: String)
    ensures
        r@ == "fn main() {\n    println!(\"Hello, World!\");\n}\n"@,
{
    "fn main() {\n    println!(\"Hello, World!\");\n}\n".to_owned()
}

/// The initial manifest of a new project: the given crate name, and the
/// newest supported edition.
pub open spec fn spec_scaffold_manifest(crate_name: Seq<char>) -> Seq<char> {
    "name = \""@ + crate_name + "\"\nedition = \"2021\"\n"@
}

/// The initial manifest of a new project, as [`spec_scaffold_manifest`]
/// defines it.
pub fn scaffold_manifest(crate_name: &str) -> (r: String)
    ensures
        r@ == spec_scaffold_manifest(crate_name@),
{
    "name = \"".to_owned().concat(crate_name).concat("\"\nedition = \"2021\"\n")
}

/// Trimming behind a leading space, and removal of the surrounding quotes,
/// recover a clean value: the value has no quotes or whitespace of its own.
proof fn lemma_space_quoted_value(value: Seq<char>)
    requires
        forall|i: int| 0 <= i < value.len() ==> value[i] != '"' && !spec_is_space(value[i]),
    ensures
        spec_unquote(spec_trim(seq![' ', '"'] + value + seq!['"'])) == value,
{
    let w = seq![' ', '"'] + value + seq!['"'];
    let w2 = seq!['"'] + value + seq!['"'];
    assert(w[0] == ' ');
    assert(w.drop_first() =~= w2);
    assert(spec_trim_start(w) == spec_trim_start(w2));
    assert(w2[0] == '"');
    assert(spec_trim_start(w2) == w2);
    assert(w2.last() == '"');
    assert(spec_trim_end(w2) == w2);
    assert(spec_trim(w) == w2);
    lemma_unquote_concat(seq!['"'] + value, seq!['"']);
    lemma_unquote_concat(seq!['"'], value);
    lemma_unquote_clean(value);
    assert(spec_unquote(seq!['"']) == Seq::<char>::empty()) by {
        reveal(Seq::filter);
        assert(spec_unquote(Seq::<char>::empty()) =~= Seq::<char>::empty());
        assert(seq!['"'].drop_last() =~= Seq::<char>::empty());
        assert(seq!['"'].last() == '"');
        assert(spec_unquote(seq!['"']) =~= Seq::<char>::empty());
    }
    assert(w2 =~= (seq!['"'] + value) + seq!['"']);
    assert(spec_unquote(w2) =~= value);
}

/// Splitting one `key = "value"` line at the equals sign gives the key
/// with its trailing space, and the quoted value behind its leading space.
proof fn lemma_key_value_split(key_sp: Seq<char>, value: Seq<char>)
    requires
        forall|i: int| 0 <= i < key_sp.len() ==> key_sp[i] != '=',
        forall|i: int| 0 <= i < value.len() ==> value[i] != '"' && value[i] != '='
            && !spec_is_space(value[i]),
    ensures
        spec_split(key_sp + seq!['='] + (seq![' ', '"'] + value + seq!['"']), '=') == seq![
            key_sp,
            seq![' ', '"'] + value + seq!['"'],
        ],
{
    let w = seq![' ', '"'] + value + seq!['"'];
    let v = key_sp + seq!['='];
    lemma_split_no_sep(key_sp, '=');
    lemma_split_append_sep(key_sp, '=');
    assert(forall|i: int| 0 <= i < w.len() ==> w[i] != '=');
    lemma_split_append_no_sep(v, w, '=');
    let p = spec_split(v, '=');
    assert(p == seq![key_sp].push(Seq::<char>::empty()));
    assert(p.drop_last() =~= seq![key_sp]);
    assert(p.last() + w =~= w);
    assert(v + w =~= key_sp + seq!['='] + w);
    assert(spec_split(key_sp + seq!['='] + w, '=') =~~= seq![key_sp, w]);
}

/// Parsing the manifest that scaffolding writes gives back exactly the
/// crate name it was written with and the newest supported edition: what
/// initialization writes, loading reads back unchanged.  The crate name
/// must be free of quotes, equals signs and whitespace, as a filesystem
/// directory name used as a crate identifier is.
pub proof fn lemma_scaffold_manifest_parses(name: Seq<char>)
    requires
        forall|i: int| 0 <= i < name.len() ==> name[i] != '"' && name[i] != '='
            && !spec_is_space(name[i]),
    ensures
        spec_parse_manifest(spec_scaffold_manifest(name)) == Ok::<ManifestView, BuildErrorView>(
            ManifestView { crate_name: name, edition: Edition::E2021 },
        ),
{
    reveal_strlit("name = \"");
    reveal_strlit("\"\nedition = \"2021\"\n");
    reveal_strlit("name ");
    reveal_strlit("name");
    reveal_strlit("edition ");
    reveal_strlit("edition");
    reveal_strlit("2015");
    reveal_strlit("2018");
    reveal_strlit("2021");

    let s = spec_scaffold_manifest(name);
    let w1 = seq![' ', '"'] + name + seq!['"'];
    let w2 = seq![' ', '"'] + "2021"@ + seq!['"'];
    let line1 = "name "@ + seq!['='] + w1;
    let line2 = "edition "@ + seq!['='] + w2;

    // the template is two newline-terminated lines
    let u1 = line1 + seq!['\n'];
    let u2 = u1 + line2;
    let u3 = u2 + seq!['\n'];
    assert(s =~= u3);

    // neither line holds a newline of its own
    assert(forall|i: int| 0 <= i < line1.len() ==> line1[i] != '\n');
    assert(forall|i: int| 0 <= i < line2.len() ==> line2[i] != '\n');

    // so the template splits into those two lines
    lemma_split_no_sep(line1, '\n');
    lemma_split_append_sep(line1, '\n');
    let p1 = spec_split(u1, '\n');
    assert(p1 == seq![line1].push(Seq::<char>::empty()));
    lemma_split_append_no_sep(u1, line2, '\n');
    let p2 = spec_split(u2, '\n');
    assert(p1.drop_last() =~= seq![line1]);
    assert(p1.last() + line2 =~= line2);
    assert(p2 =~~= seq![line1, line2]);
    lemma_split_append_sep(u2, '\n');
    let p3 = spec_split(u3, '\n');
    assert(p3 =~~= seq![line1, line2, Seq::<char>::empty()]);
    assert(spec_lines(s) =~~= seq![line1, line2]);

    // the first line assigns the crate name
    assert(forall|i: int| 0 <= i < "name "@.len() ==> "name "@[i] != '=');
    lemma_key_value_split("name "@, name);
    assert(spec_trim("name "@) == "name"@) by {
        assert(!spec_is_space("name "@[0]));
        assert(spec_trim_start("name "@) == "name "@);
        assert("name "@.last() == ' ');
        assert("name "@.drop_last() =~= "name"@);
        assert(spec_trim_end("name "@) == spec_trim_end("name"@));
        assert(!spec_is_space("name"@.last()));
        assert(spec_trim_end("name"@) == "name"@);
    }
    lemma_space_quoted_value(name);

    // the second line assigns the edition
    assert(forall|i: int| 0 <= i < "edition "@.len() ==> "edition "@[i] != '=');
    assert(forall|i: int| 0 <= i < "2021"@.len() ==> "2021"@[i] != '"' && "2021"@[i] != '='
        && !spec_is_space("2021"@[i]));
    lemma_key_value_split("edition "@, "2021"@);
    assert(spec_trim("edition "@) == "edition"@) by {
        assert(!spec_is_space("edition "@[0]));
        assert(spec_trim_start("edition "@) == "edition "@);
        assert("edition "@.last() == ' ');
        assert("edition "@.drop_last() =~= "edition"@);
        assert(spec_trim_end("edition "@) == spec_trim_end("edition"@));
        assert(!spec_is_space("edition"@.last()));
        assert(spec_trim_end("edition"@) == "edition"@);
    }
    lemma_space_quoted_value("2021"@);
    assert(spec_parse_edition("2021"@) == Some(Edition::E2021)) by {
        assert(("2021"@)[2] == '2' && ("2015"@)[2] == '1' && ("2018"@)[2] == '1');
    }

    // fold the two lines: the name is assigned first, the edition second
    let lines = seq![line1, line2];
    assert(lines.first() == line1);
    assert(lines.drop_first() =~= seq![line2]);
    assert("edition"@ != "name"@) by {
        assert("edition"@.len() == 7 && "name"@.len() == 4);
    }
    assert(seq![line2].first() == line2);
    assert(seq![line2].drop_first() =~= Seq::<Seq<char>>::empty());
    assert(spec_parse_lines(Seq::<Seq<char>>::empty(), Some(name), Some(Edition::E2021)) == Ok::<
        (Option<Seq<char>>, Option<Edition>),
        BuildErrorView,
    >((Some(name), Some(Edition::E2021))));
    assert(spec_parse_lines(seq![line2], Some(name), None) == Ok::<
        (Option<Seq<char>>, Option<Edition>),
        BuildErrorView,
    >((Some(name), Some(Edition::E2021))));
    assert(spec_parse_lines(lines, None, None) == Ok::<
        (Option<Seq<char>>, Option<Edition>),
        BuildErrorView,
    >((Some(name), Some(Edition::E2021))));
    assert(spec_parse_manifest(s) == Ok::<ManifestView, BuildErrorView>(
        ManifestView { crate_name: name, edition: Edition::E2021 },
    ));
}

} // verus!
