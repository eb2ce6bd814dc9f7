//! Verified string utilities.
//!
//! The orchestrator's logic is almost entirely string logic: splitting a
//! manifest into lines and key/value pairs, trimming, stripping quotes,
//! deriving artifact names and paths.  Executable code here works on
//! `Vec<char>` buffers and `&str` slices; every function's contract is stated
//! over the corresponding `Seq<char>`.

use vstd::prelude::*;
use vstd::string::StrSliceExecFns;
use vstd::string::StringExecFns;

verus! {

/// The whitespace characters stripped when a key or value is trimmed.
pub open spec fn spec_is_space(c: char) -> bool {
    c == ' ' || c == '\t' || c == '\r' || c == '\n'
}

/// Whether the character is trimmed whitespace.
pub fn is_space(c: char) -> (r: bool)
    ensures
        r == spec_is_space(c),
{
    c == ' ' || c == '\t' || c == '\r' || c == '\n'
}

/// The segments of `s` between occurrences of `sep`: always one more
/// segment than there are separators, so the empty string has one empty
/// segment and a trailing separator yields a trailing empty segment.
pub open spec fn spec_split(s: Seq<char>, sep: char) -> Seq<Seq<char>>
    decreases s.len(),
{
    if s.len() == 0 {
        seq![Seq::empty()]
    } else if s.last() == sep {
        spec_split(s.drop_last(), sep).push(Seq::empty())
    } else {
        let p = spec_split(s.drop_last(), sep);
        p.drop_last().push(p.last().push(s.last()))
    }
}

/// A split always yields at least one segment.
pub proof fn lemma_split_nonempty(s: Seq<char>, sep: char)
    ensures
        spec_split(s, sep).len() >= 1,
    decreases s.len(),
{
    if s.len() > 0 {
        lemma_split_nonempty(s.drop_last(), sep);
    }
}

/// Splitting a string in which the separator does not occur yields that
/// string as the one segment.
pub proof fn lemma_split_no_sep(s: Seq<char>, sep: char)
    requires
        forall|i: int| 0 <= i < s.len() ==> s[i] != sep,
    ensures
        spec_split(s, sep) == seq![s],
    decreases s.len(),
{
    if s.len() == 0 {
        assert(spec_split(s, sep) =~~= seq![s]);
    } else {
        lemma_split_no_sep(s.drop_last(), sep);
        assert(s.drop_last().push(s.last()) =~= s);
        assert(spec_split(s, sep) =~~= seq![s]);
    }
}

/// Appending separator-free text extends the final segment of a split and
/// leaves the earlier segments alone.
pub proof fn lemma_split_append_no_sep(u: Seq<char>, v: Seq<char>, sep: char)
    requires
        forall|i: int| 0 <= i < v.len() ==> v[i] != sep,
    ensures
        spec_split(u + v, sep) == spec_split(u, sep).drop_last().push(
            spec_split(u, sep).last() + v,
        ),
    decreases v.len(),
{
    lemma_split_nonempty(u, sep);
    let p = spec_split(u, sep);
    if v.len() == 0 {
        assert(u + v =~= u);
        assert(p.last() + v =~= p.last());
        assert(p.drop_last().push(p.last()) =~= p);
    } else {
        lemma_split_append_no_sep(u, v.drop_last(), sep);
        assert((u + v).drop_last() =~= u + v.drop_last());
        assert((u + v).last() == v.last());
        let q = spec_split(u + v.drop_last(), sep);
        assert(q == p.drop_last().push(p.last() + v.drop_last()));
        assert(q.drop_last() =~= p.drop_last());
        assert(q.last() == p.last() + v.drop_last());
        assert((p.last() + v.drop_last()).push(v.last()) =~= p.last() + v);
        assert(spec_split(u + v, sep) =~~= p.drop_last().push(p.last() + v));
    }
}

/// Appending one separator character closes the final segment and opens a
/// new empty one.
pub proof fn lemma_split_append_sep(u: Seq<char>, sep: char)
    ensures
        spec_split(u + seq![sep], sep) == spec_split(u, sep).push(Seq::empty()),
{
    assert((u + seq![sep]).last() == sep);
    assert((u + seq![sep]).drop_last() =~= u);
}

/// Quote removal distributes over concatenation.
pub proof fn lemma_unquote_concat(a: Seq<char>, b: Seq<char>)
    ensures
        spec_unquote(a + b) == spec_unquote(a) + spec_unquote(b),
    decreases b.len(),
{
    reveal(Seq::filter);
    if b.len() == 0 {
        assert(a + b =~= a);
        assert(spec_unquote(a) + spec_unquote(b) =~= spec_unquote(a));
    } else {
        lemma_unquote_concat(a, b.drop_last());
        assert((a + b).drop_last() =~= a + b.drop_last());
        assert((a + b).last() == b.last());
        if b.last() != '"' {
            assert(spec_unquote(a) + spec_unquote(b.drop_last()).push(b.last()) =~= spec_unquote(a)
                + spec_unquote(b.drop_last()) + seq![b.last()]);
            assert(spec_unquote(a + b) =~= spec_unquote(a) + spec_unquote(b));
        } else {
            assert(spec_unquote(a + b) =~= spec_unquote(a) + spec_unquote(b));
        }
    }
}

/// Quote removal leaves a string without quotes unchanged.
pub proof fn lemma_unquote_clean(s: Seq<char>)
    requires
        forall|i: int| 0 <= i < s.len() ==> s[i] != '"',
    ensures
        spec_unquote(s) == s,
    decreases s.len(),
{
    reveal(Seq::filter);
    if s.len() == 0 {
        assert(spec_unquote(s) =~= s);
    } else {
        lemma_unquote_clean(s.drop_last());
        assert(spec_unquote(s) =~= s.drop_last().push(s.last()));
        assert(s.drop_last().push(s.last()) =~= s);
    }
}

/// The lines of `s`: the segments between newline characters, with a final
/// line terminator producing no extra empty line.
pub open spec fn spec_lines(s: Seq<char>) -> Seq<Seq<char>> {
    let segs = spec_split(s, '\n');
    if segs.last().len() == 0 {
        segs.drop_last()
    } else {
        segs
    }
}

/// `s` with leading whitespace removed.
pub open spec fn spec_trim_start(s: Seq<char>) -> Seq<char>
    decreases s.len(),
{
    if s.len() > 0 && spec_is_space(s.first()) {
        spec_trim_start(s.drop_first())
    } else {
        s
    }
}

/// `s` with trailing whitespace removed.
pub open spec fn spec_trim_end(s: Seq<char>) -> Seq<char>
    decreases s.len(),
{
    if s.len() > 0 && spec_is_space(s.last()) {
        spec_trim_end(s.drop_last())
    } else {
        s
    }
}

/// `s` with leading and trailing whitespace removed.
pub open spec fn spec_trim(s: Seq<char>) -> Seq<char> {
    spec_trim_end(spec_trim_start(s))
}

/// `s` with every double-quote character removed.
pub open spec fn spec_unquote(s: Seq<char>) -> Seq<char> {
    s.filter(|c: char| c != '"')
}

/// The index of the last occurrence of `c` in `s`, or `-1` when `c` does
/// not occur.
pub open spec fn spec_last_index(s: Seq<char>, c: char) -> int
    decreases s.len(),
{
    if s.len() == 0 {
        -1
    } else if s.last() == c {
        s.len() - 1
    } else {
        spec_last_index(s.drop_last(), c)
    }
}

/// The file-name component of a path: everything after the last slash.
pub open spec fn spec_file_name(p: Seq<char>) -> Seq<char> {
    let i = spec_last_index(p, '/');
    if i < 0 {
        p
    } else {
        p.skip(i + 1)
    }
}

/// The extension of a path's file name: everything after the last dot,
/// unless the only dot is the file name's leading character.
pub open spec fn spec_extension(p: Seq<char>) -> Option<Seq<char>> {
    let name = spec_file_name(p);
    let d = spec_last_index(name, '.');
    if d <= 0 {
        None
    } else {
        Some(name.skip(d + 1))
    }
}

/// The stem of a path's file name: the file name with its extension (and
/// the dot before it) removed.
pub open spec fn spec_file_stem(p: Seq<char>) -> Seq<char> {
    let name = spec_file_name(p);
    let d = spec_last_index(name, '.');
    if d <= 0 {
        name
    } else {
        name.take(d)
    }
}

/// The label of a test artifact: the suffix of its name after the last
/// underscore, or the whole name when it has none.
pub open spec fn spec_label(name: Seq<char>) -> Seq<char> {
    let u = spec_last_index(name, '_');
    if u < 0 {
        name
    } else {
        name.skip(u + 1)
    }
}

/// Relies on `String::push`: appends the given character to the end of the
/// string.
#[verifier::external_body]
fn push_char(s: &mut String, c: char)
    ensures
        final(s)@ == old(s)@.push(c),
{
    s.push(c);
}

/// Compares two string slices character by character.
pub fn str_eq(a: &str, b: &str) -> (r: bool)
    ensures
        r == (a@ == b@),
{
    let alen = a.unicode_len();
    let blen = b.unicode_len();
    if alen != blen {
        return false;
    }
    let mut i: usize = 0;
    while i < alen
        invariant
            alen == a@.len(),
            alen == b@.len(),
            i <= alen,
            forall|j: int| 0 <= j < i ==> a@[j] == b@[j],
        decreases alen - i,
    {
        let ca = a.get_char(i);
        let cb = b.get_char(i);
        if ca != cb {
            return false;
        }
        i = i + 1;
    }
    proof {
        assert(a@ =~= b@);
    }
    true
}

/// Collects the characters of a string slice into a vector.
pub fn str_to_chars(s: &str) -> (v: Vec<char>)
    ensures
        v@ == s@,
{
    let n = s.unicode_len();
    let mut v: Vec<char> = Vec::new();
    let mut i: usize = 0;
    while i < n
        invariant
            n == s@.len(),
            i <= n,
            v@ =~= s@.subrange(0, i as int),
        decreases n - i,
    {
        v.push(s.get_char(i));
        i = i + 1;
    }
    proof {
        assert(v@ =~= s@);
    }
    v
}

/// Builds a string out of a vector of characters.
pub fn chars_to_string(v: &Vec<char>) -> (s: String)
    ensures
        s@ == v@,
{
    let mut s = String::new();
    let mut i: usize = 0;
    while i < v.len()
        invariant
            i <= v@.len(),
            s@ =~= v@.subrange(0, i as int),
        decreases v@.len() - i,
    {
        push_char(&mut s, v[i]);
        i = i + 1;
    }
    proof {
        assert(s@ =~= v@);
    }
    s
}

/// Compares a character vector against a string slice.
pub fn chars_eq_str(v: &Vec<char>, s: &str) -> (r: bool)
    ensures
        r == (v@ == s@),
{
    let n = s.unicode_len();
    if v.len() != n {
        return false;
    }
    let mut i: usize = 0;
    while i < n
        invariant
            n == s@.len(),
            n == v@.len(),
            i <= n,
            forall|j: int| 0 <= j < i ==> v@[j] == s@[j],
        decreases n - i,
    {
        if v[i] != s.get_char(i) {
            return false;
        }
        i = i + 1;
    }
    proof {
        assert(v@ =~= s@);
    }
    true
}

/// Splits a character vector at every occurrence of the separator.
pub fn split_chars(v: &Vec<char>, sep: char) -> (r: Vec<Vec<char>>)
    ensures
        r.deep_view() == spec_split(v@, sep),
{
    let mut r: Vec<Vec<char>> = Vec::new();
    let mut cur: Vec<char> = Vec::new();
    let mut i: usize = 0;
    proof {
        assert(v@.take(0) =~= Seq::<char>::empty());
        assert(r.deep_view().push(cur@) =~~= spec_split(v@.take(0), sep));
    }
    while i < v.len()
        invariant
            i <= v@.len(),
            r.deep_view().push(cur@) == spec_split(v@.take(i as int), sep),
        decreases v@.len() - i,
    {
        let c = v[i];
        proof {
            assert(v@.take(i + 1 as int).drop_last() =~= v@.take(i as int));
            assert(v@.take(i + 1 as int).last() == v@[i as int]);
            lemma_split_nonempty(v@.take(i as int), sep);
        }
        if c == sep {
            let ghost prev_cur = cur@;
            let ghost prev_r = r.deep_view();
            r.push(cur);
            cur = Vec::new();
            proof {
                assert(r.deep_view() =~~= prev_r.push(prev_cur));
                assert(r.deep_view().push(cur@) =~~= spec_split(v@.take(i + 1 as int), sep));
            }
        } else {
            let ghost prev = spec_split(v@.take(i as int), sep);
            cur.push(c);
            proof {
                assert(prev.drop_last() =~~= r.deep_view());
                assert(r.deep_view().push(cur@) =~~= spec_split(v@.take(i + 1 as int), sep));
            }
        }
        i = i + 1;
    }
    let ghost prev_cur = cur@;
    let ghost prev_r = r.deep_view();
    r.push(cur);
    proof {
        assert(v@.take(v@.len() as int) =~= v@);
        assert(r.deep_view() =~~= prev_r.push(prev_cur));
    }
    r
}

/// Splits a character vector into its lines.
pub fn split_into_lines(v: &Vec<char>) -> (r: Vec<Vec<char>>)
    ensures
        r.deep_view() == spec_lines(v@),
{
    let mut segs = split_chars(v, '\n');
    proof {
        lemma_split_nonempty(v@, '\n');
    }
    if segs[segs.len() - 1].len() == 0 {
        let ghost prev = segs.deep_view();
        segs.pop();
        proof {
            assert(segs.deep_view() =~= prev.drop_last());
        }
    }
    segs
}

/// Removes leading and trailing whitespace from a character vector.
pub fn trim_chars(v: &Vec<char>) -> (r: Vec<char>)
    ensures
        r@ == spec_trim(v@),
{
    let mut lo: usize = 0;
    proof {
        assert(v@.skip(0) =~= v@);
    }
    while lo < v.len() && is_space(v[lo])
        invariant
            lo <= v@.len(),
            spec_trim_start(v@) == spec_trim_start(v@.skip(lo as int)),
        decreases v@.len() - lo,
    {
        proof {
            assert(v@.skip(lo as int).drop_first() =~= v@.skip(lo + 1 as int));
        }
        lo = lo + 1;
    }
    proof {
        assert(spec_trim_start(v@) == v@.skip(lo as int));
    }
    let mut hi: usize = v.len();
    while hi > lo && is_space(v[hi - 1])
        invariant
            lo <= hi <= v@.len(),
            spec_trim_end(v@.skip(lo as int)) == spec_trim_end(
                v@.subrange(lo as int, hi as int),
            ),
        decreases hi,
    {
        proof {
            assert(v@.subrange(lo as int, hi as int).drop_last() =~= v@.subrange(
                lo as int,
                hi - 1 as int,
            ));
        }
        hi = hi - 1;
    }
    proof {
        assert(spec_trim_end(v@.skip(lo as int)) == v@.subrange(lo as int, hi as int));
    }
    subvec(v, lo, hi)
}

/// Removes every double-quote character from a character vector.
pub fn unquote_chars(v: &Vec<char>) -> (r: Vec<char>)
    ensures
        r@ == spec_unquote(v@),
{
    let mut r: Vec<char> = Vec::new();
    let mut i: usize = 0;
    proof {
        reveal(Seq::filter);
        assert(v@.take(0) =~= Seq::<char>::empty());
    }
    while i < v.len()
        invariant
            i <= v@.len(),
            r@ == spec_unquote(v@.take(i as int)),
        decreases v@.len() - i,
    {
        let c = v[i];
        proof {
            reveal(Seq::filter);
            assert(v@.take(i + 1 as int).drop_last() =~= v@.take(i as int));
            assert(v@.take(i + 1 as int).last() == v@[i as int]);
        }
        if c != '"' {
            r.push(c);
        }
        i = i + 1;
    }
    proof {
        assert(v@.take(v@.len() as int) =~= v@);
    }
    r
}

/// The index of the last occurrence of `c` in `v`, if any.
pub fn last_index(v: &Vec<char>, c: char) -> (r: Option<usize>)
    ensures
        match r {
            Some(i) => spec_last_index(v@, c) == i as int && i < v@.len(),
            None => spec_last_index(v@, c) == -1,
        },
{
    let mut i: usize = v.len();
    proof {
        assert(v@.take(v@.len() as int) =~= v@);
    }
    while i > 0
        invariant
            i <= v@.len(),
            spec_last_index(v@, c) == spec_last_index(v@.take(i as int), c),
        decreases i,
    {
        proof {
            assert(v@.take(i as int).drop_last() =~= v@.take(i - 1 as int));
            assert(v@.take(i as int).last() == v@[i - 1 as int]);
        }
        if v[i - 1] == c {
            return Some(i - 1);
        }
        i = i - 1;
    }
    None
}

/// The file-name component of a path: everything after the last slash.
pub fn file_name_chars(p: &Vec<char>) -> (r: Vec<char>)
    ensures
        r@ == spec_file_name(p@),
{
    let n = p.len();
    match last_index(p, '/') {
        Some(i) => subvec(p, i + 1, n),
        None => subvec(p, 0, n),
    }
}

/// The stem of a path's file name, as [`spec_file_stem`] defines it.
pub fn file_stem(path: &str) -> (r: String)
    ensures
        r@ == spec_file_stem(path@),
{
    let chars = str_to_chars(path);
    let name = file_name_chars(&chars);
    let stem = match last_index(&name, '.') {
        Some(d) => {
            if d == 0 {
                subvec(&name, 0, name.len())
            } else {
                subvec(&name, 0, d)
            }
        },
        None => subvec(&name, 0, name.len()),
    };
    proof {
        assert(spec_file_name(path@).take(spec_file_name(path@).len() as int) =~= spec_file_name(
            path@,
        ));
    }
    chars_to_string(&stem)
}

/// Whether the path's file name carries the given extension.
pub fn has_extension(path: &str, ext: &str) -> (r: bool)
    ensures
        r == (spec_extension(path@) == Some(ext@)),
{
    let chars = str_to_chars(path);
    let name = file_name_chars(&chars);
    let n = name.len();
    match last_index(&name, '.') {
        Some(d) => {
            if d == 0 {
                false
            } else {
                let tail = subvec(&name, d + 1, n);
                chars_eq_str(&tail, ext)
            }
        },
        None => false,
    }
}

/// Whether the path's file name carries no extension at all.
pub fn has_no_extension(path: &str) -> (r: bool)
    ensures
        r == (spec_extension(path@) is None),
{
    let chars = str_to_chars(path);
    let name = file_name_chars(&chars);
    match last_index(&name, '.') {
        Some(d) => d == 0,
        None => true,
    }
}

/// The label of a test artifact, as [`spec_label`] defines it.
pub fn label_of(name: &str) -> (r: String)
    ensures
        r@ == spec_label(name@),
{
    let chars = str_to_chars(name);
    let n = chars.len();
    let tail = match last_index(&chars, '_') {
        Some(u) => subvec(&chars, u + 1, n),
        None => subvec(&chars, 0, n),
    };
    proof {
        assert(name@.take(name@.len() as int) =~= name@);
    }
    chars_to_string(&tail)
}

/// Joins two path components with a slash.
pub fn path_join(a: &str, b: &str) -> (r: String)
    ensures
        r@ == a@ + "/"@ + b@,
{
    a.to_owned().concat("/").concat(b)
}

/// Copies the characters of `v` between `lo` (inclusive) and `hi` (exclusive).
pub fn subvec(v: &Vec<char>, lo: usize, hi: usize) -> (r: Vec<char>)
    requires
        lo <= hi <= v@.len(),
    ensures
        r@ == v@.subrange(lo as int, hi as int),
{
    let mut r: Vec<char> = Vec::new();
    let mut i: usize = lo;
    while i < hi
        invariant
            lo <= i <= hi <= v@.len(),
            r@ =~= v@.subrange(lo as int, i as int),
        decreases hi - i,
    {
        r.push(v[i]);
        i = i + 1;
    }
    proof {
        assert(r@ =~= v@.subrange(lo as int, hi as int));
    }
    r
}

} // verus!
