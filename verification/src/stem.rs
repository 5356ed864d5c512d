//! Output file stems: a file stem is reduced to at most 46 characters taken
//! from a small ASCII alphabet, so that the stem plus a short extension fits
//! the C `char[]` buffer of the player.

use vstd::prelude::*;
use crate::text::push_char;
use crate::paths::{file_stem_of, path_file_name, path_file_stem, stem_of_file_name};

verus! {

/// The most characters an output stem may have.
pub const MAX_STEM_CHARS: usize = 46;

/// Characters that may appear in an output stem: ASCII letters and digits,
/// and `_`, `-`, `.` and space.
pub open spec fn is_stem_char(c: char) -> bool {
    ||| ('0' <= c && c <= '9')
    ||| ('A' <= c && c <= 'Z')
    ||| ('a' <= c && c <= 'z')
    ||| c == '_'
    ||| c == '-'
    ||| c == '.'
    ||| c == ' '
}

/// The characters of `s` that may appear in a stem, in order.
pub open spec fn stem_chars(s: Seq<char>) -> Seq<char> {
    s.filter(|c: char| is_stem_char(c))
}

/// The first `MAX_STEM_CHARS` elements of `s` (all of `s` if it is shorter).
pub open spec fn cap_len(s: Seq<char>) -> Seq<char> {
    if s.len() <= MAX_STEM_CHARS {
        s
    } else {
        s.take(MAX_STEM_CHARS as int)
    }
}

/// The limited stem: the allowed characters of `stem`, cut to the limit, or
/// `None` where nothing is left.
pub open spec fn limited_stem(stem: Seq<char>) -> Option<Seq<char>> {
    let kept = cap_len(stem_chars(stem));
    if kept.len() == 0 {
        None
    } else {
        Some(kept)
    }
}

/// An ASCII letter or digit, by code point: `0`-`9` are 48 to 57, `A`-`Z`
/// are 65 to 90, `a`-`z` are 97 to 122.
pub open spec fn is_ascii_alphanumeric_code(c: char) -> bool {
    let n = c as u32;
    (48 <= n && n <= 57) || (65 <= n && n <= 90) || (97 <= n && n <= 122)
}

/// The characters allowed in a stem are exactly the ASCII letters and
/// digits, `_`, `-`, `.` and space.
pub proof fn lemma_stem_alphabet(c: char)
    ensures
        is_stem_char(c) <==> (is_ascii_alphanumeric_code(c) || c == '_' || c == '-' || c == '.'
            || c == ' '),
{
}

/// Whether `c` may appear in an output stem.
pub fn stem_char_allowed(c: char) -> (b: bool)
    ensures
        b == is_stem_char(c),
        b <==> (is_ascii_alphanumeric_code(c) || c == '_' || c == '-' || c == '.' || c == ' '),
{
    proof {
        lemma_stem_alphabet(c);
    }
    ('0' <= c && c <= '9') || ('A' <= c && c <= 'Z') || ('a' <= c && c <= 'z') || c == '_'
        || c == '-' || c == '.' || c == ' '
}

proof fn lemma_stem_chars_step(s: Seq<char>, i: int)
    requires
        0 <= i < s.len(),
    ensures
        stem_chars(s.take(i + 1)) == if is_stem_char(s[i]) {
            stem_chars(s.take(i)).push(s[i])
        } else {
            stem_chars(s.take(i))
        },
{
    reveal(Seq::filter);
    assert(s.take(i + 1).drop_last() =~= s.take(i));
}

/// Keeps the characters of `stem` that may appear in an output stem, at most
/// 46 of them; `None` where none is left.
pub fn limit_stem(stem: &str) -> (res: Option<String>)
    ensures
        res.deep_view() == limited_stem(stem@),
{
    let mut out = String::new();
    let mut count: usize = 0;
    let ghost s = stem@;
    for c in it: stem.chars()
        invariant
            it.seq() == s,
            count as nat == out@.len(),
            out@ == cap_len(stem_chars(s.take(it.index() as int))),
    {
        let ghost i = it.index() as int;
        proof {
            lemma_stem_chars_step(s, i);
        }
        if stem_char_allowed(c) && count < MAX_STEM_CHARS {
            push_char(&mut out, c);
            count = count + 1;
        }
        proof {
            let k = stem_chars(s.take(i));
            if is_stem_char(c) && k.len() >= MAX_STEM_CHARS {
                assert(k.push(c).take(MAX_STEM_CHARS as int) =~= k.take(MAX_STEM_CHARS as int));
            }
        }
    }
    proof {
        assert(s.take(s.len() as int) =~= s);
    }
    if count == 0 {
        None
    } else {
        Some(out)
    }
}

/// A well-formed output stem: one to 46 characters, each one allowed.
pub open spec fn is_output_stem(s: Seq<char>) -> bool {
    &&& 0 < s.len() <= MAX_STEM_CHARS
    &&& forall|i: int| 0 <= i < s.len() ==> is_stem_char(#[trigger] s[i])
}

/// The output stem for a file stem, if there is one.
pub open spec fn limited_stem_of(stem: Option<Seq<char>>) -> Option<Seq<char>> {
    match stem {
        Some(stem) => limited_stem(stem),
        None => None,
    }
}

/// The output name for a file stem, if there is one: the limited stem, or
/// `out`.
pub open spec fn output_name_for(stem: Option<Seq<char>>) -> Seq<char> {
    match limited_stem_of(stem) {
        Some(kept) => kept,
        None => "out"@,
    }
}

/// The stem that `limit_file_stem` gives for `path`.
pub open spec fn limited_file_stem(path: Seq<char>) -> Option<Seq<char>> {
    limited_stem_of(path_file_stem(path))
}

/// The name that `output_name` gives for `path`.
pub open spec fn output_name_of(path: Seq<char>) -> Seq<char> {
    output_name_for(path_file_stem(path))
}

proof fn lemma_filter_keeps_all(s: Seq<char>)
    requires
        forall|i: int| 0 <= i < s.len() ==> is_stem_char(#[trigger] s[i]),
    ensures
        stem_chars(s) == s,
    decreases s.len(),
{
    reveal(Seq::filter);
    if s.len() > 0 {
        let t = s.drop_last();
        assert forall|i: int| 0 <= i < t.len() implies is_stem_char(#[trigger] t[i]) by {
            assert(t[i] == s[i]);
        }
        lemma_filter_keeps_all(t);
        assert(t.push(s.last()) =~= s);
    }
}

/// Whatever the stem, what comes out of limiting it, if anything, is one to
/// 46 characters of the allowed ASCII alphabet.
pub proof fn lemma_limited_stem_well_formed(stem: Seq<char>)
    ensures
        limited_stem(stem) matches Some(s) ==> is_output_stem(s),
{
    broadcast use Seq::lemma_filter_pred, Seq::lemma_filter_len;
    let k = stem_chars(stem);
    assert forall|i: int| 0 <= i < cap_len(k).len() implies is_stem_char(#[trigger] cap_len(k)[i]) by {
        assert(cap_len(k)[i] == k[i]);
    }
}

/// Limiting is idempotent: a limited stem is left as it is when limited again.
pub proof fn lemma_limit_stem_idempotent(stem: Seq<char>)
    ensures
        limited_stem(stem) matches Some(s) ==> limited_stem(s) == Some(s),
{
    lemma_limited_stem_well_formed(stem);
    if let Some(s) = limited_stem(stem) {
        lemma_filter_keeps_all(s);
    }
}

/// An output stem is ASCII, so its UTF-8 encoding takes one byte per
/// character: at most 46 bytes.
pub proof fn lemma_output_stem_fits_46_bytes(s: Seq<char>)
    requires
        is_output_stem(s),
    ensures
        vstd::utf8::is_ascii_chars(s),
        vstd::utf8::encode_utf8(s).len() == s.len(),
        vstd::utf8::encode_utf8(s).len() <= MAX_STEM_CHARS,
{
    assert(vstd::utf8::is_ascii_chars(s));
    vstd::utf8::is_ascii_chars_encode_utf8(s);
}

/// A well-formed output stem comes back unchanged: the stems that limiting
/// gives are exactly the well-formed ones.
pub proof fn lemma_output_stem_kept(s: Seq<char>)
    requires
        is_output_stem(s),
    ensures
        limited_stem(s) == Some(s),
{
    lemma_filter_keeps_all(s);
}

/// A character that is not an ASCII letter or digit, nor `_`, `-`, `.` or
/// space, is dropped wherever it stands in the stem.
pub proof fn lemma_limit_stem_drops_other_char(a: Seq<char>, c: char, b: Seq<char>)
    requires
        !(is_ascii_alphanumeric_code(c) || c == '_' || c == '-' || c == '.' || c == ' '),
    ensures
        limited_stem(a + seq![c] + b) == limited_stem(a + b),
{
    lemma_stem_alphabet(c);
    let p = |x: char| is_stem_char(x);
    reveal_with_fuel(Seq::filter, 2);
    assert(seq![c].drop_last() =~= Seq::<char>::empty());
    assert(seq![c].filter(p) =~= Seq::<char>::empty());
    Seq::filter_distributes_over_add(a + seq![c], b, p);
    Seq::filter_distributes_over_add(a, seq![c], p);
    Seq::filter_distributes_over_add(a, b, p);
    assert(stem_chars(a + seq![c]) =~= stem_chars(a));
}

/// A stem made only of ASCII letters, digits, `_`, `-`, `.` and spaces is
/// kept as it is up to 46 characters and cut to its first 46 beyond; an empty
/// one gives nothing.
pub proof fn lemma_limit_stem_of_allowed_chars(s: Seq<char>)
    requires
        forall|i: int|
            0 <= i < s.len() ==> (is_ascii_alphanumeric_code(#[trigger] s[i]) || s[i] == '_'
                || s[i] == '-' || s[i] == '.' || s[i] == ' '),
    ensures
        s.len() == 0 ==> limited_stem(s) is None,
        0 < s.len() <= 46 ==> limited_stem(s) == Some(s),
        s.len() > 46 ==> limited_stem(s) == Some(s.take(46)),
{
    assert forall|i: int| 0 <= i < s.len() implies is_stem_char(#[trigger] s[i]) by {
        lemma_stem_alphabet(s[i]);
    }
    lemma_filter_keeps_all(s);
}

/// The file stem of a name made of a non-empty `s`, a `.` and an extension
/// with no `.` in it is `s`.
pub proof fn lemma_stem_of_name_with_extension(s: Seq<char>, ext: Seq<char>)
    requires
        s.len() > 0,
        !ext.contains('.'),
    ensures
        stem_of_file_name(s + seq!['.'] + ext) == s,
{
    let name = s + seq!['.'] + ext;
    let d = s.len() as int;
    assert(name[d] == '.');
    assert(name.contains('.'));
    name.index_of_last_ensures('.');
    let j = name.index_of_last('.').unwrap();
    if j > d {
        assert(name[j] == ext[j - d - 1]);
        assert(ext.contains(name[j]));
    }
    assert(j == d);
    assert(name.take(j) =~= s);
}

/// A file name with no `.`, or whose only `.` is its first character, is its
/// own stem.
pub proof fn lemma_stem_of_name_without_extension(name: Seq<char>)
    requires
        !name.contains('.') || (name.len() > 0 && name[0] == '.' && !name.drop_first().contains(
            '.',
        )),
    ensures
        stem_of_file_name(name) == name,
{
    name.index_of_last_ensures('.');
    if name.contains('.') {
        let j = name.index_of_last('.').unwrap();
        if j > 0 {
            assert(name.drop_first()[j - 1] == name[j]);
        }
    }
}

/// The output stem of a path is the limited stem of its file name's stem;
/// a path with no file name has none, and gets the name `out`.
pub proof fn lemma_file_stem_pipeline(path: Seq<char>)
    ensures
        path_file_name(path) is None ==> limited_file_stem(path) is None && output_name_of(path)
            == "out"@,
        path_file_name(path) matches Some(name) ==> limited_file_stem(path) == limited_stem(
            stem_of_file_name(name),
        ),
{
}

/// A file named `s` plus an extension, where `s` is a well-formed output
/// stem, gets `s` itself as its output stem.
pub proof fn lemma_limited_file_stem_of_named_file(path: Seq<char>, s: Seq<char>, ext: Seq<char>)
    requires
        is_output_stem(s),
        !ext.contains('.'),
        path_file_name(path) == Some(s + seq!['.'] + ext),
    ensures
        limited_file_stem(path) == Some(s),
        output_name_of(path) == s,
{
    lemma_stem_of_name_with_extension(s, ext);
    lemma_output_stem_kept(s);
}

/// The output stem for a file stem that has been read already: the stem
/// limited as `limit_stem` does, or `None` where there is no stem or nothing
/// of it is kept.
pub fn limit_stem_of(stem: Option<&str>) -> (res: Option<String>)
    ensures
        res.deep_view() == limited_stem_of(stem.deep_view()),
        res matches Some(s) ==> is_output_stem(s@),
{
    match stem {
        Some(stem) => {
            proof {
                lemma_limited_stem_well_formed(stem@);
            }
            limit_stem(stem)
        },
        None => None,
    }
}

/// The output stem of `path`: the stem of its file name, limited as
/// `limit_stem` does, or `None` where the path has no stem or nothing of the
/// stem is kept.
pub fn limit_file_stem(path: &str) -> (res: Option<String>)
    ensures
        res.deep_view() == limited_file_stem(path@),
        res matches Some(s) ==> is_output_stem(s@),
{
    match file_stem_of(path) {
        Some(stem) => limit_stem_of(Some(stem.as_str())),
        None => limit_stem_of(None),
    }
}

/// The output name for a file stem that has been read already: its limited
/// stem, or `out` where there is none. The result is always a well-formed
/// output stem.
pub fn output_name_for_stem(stem: Option<&str>) -> (res: String)
    ensures
        res@ == output_name_for(stem.deep_view()),
        limited_stem_of(stem.deep_view()) matches Some(kept) ==> res@ == kept,
        limited_stem_of(stem.deep_view()) is None ==> res@ == "out"@,
        is_output_stem(res@),
        vstd::utf8::encode_utf8(res@).len() <= MAX_STEM_CHARS,
{
    let name = match limit_stem_of(stem) {
        Some(kept) => kept,
        None => {
            let out = String::from_str("out");
            proof {
                reveal_strlit("out");
            }
            out
        },
    };
    proof {
        lemma_output_stem_fits_46_bytes(name@);
    }
    name
}

/// A possible output file stem for `path`: its limited stem, or `out` where
/// there is none. The result is always a well-formed output stem.
pub fn output_name(path: &str) -> (res: String)
    ensures
        res@ == output_name_of(path@),
        limited_file_stem(path@) matches Some(kept) ==> res@ == kept,
        limited_file_stem(path@) is None ==> res@ == "out"@,
        is_output_stem(res@),
        vstd::utf8::encode_utf8(res@).len() <= MAX_STEM_CHARS,
{
    match file_stem_of(path) {
        Some(stem) => output_name_for_stem(Some(stem.as_str())),
        None => output_name_for_stem(None),
    }
}

} // verus!
