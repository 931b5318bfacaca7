//! Paths of the host, as `std::path` holds them.
//!
//! A `PathBuf` is in the host's own path syntax and need not be valid text. Nothing here looks inside
//! one: a path is extended by a segment, and it is rendered as text.
use std::path::PathBuf;
use vstd::prelude::*;

verus! {

/// `std::path::PathBuf`, an owned path in the syntax of the host.
#[verifier::external_type_specification]
#[verifier::external_body]
pub struct ExPathBuf(PathBuf);

/// What `Path::join` returns for a path, which is in the syntax of its host, and a segment.
pub uninterp spec fn joined(base: PathBuf, segment: Seq<char>) -> PathBuf;

/// What `Path::to_string_lossy` returns for a path.
pub uninterp spec fn path_text(path: PathBuf) -> Seq<char>;

/// A letter or a digit of ASCII.
pub open spec fn ascii_alphanumeric(c: char) -> bool {
    ('a' <= c <= 'z') || ('A' <= c <= 'Z') || ('0' <= c <= '9')
}

/// The character at `i` is neither a slash nor a colon, and it is an ASCII letter or digit where it
/// starts a name: at the front, or behind a backslash.
pub open spec fn plain_at(segment: Seq<char>, i: int) -> bool {
    &&& segment[i] != '/'
    &&& segment[i] != ':'
    &&& (i == 0 || segment[i - 1] == '\\') ==> ascii_alphanumeric(segment[i])
}

/// One or more names, set apart by single backslashes, each of which starts with an ASCII letter or
/// digit, without a slash or a colon anywhere. On every host this is a relative path, and no part of
/// it is one that joining could drop or resolve.
pub open spec fn plain_relative(segment: Seq<char>) -> bool {
    &&& segment.len() > 0
    &&& segment.last() != '\\'
    &&& forall|i: int| 0 <= i < segment.len() ==> #[trigger] plain_at(segment, i)
}

/// `text` ends in `tail`.
pub open spec fn ends_with(text: Seq<char>, tail: Seq<char>) -> bool {
    tail.is_suffix_of(text)
}

/// `base` extended by `segment`.
///
/// Calls `std::path::Path::join`. The contract claims that the result depends on the two arguments
/// alone, and that a plain relative segment is adjoined: the result, as text, ends in it. What stands
/// between the base and the segment is the host's own affair, and is left unsaid.
#[verifier::external_body]
pub(crate) fn join(base: &PathBuf, segment: &str) -> (r: PathBuf)
    ensures
        r == joined(*base, segment@),
        plain_relative(segment@) ==> ends_with(path_text(r), segment@),
{
    base.join(segment)
}

/// `path` as text.
///
/// Calls `std::path::Path::to_string_lossy`. The contract claims that the text depends on the path
/// alone.
#[verifier::external_body]
pub(crate) fn to_text(path: &PathBuf) -> (text: String)
    ensures
        text@ == path_text(*path),
{
    path.to_string_lossy().into_owned()
}

/// A text ends in a tail where it is some text with the tail behind it, and nowhere else.
pub proof fn ends_with_means_front_and_tail(text: Seq<char>, tail: Seq<char>)
    ensures
        ends_with(text, tail) <==> exists|front: Seq<char>| text == #[trigger] (front + tail),
{
    if ends_with(text, tail) {
        let front = text.take(text.len() - tail.len());
        assert(text =~= front + tail);
    }
    if exists|front: Seq<char>| text == #[trigger] (front + tail) {
        let front = choose|front: Seq<char>| text == #[trigger] (front + tail);
        assert(tail =~= text.subrange(text.len() - tail.len(), text.len() as int));
    }
}

/// A plain relative segment holds no slash and no colon; no backslash stands at its front, at its end
/// or before another; and no name in it starts with a dot.
pub proof fn plain_relative_is_plain(segment: Seq<char>, i: int)
    requires
        plain_relative(segment),
        0 <= i < segment.len(),
    ensures
        segment[i] != '/' && segment[i] != ':',
        segment[0] != '\\' && segment[0] != '.',
        segment[segment.len() - 1] != '\\',
        segment[i] == '\\' ==> segment[i + 1] != '\\' && segment[i + 1] != '.',
{
    assert(plain_at(segment, 0));
    assert(plain_at(segment, i));
    if segment[i] == '\\' {
        assert(plain_at(segment, i + 1));
    }
}

} // verus!
