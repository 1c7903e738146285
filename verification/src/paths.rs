//! Paths of files, whatever they are made of.

use vstd::prelude::*;
use vstd::utf8::encode_utf8;

use crate::samples::append_samples;
use crate::text::{chars_of, copy_of};

verus! {

/// A path: a text, or bytes that are none. `S` holds text, `B` bytes.
#[derive(Debug, Clone, PartialEq, Eq)]
pub enum FilePath<S, B> {
    Text(S),
    Bytes(B),
}

/// A path that is held.
pub type OwnedPath = FilePath<String, Vec<u8>>;

/// A path as the contracts speak of it.
pub type PathView = FilePath<Seq<char>, Seq<u8>>;

pub open spec fn path_view(p: OwnedPath) -> PathView {
    match p {
        FilePath::Text(t) => FilePath::Text(t@),
        FilePath::Bytes(b) => FilePath::Bytes(b@),
    }
}

pub open spec fn path_views(v: Seq<OwnedPath>) -> Seq<PathView> {
    v.map_values(|p: OwnedPath| path_view(p))
}

/// `suffix` below `base`, with one slash between them.
pub open spec fn joined_text(base: Seq<char>, suffix: Seq<char>) -> Seq<char> {
    if base.len() == 0 || base.last() == '/' {
        base + suffix
    } else {
        base.push('/') + suffix
    }
}

/// The same for bytes.
pub open spec fn joined_bytes(base: Seq<u8>, suffix: Seq<u8>) -> Seq<u8> {
    if base.len() == 0 || base.last() == 47u8 {
        base + suffix
    } else {
        base.push(47u8) + suffix
    }
}

/// `suffix` below `base`.
pub open spec fn joined_path(base: PathView, suffix: Seq<char>) -> PathView {
    match base {
        FilePath::Text(t) => FilePath::Text(joined_text(t, suffix)),
        FilePath::Bytes(b) => FilePath::Bytes(joined_bytes(b, encode_utf8(suffix))),
    }
}

/// A file in a directory; a name that begins with a slash is a path of its own.
pub open spec fn path_in(dir: PathView, name: Seq<char>) -> PathView {
    if name.len() > 0 && name[0] == '/' {
        FilePath::Text(name)
    } else {
        joined_path(dir, name)
    }
}

/// Bytes as they are shown: those that are no text, each run as it is broken,
/// give way to the replacement character.
pub uninterp spec fn lossy_text(bytes: Seq<u8>) -> Seq<char>;

/// `String::from_utf8_lossy`, which depends on the bytes alone. How it cuts
/// bytes that are no text is not stated, only named.
#[verifier::external_body]
fn show_bytes(bytes: &[u8]) -> (text: String)
    ensures
        text@ == lossy_text(bytes@),
{
    String::from_utf8_lossy(bytes).into_owned()
}

/// A path as it is shown.
pub open spec fn shown_path(p: PathView) -> Seq<char> {
    match p {
        FilePath::Text(t) => t,
        FilePath::Bytes(b) => lossy_text(b),
    }
}

/// A path that is a text.
pub fn text_path(text: &str) -> (p: OwnedPath)
    ensures
        path_view(p) == (PathView::Text(text@)),
{
    FilePath::Text(copy_of(text))
}

/// A path as it is shown.
pub fn show_path(p: &OwnedPath) -> (text: String)
    ensures
        text@ == shown_path(path_view(*p)),
{
    match p {
        FilePath::Text(t) => copy_of(t.as_str()),
        FilePath::Bytes(b) => show_bytes(b.as_slice()),
    }
}

pub fn copy_path(p: &OwnedPath) -> (c: OwnedPath)
    ensures
        path_view(c) == path_view(*p),
{
    match p {
        FilePath::Text(t) => FilePath::Text(copy_of(t.as_str())),
        FilePath::Bytes(b) => {
            let mut bytes: Vec<u8> = Vec::new();
            append_samples(&mut bytes, b.as_slice());
            proof {
                assert(bytes@ =~= b@);
            }
            FilePath::Bytes(bytes)
        },
    }
}

/// `suffix`, which does not begin with a slash, below `base`.
pub fn join_path(base: &OwnedPath, suffix: &str) -> (path: OwnedPath)
    ensures
        path_view(path) == joined_path(path_view(*base), suffix@),
{
    match base {
        FilePath::Text(t) => {
            let mut text = copy_of(t.as_str());
            let chars = chars_of(t.as_str());
            if chars.len() > 0 && chars[chars.len() - 1] != '/' {
                text.push('/');
            }
            text.append(suffix);
            FilePath::Text(text)
        },
        FilePath::Bytes(b) => {
            let mut bytes: Vec<u8> = Vec::new();
            append_samples(&mut bytes, b.as_slice());
            if b.len() > 0 && b[b.len() - 1] != 47u8 {
                bytes.push(47u8);
            }
            append_samples(&mut bytes, suffix.as_bytes());
            proof {
                assert(bytes@ =~= joined_bytes(b@, encode_utf8(suffix@)));
            }
            FilePath::Bytes(bytes)
        },
    }
}

/// A file in a directory.
pub fn file_in(dir: &OwnedPath, name: &str) -> (path: OwnedPath)
    ensures
        path_view(path) == path_in(path_view(*dir), name@),
{
    let chars = chars_of(name);
    if chars.len() > 0 && chars[0] == '/' {
        text_path(name)
    } else {
        join_path(dir, name)
    }
}

/// A path below another keeps both as they are, with one slash between them: none
/// is added behind one, nor behind nothing.
pub proof fn law_one_slash_between(base: Seq<char>, bytes: Seq<u8>, suffix: Seq<char>)
    ensures
        base.len() == 0 ==> joined_path(PathView::Text(base), suffix) == PathView::Text(suffix),
        base.len() > 0 && base.last() == '/' ==> joined_path(PathView::Text(base), suffix)
            == PathView::Text(base + suffix),
        base.len() > 0 && base.last() != '/' ==> joined_path(PathView::Text(base), suffix)
            == PathView::Text(base + seq!['/'] + suffix),
        bytes.len() == 0 ==> joined_path(PathView::Bytes(bytes), suffix) == PathView::Bytes(
            encode_utf8(suffix),
        ),
        bytes.len() > 0 && bytes.last() == '/' as u8 ==> joined_path(PathView::Bytes(bytes), suffix)
            == PathView::Bytes(bytes + encode_utf8(suffix)),
        bytes.len() > 0 && bytes.last() != '/' as u8 ==> joined_path(PathView::Bytes(bytes), suffix)
            == PathView::Bytes(bytes + seq!['/' as u8] + encode_utf8(suffix)),
{
    assert(base.push('/') + suffix =~= base + seq!['/'] + suffix);
    assert(bytes.push(47u8) + encode_utf8(suffix) =~= bytes + seq![47u8] + encode_utf8(suffix));
    if base.len() == 0 {
        assert(base + suffix =~= suffix);
    }
    if bytes.len() == 0 {
        assert(bytes + encode_utf8(suffix) =~= encode_utf8(suffix));
    }
}

/// A name that begins with a slash stands by itself; any other is looked for in
/// the directory.
pub proof fn law_names_that_are_paths(dir: PathView, name: Seq<char>)
    ensures
        name.len() > 0 && name[0] == '/' ==> path_in(dir, name) == PathView::Text(name),
        name.len() == 0 || name[0] != '/' ==> path_in(dir, name) == joined_path(dir, name),
{
}

/// A path that is a text is shown as it is.
pub proof fn law_texts_are_shown_as_they_are(text: Seq<char>, bytes: Seq<u8>)
    ensures
        shown_path(PathView::Text(text)) == text,
        shown_path(PathView::Bytes(bytes)) == lossy_text(bytes),
{
}

} // verus!
