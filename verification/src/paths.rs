//! Paths of files, as the operating system writes them.

use std::path::PathBuf;
use vstd::prelude::*;

verus! {

/// Declares [`std::path::PathBuf`]: a path is carried along, not looked into.
#[verifier::external_type_specification]
#[verifier::external_body]
pub struct ExPathBuf(PathBuf);

/// `PathBuf::clone`: a copy of a path is that path.
pub assume_specification[ <PathBuf as Clone>::clone ](path: &PathBuf) -> (copy: PathBuf)
    ensures
        copy == *path,
;

/// What a path holds: its text in bytes, which are UTF-8 wherever the text is Unicode.
pub uninterp spec fn path_bytes(path: PathBuf) -> Seq<u8>;

/// The byte is a letter, a digit, `-`, `_` or `.`, none of which ever separates the components
/// of a path.
pub open spec fn plain_byte(byte: u8) -> bool {
    ||| 0x61 <= byte <= 0x7a
    ||| 0x41 <= byte <= 0x5a
    ||| 0x30 <= byte <= 0x39
    ||| byte == 0x2d
    ||| byte == 0x5f
    ||| byte == 0x2e
}

/// The path is a single name on every machine: plain bytes, but neither `.` nor `..`.
pub open spec fn lone_name(bytes: Seq<u8>) -> bool {
    &&& bytes.len() > 0
    &&& forall|i: int| 0 <= i < bytes.len() ==> plain_byte(#[trigger] bytes[i])
    &&& bytes != seq![0x2eu8]
    &&& bytes != seq![0x2eu8, 0x2eu8]
}

/// The path has no name on any machine: it is empty or `..`.
pub open spec fn nameless(bytes: Seq<u8>) -> bool {
    bytes.len() == 0 || bytes == seq![0x2eu8, 0x2eu8]
}

/// `part` is a stretch of `bytes` that is not empty.
pub open spec fn stretch_of(part: Seq<u8>, bytes: Seq<u8>) -> bool {
    exists|i: int, j: int|
        0 <= i < j <= bytes.len() && part == #[trigger] bytes.subrange(i, j)
}

/// `Path::file_name`: the last component of a path, if that is a name. It is a stretch of the
/// path, all of it where the path is a lone name; an empty path and `..` have none. What
/// separates components depends on the machine, so it is not stated which stretch of any other
/// path comes back.
#[verifier::external_body]
pub(crate) fn file_name(path: &PathBuf) -> (name: Option<PathBuf>)
    ensures
        name matches Some(name) ==> stretch_of(path_bytes(name), path_bytes(*path)),
        lone_name(path_bytes(*path)) ==> (name matches Some(name) && path_bytes(name)
            == path_bytes(*path)),
        nameless(path_bytes(*path)) ==> name is None,
{
    path.file_name().map(PathBuf::from)
}

/// `Path::file_name` gives `name` for `path`.
pub closed spec fn gives_file_name(path: PathBuf, name: Option<PathBuf>) -> bool {
    call_ensures(file_name, (&path,), name)
}

/// What [`file_name`] returned for `path` is its file name.
pub(crate) proof fn file_name_was_given(path: PathBuf, name: Option<PathBuf>)
    requires
        call_ensures(file_name, (&path,), name),
    ensures
        gives_file_name(path, name),
{
}

/// The file name of `path` is what [`file_name`] returns for it, and nothing else.
pub(crate) proof fn file_names_are_what_is_given(path: PathBuf, name: Option<PathBuf>)
    ensures
        gives_file_name(path, name) <==> call_ensures(file_name, (&path,), name),
{
}

/// A file name is a stretch of its path. A lone name is its own file name, and an empty path
/// and `..` have none.
pub proof fn file_names_stand_in_their_paths(path: PathBuf, name: Option<PathBuf>)
    requires
        gives_file_name(path, name),
    ensures
        name matches Some(name) ==> stretch_of(path_bytes(name), path_bytes(path)),
        lone_name(path_bytes(path)) ==> (name matches Some(name) && path_bytes(name)
            == path_bytes(path)),
        nameless(path_bytes(path)) ==> name is None,
{
    file_names_are_what_is_given(path, name);
}

/// `Path::to_str`: the text of a path, if it is Unicode, that is, if its bytes are UTF-8.
#[verifier::external_body]
pub(crate) fn path_text(path: &PathBuf) -> (text: Option<String>)
    ensures
        text is Some <==> vstd::utf8::valid_utf8(path_bytes(*path)),
        text matches Some(text) ==> vstd::utf8::encode_utf8(text@) == path_bytes(*path),
{
    path.to_str().map(String::from)
}

/// A lone name is Unicode.
pub proof fn lone_names_are_unicode(bytes: Seq<u8>)
    requires
        lone_name(bytes),
    ensures
        vstd::utf8::valid_utf8(bytes),
{
    let chars = Seq::new(bytes.len(), |i: int| bytes[i] as char);
    assert forall|i: int| 0 <= i < chars.len() implies (#[trigger] chars[i]) as u8 == bytes[i]
        && chars[i] as nat == bytes[i] by {
        assert(plain_byte(bytes[i]));
    }
    assert(vstd::utf8::is_ascii_chars(chars));
    vstd::utf8::is_ascii_chars_encode_utf8(chars);
    assert(vstd::utf8::encode_utf8(chars) =~= bytes);
    vstd::utf8::encode_utf8_valid_utf8(chars);
}

} // verus!
