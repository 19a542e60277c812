//! Format resolution: whether the bytes of a file are gzip, told from its
//! name alone.
//!
//! The decision goes by the extension of the file's name: `gz` means gzip,
//! anything else, or no extension, means plain text. The content is never
//! looked at.

use vstd::prelude::*;
use crate::text::text_eq;

verus! {

/// The name of the file that a path leads to, as `std::path::Path::file_name`
/// tells it: the last component of the path, or `None` where the path ends
/// in the root or in `..`.
pub uninterp spec fn path_file_name(path: Seq<char>) -> Option<Seq<char>>;

/// `i` is the place of the last dot in `name`.
pub open spec fn is_last_dot(name: Seq<char>, i: int) -> bool {
    &&& 0 <= i < name.len()
    &&& name[i] == '.'
    &&& forall|j: int| i < j < name.len() ==> name[j] != '.'
}

/// The extension of a file's name: what follows its last dot. A name without
/// a dot has none, and neither has one whose only dot is its first
/// character.
pub open spec fn name_extension(name: Seq<char>) -> Option<Seq<char>> {
    if exists|i: int| 0 < i && is_last_dot(name, i) {
        Some(name.skip((choose|i: int| 0 < i && is_last_dot(name, i)) + 1))
    } else {
        None
    }
}

/// The extension of the file that a path leads to.
pub open spec fn path_extension(path: Seq<char>) -> Option<Seq<char>> {
    match path_file_name(path) {
        Some(name) => name_extension(name),
        None => None,
    }
}

/// Takes the extension of a path with `std::path::Path::extension`.
///
/// Trusted: the extension is that of the path's file name, which is named
/// [`path_file_name`]: the part of it after its last dot, and none where the
/// name has no dot but perhaps a leading one. The path is text, so its
/// extension is text too, and the conversion back from the platform's string
/// type loses nothing.
#[verifier::external_body]
pub(crate) fn extension(path: &str) -> (ext: Option<&str>)
    ensures
        ext is Some ==> path_file_name(path@) is Some,
        match ext {
            Some(e) => path_extension(path@) == Some(e@),
            None => path_extension(path@) is None,
        },
{
    std::path::Path::new(path).extension().and_then(|ext| ext.to_str())
}

/// Whether an extension marks a file as gzip.
pub open spec fn marks_gzip(ext: Option<Seq<char>>) -> bool {
    ext == Some("gz"@)
}

/// Whether a path names a gzip file.
pub open spec fn names_gzip(path: Seq<char>) -> bool {
    marks_gzip(path_extension(path))
}

/// Whether a file's name ends in `.gz`, with something before the dot.
pub open spec fn has_gz_suffix(name: Seq<char>) -> bool {
    name.len() > 3 && name.subrange(name.len() - 3, name.len() as int) == ".gz"@
}

/// The last dot of a name is found at one place only.
proof fn lemma_last_dot_is_unique(name: Seq<char>, i: int, j: int)
    requires
        is_last_dot(name, i),
        is_last_dot(name, j),
    ensures
        i == j,
{
}

/// The extension marks gzip exactly for the names that end in `.gz` behind a
/// stem that is not empty. So `a.json.gz` is gzip, while `a.json`, `a.gz.json`,
/// `gz` and `.gz` are plain.
pub proof fn lemma_gz_suffix_decides(name: Seq<char>)
    ensures
        marks_gzip(name_extension(name)) == has_gz_suffix(name),
{
    reveal_strlit("gz");
    reveal_strlit(".gz");
    let gz = "gz"@;
    let dot_gz = ".gz"@;
    let n = name.len() as int;
    if has_gz_suffix(name) {
        let tail = name.subrange(n - 3, n);
        assert(tail[0] == dot_gz[0] && tail[1] == dot_gz[1] && tail[2] == dot_gz[2]);
        assert(is_last_dot(name, n - 3));
        let c = choose|i: int| 0 < i && is_last_dot(name, i);
        lemma_last_dot_is_unique(name, c, n - 3);
        assert(name.skip(n - 2) =~= gz);
    }
    if marks_gzip(name_extension(name)) {
        let c = choose|i: int| 0 < i && is_last_dot(name, i);
        let ext = name.skip(c + 1);
        assert(ext.len() == 2);
        assert(ext[0] == 'g' && ext[1] == 'z');
        assert(name.subrange(n - 3, n) =~= dot_gz);
    }
}

/// Decides from a file's extension whether the file is gzip.
pub fn is_gzip_extension(ext: Option<&str>) -> (gzip: bool)
    ensures
        gzip == marks_gzip(
            match ext {
                Some(e) => Some(e@),
                None => None,
            },
        ),
{
    match ext {
        Some(e) => text_eq(e, "gz"),
        None => false,
    }
}

/// Decides from a file's path whether the file is gzip: whether the name of
/// the file ends in `.gz`.
pub fn is_gzip_path(path: &str) -> (gzip: bool)
    ensures
        gzip == names_gzip(path@),
        gzip == match path_file_name(path@) {
            Some(name) => has_gz_suffix(name),
            None => false,
        },
{
    proof {
        if path_file_name(path@) is Some {
            lemma_gz_suffix_decides(path_file_name(path@)->0);
        }
    }
    is_gzip_extension(extension(path))
}

} // verus!
