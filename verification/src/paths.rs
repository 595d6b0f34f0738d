//! Where a request reads from and writes to: validation of the input entry,
//! the output path, and the place of the cached model file.
//!
//! Paths are taken apart and put together by `std::path`, in the path syntax
//! of the platform the library is built for.

use crate::error::RemoveBgError;
use vstd::prelude::*;
use vstd::string::StringExecFns;

verus! {

/// Where the model file is fetched from when it is not cached yet.
pub const MODEL_URL: &'static str =
    "https://github.com/danielgatis/rembg/releases/download/v0.0.0/u2net.onnx";

/// What `std::path::Path::extension` yields for a path, in the path syntax of
/// the platform the library is built for.
pub uninterp spec fn extension_of(path: Seq<char>) -> Option<Seq<char>>;

/// What `std::path::Path::with_extension` yields for a path and an extension.
pub uninterp spec fn with_extension_of(path: Seq<char>, extension: Seq<char>) -> Seq<char>;

/// What `std::path::Path::file_stem` yields for a path.
pub uninterp spec fn file_stem_of(path: Seq<char>) -> Option<Seq<char>>;

/// What `std::path::Path::parent` yields for a path.
pub uninterp spec fn parent_of(path: Seq<char>) -> Option<Seq<char>>;

/// What `std::path::Path::join` yields for a base and a path to append.
pub uninterp spec fn joined(base: Seq<char>, tail: Seq<char>) -> Seq<char>;

/// The text contains neither `/` nor `\`.
pub open spec fn no_separator(text: Seq<char>) -> bool {
    forall|i: int| 0 <= i < text.len() ==> text[i] != '/' && text[i] != '\\'
}

/// Calls `std::path::Path::extension`. Trusted: the result is the one the
/// standard library computes for this text; it is only given a name.
#[verifier::external_body]
fn path_extension(path: &str) -> (r: Option<String>)
    ensures
        match r {
            Some(e) => extension_of(path@) == Some(e@),
            None => extension_of(path@) is None,
        },
{
    std::path::Path::new(path).extension().map(|e| e.to_string_lossy().into_owned())
}

/// Calls `std::path::Path::with_extension`. Trusted: the result is the one
/// the standard library computes; an extension with a path separator in it,
/// on which the call panics, is excluded.
#[verifier::external_body]
fn path_with_extension(path: &str, extension: &str) -> (r: String)
    requires
        no_separator(extension@),
    ensures
        r@ == with_extension_of(path@, extension@),
{
    std::path::Path::new(path).with_extension(extension).to_string_lossy().into_owned()
}

/// Calls `std::path::Path::file_stem`. Trusted: the result is the one the
/// standard library computes for this text.
#[verifier::external_body]
fn path_file_stem(path: &str) -> (r: Option<String>)
    ensures
        match r {
            Some(s) => file_stem_of(path@) == Some(s@),
            None => file_stem_of(path@) is None,
        },
{
    std::path::Path::new(path).file_stem().map(|s| s.to_string_lossy().into_owned())
}

/// Calls `std::path::Path::parent`. Trusted: the result is the one the
/// standard library computes for this text.
#[verifier::external_body]
fn path_parent(path: &str) -> (r: Option<String>)
    ensures
        match r {
            Some(d) => parent_of(path@) == Some(d@),
            None => parent_of(path@) is None,
        },
{
    std::path::Path::new(path).parent().map(|d| d.to_string_lossy().into_owned())
}

/// Calls `std::path::Path::join`. Trusted: the result is the one the
/// standard library computes for these two texts.
#[verifier::external_body]
fn path_join(base: &str, tail: &str) -> (r: String)
    ensures
        r@ == joined(base@, tail@),
{
    std::path::Path::new(base).join(tail).to_string_lossy().into_owned()
}

/// The text of an optional string.
pub open spec fn text_of(s: Option<&str>) -> Option<Seq<char>> {
    match s {
        Some(t) => Some(t@),
        None => None,
    }
}

/// The directory a result is written to when no output path is given: the
/// input's parent, or the current directory where it has none.
pub open spec fn output_dir_of(input: Seq<char>) -> Seq<char> {
    match parent_of(input) {
        Some(dir) => dir,
        None => "."@,
    }
}

/// The path a result is written to, or `None` where the input has no file
/// name to derive one from.
///
/// A requested path keeps its text if its extension is `png` and otherwise
/// has its extension replaced by `png`. Without one, the result goes beside
/// the input, named after the input's stem with `_nobg.png` appended.
pub open spec fn output_path_of(input: Seq<char>, output: Option<Seq<char>>) -> Option<Seq<char>> {
    match output {
        Some(path) => if extension_of(path) == Some("png"@) {
            Some(path)
        } else {
            Some(with_extension_of(path, "png"@))
        },
        None => match file_stem_of(input) {
            Some(stem) => Some(joined(output_dir_of(input), stem + "_nobg.png"@)),
            None => None,
        },
    }
}

/// The error for an input path that has no file stem.
pub open spec fn no_stem(e: RemoveBgError) -> bool {
    e is ProcessingError && e->ProcessingError_0@ == "Invalid input filename"@
}

/// The error for a home directory that cannot be determined.
pub open spec fn no_home(e: RemoveBgError) -> bool {
    e is ModelInitError && e->ModelInitError_0@ == "Could not determine home directory"@
}

/// Whether a requested output path with the given extension is kept as it
/// is: only where the extension is `png`.
pub fn keeps_path(extension: Option<&str>) -> (keep: bool)
    ensures
        keep == (text_of(extension) == Some("png"@)),
{
    match extension {
        Some(e) => e.to_owned() == "png".to_owned(),
        None => false,
    }
}

/// The file name of the result for an input with the given stem.
pub fn default_name(stem: &str) -> (name: String)
    ensures
        name@ == stem@ + "_nobg.png"@,
{
    stem.to_owned().concat("_nobg.png")
}

/// The directory the result goes to for an input with the given parent: the
/// parent, or the current directory where there is none.
pub fn default_dir(parent: Option<&str>) -> (dir: String)
    ensures
        dir@ == match text_of(parent) {
            Some(d) => d,
            None => "."@,
        },
{
    match parent {
        Some(d) => d.to_owned(),
        None => ".".to_owned(),
    }
}

/// Computes the path a result is written to; fails with `ProcessingError`
/// exactly when no output path is given and the input has no file stem.
pub fn derive_output_path(input_path: &str, output_path: Option<&str>) -> (r: Result<
    String,
    RemoveBgError,
>)
    ensures
        match output_path_of(input_path@, text_of(output_path)) {
            Some(path) => r is Ok && r->Ok_0@ == path,
            None => r is Err && no_stem(r->Err_0),
        },
{
    match output_path {
        Some(path) => {
            let extension = path_extension(path);
            let keep = match &extension {
                Some(e) => keeps_path(Some(e.as_str())),
                None => keeps_path(None),
            };
            if keep {
                Ok(path.to_owned())
            } else {
                proof {
                    reveal_strlit("png");
                }
                Ok(path_with_extension(path, "png"))
            }
        },
        None => {
            match path_file_stem(input_path) {
                Some(stem) => {
                    let name = default_name(stem.as_str());
                    let parent = path_parent(input_path);
                    let dir = match &parent {
                        Some(d) => default_dir(Some(d.as_str())),
                        None => default_dir(None),
                    };
                    Ok(path_join(dir.as_str(), name.as_str()))
                },
                None => Err(RemoveBgError::ProcessingError("Invalid input filename".to_owned())),
            }
        },
    }
}

/// What the file system holds at the input path.
#[derive(Clone, Copy, Debug, PartialEq, Eq)]
pub enum InputEntry {
    /// Nothing exists at the path.
    Missing,
    /// Something exists that is not a regular file, such as a directory.
    NotRegular,
    /// A regular file.
    RegularFile,
}

/// Decides whether a request can go ahead and, if so, where its result is
/// written.
///
/// A missing input is refused with `FileNotFound` and an input that is not a
/// regular file with `NotAFile`, both carrying the input path. Otherwise the
/// outcome is that of `derive_output_path`.
pub fn remove_background(input_path: &str, output_path: Option<&str>, entry: InputEntry) -> (r:
    Result<String, RemoveBgError>)
    ensures
        entry is Missing ==> r is Err && r->Err_0 is FileNotFound && r->Err_0->FileNotFound_0@
            == input_path@,
        entry is NotRegular ==> r is Err && r->Err_0 is NotAFile && r->Err_0->NotAFile_0@
            == input_path@,
        entry is RegularFile ==> match output_path_of(input_path@, text_of(output_path)) {
            Some(path) => r is Ok && r->Ok_0@ == path,
            None => r is Err && no_stem(r->Err_0),
        },
{
    match entry {
        InputEntry::Missing => Err(RemoveBgError::FileNotFound(input_path.to_owned())),
        InputEntry::NotRegular => Err(RemoveBgError::NotAFile(input_path.to_owned())),
        InputEntry::RegularFile => derive_output_path(input_path, output_path),
    }
}

/// The directory that caches the model below the home directory `home`.
pub open spec fn model_dir_of(home: Seq<char>) -> Seq<char> {
    joined(home, ".u2net"@)
}

/// The cached model file below the home directory `home`.
pub open spec fn model_path_of(home: Seq<char>) -> Seq<char> {
    joined(model_dir_of(home), "u2net.onnx"@)
}

/// The directory that caches the model; fails with `ModelInitError` exactly
/// when no home directory is known.
pub fn get_model_dir(home: Option<&str>) -> (r: Result<String, RemoveBgError>)
    ensures
        match home {
            Some(h) => r is Ok && r->Ok_0@ == model_dir_of(h@),
            None => r is Err && no_home(r->Err_0),
        },
{
    match home {
        Some(h) => Ok(path_join(h, ".u2net")),
        None => Err(
            RemoveBgError::ModelInitError("Could not determine home directory".to_owned()),
        ),
    }
}

/// The path of the cached model file; fails with `ModelInitError` exactly
/// when no home directory is known.
pub fn get_model_path(home: Option<&str>) -> (r: Result<String, RemoveBgError>)
    ensures
        match home {
            Some(h) => r is Ok && r->Ok_0@ == model_path_of(h@),
            None => r is Err && no_home(r->Err_0),
        },
{
    match get_model_dir(home) {
        Ok(dir) => Ok(path_join(dir.as_str(), "u2net.onnx")),
        Err(e) => Err(e),
    }
}

} // verus!
