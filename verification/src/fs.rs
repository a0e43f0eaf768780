//! Atomic replacement of a file: the data is written to a temporary file beside it, which is
//! then renamed over it.

use vstd::prelude::*;

use crate::sources::{path_file_name, std_path_file_name};

verus! {

/// The parent of a path, as `std::path::Path::parent` gives it.
pub uninterp spec fn std_path_parent(path: Seq<char>) -> Option<Seq<char>>;

/// The path with its file name replaced, as `std::path::Path::with_file_name` gives it.
pub uninterp spec fn std_path_with_file_name(path: Seq<char>, name: Seq<char>) -> Seq<char>;

/// `Path::new(path).parent()`.
///
/// Trusted: calls `std::path::Path::parent`, a function of the path text alone (the path
/// without its last component; none for a root or an empty path); how std splits the path
/// is not restated here.
#[verifier::external_body]
fn path_parent(path: &str) -> (r: Option<String>)
    ensures
        match r {
            Some(p) => std_path_parent(path@) == Some(p@),
            None => std_path_parent(path@) is None,
        },
{
    std::path::Path::new(path).parent().map(|p| p.to_string_lossy().into_owned())
}

/// `Path::new(path).with_file_name(name)`.
///
/// Trusted: calls `std::path::Path::with_file_name`, a function of the two texts alone; how
/// std joins them is not restated here.
#[verifier::external_body]
fn path_with_file_name(path: &str, name: &str) -> (r: String)
    ensures
        r@ == std_path_with_file_name(path@, name@),
{
    std::path::Path::new(path).with_file_name(name).to_string_lossy().into_owned()
}

/// Why an atomic replacement failed.
#[derive(Clone, Debug)]
pub enum ErrorKind {
    /// Renaming the temporary file over the file failed, with the OS error number.
    AtomicReplace(i32),
    /// The path has no file name.
    NoFileName,
    /// The path has no parent.
    Parentless,
    /// The parent directory could not be opened, for this reason.
    OpenParent(String),
    /// The temporary file could not be created, for this reason.
    TempFileCreate(String),
    /// The temporary file could not be written, for this reason.
    TempFileWrite(String),
}

impl ErrorKind {
    /// The text of the error.
    pub fn message(&self) -> (r: &'static str)
        ensures
            self is AtomicReplace ==> r@ == "atomic replace failed"@,
            self is NoFileName ==> r@ == "has no file name"@,
            self is Parentless ==> r@ == "has no parent"@,
            self is OpenParent ==> r@ == "failed to open parent directory"@,
            self is TempFileCreate ==> r@ == "failed to create temporary file"@,
            self is TempFileWrite ==> r@ == "failed to write to temporary file"@,
    {
        match self {
            ErrorKind::AtomicReplace(_) => "atomic replace failed",
            ErrorKind::NoFileName => "has no file name",
            ErrorKind::Parentless => "has no parent",
            ErrorKind::OpenParent(_) => "failed to open parent directory",
            ErrorKind::TempFileCreate(_) => "failed to create temporary file",
            ErrorKind::TempFileWrite(_) => "failed to write to temporary file",
        }
    }
}

/// A failed atomic replacement of the file at `path`.
#[derive(Clone, Debug)]
pub struct Error {
    pub source: ErrorKind,
    pub path: String,
}

impl Error {
    /// The text of the error: "atomic replace of `path` failed".
    pub fn message(&self) -> (r: String)
        ensures
            r@ == "atomic replace of "@ + self.path@ + " failed"@,
    {
        let mut r = String::new();
        r.append("atomic replace of ");
        r.append(self.path.as_str());
        r.append(" failed");
        r
    }
}

/// The files that an atomic replacement uses: the directory that holds the file, the file's
/// name, and the name and path of the temporary file that is renamed over it.
#[derive(Clone, Debug)]
pub struct AtomicOverwrite {
    pub parent: String,
    pub file_name: String,
    pub temp_name: String,
    pub temp_path: String,
}

/// The directory that holds the file: the path's parent, or `.` for a bare file name.
pub open spec fn parent_dir(parent: Seq<char>) -> Seq<char> {
    if parent.len() == 0 {
        "."@
    } else {
        parent
    }
}

/// Plans the atomic replacement of the file at `source_path`: the data goes to
/// `<name>.partial` beside the file, which is then renamed over `<name>` in the parent
/// directory. A path without a parent or without a file name cannot be replaced.
pub fn atomic_overwrite(source_path: &str) -> (r: Result<AtomicOverwrite, Error>)
    ensures
        std_path_parent(source_path@) is None ==> (r matches Err(e) && e.source is Parentless
            && e.path@ == source_path@),
        std_path_parent(source_path@) is Some && std_path_file_name(source_path@) is None ==> (
        r matches Err(e) && e.source is NoFileName && e.path@ == source_path@),
        std_path_parent(source_path@) matches Some(parent) ==> (std_path_file_name(source_path@) matches Some(name)
            ==> (r matches Ok(plan) && plan.parent@ == parent_dir(parent) && plan.file_name@ == name
            && plan.temp_name@ == name + ".partial"@ && plan.temp_path@ == std_path_with_file_name(
            source_path@,
            name + ".partial"@,
        ))),
{
    let mut path = String::new();
    path.append(source_path);
    let parent = match path_parent(source_path) {
        Some(p) => p,
        None => return Err(Error { source: ErrorKind::Parentless, path }),
    };
    let parent = if parent.as_str().unicode_len() == 0 {
        let mut dot = String::new();
        dot.append(".");
        dot
    } else {
        parent
    };
    let file_name = match path_file_name(source_path) {
        Some(n) => n,
        None => return Err(Error { source: ErrorKind::NoFileName, path }),
    };
    let mut temp_name = file_name.clone();
    temp_name.append(".partial");
    let temp_path = path_with_file_name(source_path, temp_name.as_str());
    Ok(AtomicOverwrite { parent, file_name, temp_name, temp_path })
}

} // verus!
