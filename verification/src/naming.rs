//! Module names: a module is named after the directory that holds its build
//! file.

use vstd::prelude::*;
use vstd::string::*;

verus! {

/// The path without its final component, as `std::path::Path::parent` gives it
/// on the platform the library is built for; `None` where the path ends in a
/// root or is empty.
pub uninterp spec fn path_parent(path: Seq<char>) -> Option<Seq<char>>;

/// The final component of the path, as `std::path::Path::file_name` gives it on
/// the platform the library is built for; `None` where the path has none or
/// ends in `..`.
pub uninterp spec fn path_file_name(path: Seq<char>) -> Option<Seq<char>>;

/// `std::path::Path::parent` on a path given as text. The parent of such a
/// path is a part of the same text, so it is handed back as text; which part
/// is left to `path_parent`.
#[verifier::external_body]
fn parent_of(path: &str) -> (parent: Option<String>)
    ensures
        match parent {
            Some(p) => path_parent(path@) == Some(p@),
            None => path_parent(path@) is None,
        },
{
    match std::path::Path::new(path).parent() {
        Some(p) => Some(p.to_string_lossy().into_owned()),
        None => None,
    }
}

/// `std::path::Path::file_name` on a path given as text. The name is a part of
/// the same text, so it is handed back as text; which part is left to
/// `path_file_name`.
#[verifier::external_body]
fn file_name_of(path: &str) -> (name: Option<String>)
    ensures
        match name {
            Some(n) => path_file_name(path@) == Some(n@),
            None => path_file_name(path@) is None,
        },
{
    match std::path::Path::new(path).file_name() {
        Some(n) => Some(n.to_string_lossy().into_owned()),
        None => None,
    }
}

/// Why a build file's module has no name.
#[derive(Debug, Clone, Copy, PartialEq, Eq)]
pub enum NamingError {
    /// The path of the build file has no parent directory.
    NoParent,
    /// The parent directory has no name, as the root of the file system.
    NoName,
}

/// The module name of a build file's path: the name of its parent directory.
pub open spec fn module_name(path: Seq<char>) -> Result<Seq<char>, NamingError> {
    match path_parent(path) {
        None => Err(NamingError::NoParent),
        Some(parent) => match path_file_name(parent) {
            None => Err(NamingError::NoName),
            Some(name) => Ok(name),
        },
    }
}

/// Names the module that the build file at `path` belongs to.
pub fn infer_module_name(path: &str) -> (name: Result<String, NamingError>)
    ensures
        match name {
            Ok(n) => module_name(path@) == Ok::<Seq<char>, NamingError>(n@),
            Err(e) => module_name(path@) == Err::<Seq<char>, NamingError>(e),
        },
{
    match parent_of(path) {
        None => Err(NamingError::NoParent),
        Some(parent) => match file_name_of(parent.as_str()) {
            None => Err(NamingError::NoName),
            Some(name) => Ok(name),
        },
    }
}

} // verus!
