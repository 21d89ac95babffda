//! Where the backend's working directory is, seen from the shell's executable.

use std::path::PathBuf;
use vstd::prelude::*;
use vstd::string::StringExecFns;

verus! {

/// `std::path::PathBuf`: a path as the host has it from the operating
/// system. The library hands paths on without looking inside, so a path
/// that is not valid Unicode goes through unchanged.
#[verifier::external_type_specification]
#[verifier::external_body]
pub struct ExPathBuf(PathBuf);

/// The bytes that a path holds, in the encoding of the platform the library
/// is built for.
pub uninterp spec fn path_bytes(path: PathBuf) -> Seq<u8>;

/// The containing directory of the path that holds the bytes `path`, in the
/// path syntax of the platform the library is built for: what
/// `std::path::Path::parent` returns. `None` where the path has no
/// containing directory (it is empty, or ends in a root or prefix).
pub uninterp spec fn path_parent(path: Seq<u8>) -> Option<Seq<u8>>;

/// The path that holds the bytes `base`, extended by the path written as
/// `part`, in the path syntax of the platform the library is built for: what
/// `std::path::Path::join` returns.
pub uninterp spec fn path_join(base: Seq<u8>, part: Seq<char>) -> Seq<u8>;

/// The path that holds the bytes `path` as `{:?}` formats it: quoted, and
/// with escapes for what cannot be shown as it is.
pub uninterp spec fn path_debug(path: Seq<u8>) -> Seq<char>;

/// The bytes of an optional path.
pub open spec fn bytes_of(path: Option<PathBuf>) -> Option<Seq<u8>> {
    match path {
        Some(path) => Some(path_bytes(path)),
        None => None,
    }
}

/// Calls `std::path::Path::parent` and hands the containing directory back
/// as a path of its own. Trusted: the result is the one that `path_parent`
/// names, `None` where the call returns `None`.
#[verifier::external_body]
fn parent_of(path: &PathBuf) -> (parent: Option<PathBuf>)
    ensures
        bytes_of(parent) == path_parent(path_bytes(*path)),
{
    match path.parent() {
        Some(dir) => Some(dir.to_path_buf()),
        None => None,
    }
}

/// Calls `std::path::Path::join`. Trusted: the result is the one that
/// `path_join` names.
#[verifier::external_body]
fn joined(base: &PathBuf, part: &str) -> (path: PathBuf)
    ensures
        path_bytes(path) == path_join(path_bytes(*base), part@),
{
    base.join(part)
}

/// Formats the path with `{:?}`, std's `Debug` for paths. Trusted: the
/// result is the one that `path_debug` names.
#[verifier::external_body]
fn debug_form(path: &PathBuf) -> (text: String)
    ensures
        text@ == path_debug(path_bytes(*path)),
{
    format!("{:?}", path)
}

/// Why the backend's working directory could not be found.
#[derive(Clone, Debug, PartialEq, Eq)]
pub enum PathResolutionError {
    /// The host could not tell where the shell's executable is; the text is
    /// the cause it gave.
    ExecutableUnknown(String),
    /// The executable's path has no containing directory.
    NoContainingDirectory,
}

impl PathResolutionError {
    /// What the operator is told about the error.
    pub open spec fn spec_message(self) -> Seq<char> {
        match self {
            PathResolutionError::ExecutableUnknown(cause) => "Failed to get exe path: "@ + cause@,
            PathResolutionError::NoContainingDirectory => "Failed to get parent dir"@,
        }
    }

    /// The error as a line for the operator.
    pub fn message(&self) -> (text: String)
        ensures
            text@ == self.spec_message(),
    {
        match self {
            PathResolutionError::ExecutableUnknown(cause) => "Failed to get exe path: ".to_owned()
                .concat(cause.as_str()),
            PathResolutionError::NoContainingDirectory => "Failed to get parent dir".to_owned(),
        }
    }
}

/// One step of the fixed way from the executable's directory to the backend:
/// up to the parent directory.
pub open spec fn spec_step_up() -> Seq<char> {
    ".."@
}

/// Where the backend's working directory is, seen from the containing
/// directory of the shell's executable: that directory extended twice by a
/// step up. Without a containing directory there is no answer.
pub open spec fn spec_root_from_directory(dir: Option<Seq<u8>>) -> Result<
    Seq<u8>,
    PathResolutionError,
> {
    match dir {
        Some(dir) => Ok(path_join(path_join(dir, spec_step_up()), spec_step_up())),
        None => Err(PathResolutionError::NoContainingDirectory),
    }
}

/// What resolving answers for each executable path, and for each cause for
/// which the path is not known.
pub open spec fn spec_resolve(exe: Result<Seq<u8>, String>) -> Result<
    Seq<u8>,
    PathResolutionError,
> {
    match exe {
        Ok(exe) => spec_root_from_directory(path_parent(exe)),
        Err(cause) => Err(PathResolutionError::ExecutableUnknown(cause)),
    }
}

/// The bytes of the executable's path, or the cause as it is.
pub open spec fn exe_bytes(exe: Result<PathBuf, String>) -> Result<Seq<u8>, String> {
    match exe {
        Ok(path) => Ok(path_bytes(path)),
        Err(cause) => Err(cause),
    }
}

/// The bytes of a resolved directory, or the error as it is.
pub open spec fn resolved_bytes(r: Result<PathBuf, PathResolutionError>) -> Result<
    Seq<u8>,
    PathResolutionError,
> {
    match r {
        Ok(root) => Ok(path_bytes(root)),
        Err(e) => Err(e),
    }
}

/// The backend's working directory, from the containing directory of the
/// shell's executable; `None` stands for an executable that has no
/// containing directory.
pub fn root_from_directory(dir: &Option<PathBuf>) -> (root: Result<PathBuf, PathResolutionError>)
    ensures
        resolved_bytes(root) == spec_root_from_directory(bytes_of(*dir)),
{
    match dir {
        Some(dir) => {
            let up_once = joined(dir, "..");
            Ok(joined(&up_once, ".."))
        },
        None => Err(PathResolutionError::NoContainingDirectory),
    }
}

/// Finds the backend's working directory from the path of the shell's
/// executable; `Err` stands for an executable whose path the host could not
/// determine, with the cause.
///
/// The answer depends on the path alone: whenever and wherever it is asked,
/// the same path gets the same directory or the same error. The current
/// directory, the environment and the file system play no part.
pub fn resolve_backend_root(exe_path: &Result<PathBuf, String>) -> (root: Result<
    PathBuf,
    PathResolutionError,
>)
    ensures
        resolved_bytes(root) == spec_resolve(exe_bytes(*exe_path)),
{
    match exe_path {
        Ok(exe) => {
            let dir = parent_of(exe);
            root_from_directory(&dir)
        },
        Err(cause) => Err(PathResolutionError::ExecutableUnknown(cause.clone())),
    }
}

/// The line that tells the operator where the backend is started: the
/// directory as `{:?}` formats it, after a fixed beginning.
pub open spec fn spec_starting_line(root: Seq<u8>) -> Seq<char> {
    "Starting FastAPI backend from: "@ + path_debug(root)
}

/// The line that tells the operator where the backend is started.
pub fn starting_line(root: &PathBuf) -> (text: String)
    ensures
        text@ == spec_starting_line(path_bytes(*root)),
{
    let shown = debug_form(root);
    "Starting FastAPI backend from: ".to_owned().concat(shown.as_str())
}

/// Resolving is repeatable: two executable paths that hold the same bytes,
/// asked at any two moments, get the same directory or the same error.
pub proof fn lemma_resolution_is_repeatable(
    first_path: Result<PathBuf, String>,
    first: Result<PathBuf, PathResolutionError>,
    second_path: Result<PathBuf, String>,
    second: Result<PathBuf, PathResolutionError>,
)
    requires
        exe_bytes(first_path) == exe_bytes(second_path),
        resolved_bytes(first) == spec_resolve(exe_bytes(first_path)),
        resolved_bytes(second) == spec_resolve(exe_bytes(second_path)),
    ensures
        resolved_bytes(first) == resolved_bytes(second),
        first is Ok <==> second is Ok,
{
}

} // verus!
