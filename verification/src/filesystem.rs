//! Paths and the decisions taken on what the filesystem holds. Paths are
//! UTF-8 text; the path operations are those of `std::path::Path`.
use vstd::prelude::*;
use vstd::string::StringExecFns;

verus! {

/// What `std::path::Path::file_name` gives for `path`.
pub uninterp spec fn spec_path_file_name(path: Seq<char>) -> Option<Seq<char>>;

/// What `std::path::Path::file_stem` gives for `path`.
pub uninterp spec fn spec_path_file_stem(path: Seq<char>) -> Option<Seq<char>>;

/// What `std::path::Path::extension` gives for `path`.
pub uninterp spec fn spec_path_extension(path: Seq<char>) -> Option<Seq<char>>;

/// What `std::path::Path::parent` gives for `path`.
pub uninterp spec fn spec_path_parent(path: Seq<char>) -> Option<Seq<char>>;

/// What `std::path::Path::join` gives for `base` and `child`.
pub uninterp spec fn spec_path_join(base: Seq<char>, child: Seq<char>) -> Seq<char>;

/// What `std::path::Path::with_file_name` gives for `path` and `name`.
pub uninterp spec fn spec_path_with_file_name(path: Seq<char>, name: Seq<char>) -> Seq<char>;

/// Calls `std::path::Path::file_name`. The contract claims that the result
/// depends on the path alone. A part of a UTF-8 path is UTF-8, so the
/// conversion back to text loses nothing.
#[verifier::external_body]
fn path_file_name(path: &str) -> (r: Option<String>)
    ensures
        r is Some <==> spec_path_file_name(path@) is Some,
        r matches Some(n) ==> spec_path_file_name(path@) == Some(n@),
{
    match std::path::Path::new(path).file_name() {
        Some(n) => Some(n.to_string_lossy().into_owned()),
        None => None,
    }
}

/// Calls `std::path::Path::file_stem`. The contract claims that the result
/// depends on the path alone, and, as the documentation says, that there is
/// a stem exactly when there is a file name.
#[verifier::external_body]
fn path_file_stem(path: &str) -> (r: Option<String>)
    ensures
        r is Some <==> spec_path_file_stem(path@) is Some,
        r matches Some(n) ==> spec_path_file_stem(path@) == Some(n@),
        r is Some <==> spec_path_file_name(path@) is Some,
{
    match std::path::Path::new(path).file_stem() {
        Some(n) => Some(n.to_string_lossy().into_owned()),
        None => None,
    }
}

/// Calls `std::path::Path::extension`. The contract claims that the result
/// depends on the path alone, and, as the documentation says, that there is
/// no extension without a file name.
#[verifier::external_body]
fn path_extension(path: &str) -> (r: Option<String>)
    ensures
        r is Some <==> spec_path_extension(path@) is Some,
        r matches Some(n) ==> spec_path_extension(path@) == Some(n@),
        r is Some ==> spec_path_file_name(path@) is Some,
{
    match std::path::Path::new(path).extension() {
        Some(n) => Some(n.to_string_lossy().into_owned()),
        None => None,
    }
}

/// Calls `std::path::Path::parent`. The contract claims that the result
/// depends on the path alone.
#[verifier::external_body]
fn path_parent(path: &str) -> (r: Option<String>)
    ensures
        r is Some <==> spec_path_parent(path@) is Some,
        r matches Some(n) ==> spec_path_parent(path@) == Some(n@),
{
    match std::path::Path::new(path).parent() {
        Some(n) => Some(n.to_string_lossy().into_owned()),
        None => None,
    }
}

/// Calls `std::path::Path::join`. The contract claims that the result
/// depends on the two paths alone.
#[verifier::external_body]
pub(crate) fn path_join(base: &str, child: &str) -> (r: String)
    ensures
        r@ == spec_path_join(base@, child@),
{
    std::path::Path::new(base).join(child).to_string_lossy().into_owned()
}

/// Calls `std::path::Path::with_file_name`. The contract claims that the
/// result depends on the arguments alone.
#[verifier::external_body]
pub(crate) fn with_file_name(path: &str, name: &str) -> (r: String)
    ensures
        r@ == spec_path_with_file_name(path@, name@),
{
    std::path::Path::new(path).with_file_name(name).to_string_lossy().into_owned()
}

/// A filesystem operation that failed, and the path it was about.
#[derive(Debug, Clone, PartialEq, Eq)]
pub enum FilesystemIOErrorKind {
    CouldntCheckIfExists(String),
    CouldntReadDirectory(String),
    CouldntReadDirectoryNextEntry(String),
    CouldntGetFileType(String),
    CouldntGetCanonical(String),
    CouldntCreateDirectory(String),
    CouldntCopyFile { from: String, to: String },
    CouldntMove { from: String, to: String },
    CouldntRemoveFile(String),
    CouldntRemoveEmptyDir(String),
    CouldntRemoveDirWithContents(String),
    CouldntReadPathMetadata(String),
    CouldntReadFileMetadata,
    CouldntSetPermissions(String),
    CouldntOpenFile(String),
    SetFileLength(u64),
    SyncFile,
    CouldntFillBuffer,
    CouldntWriteBuffer,
    CouldnSpawnProcess,
    CouldntWaitForChild,
}

/// A filesystem error that isn't an operation failing.
#[derive(Debug, Clone, PartialEq, Eq)]
pub enum OtherFilesystemErrorKind {
    InvalidUnicodeOsStr(String),
    PathWithoutFilename(String),
    PathWithoutExtension(String),
    PathWithoutParent(String),
    ShouldBeAFolder(String),
    ShouldBeEmpty(String),
    RefusingToRemoveFolder(String),
}

/// A filesystem error: an operation that failed (with the system's
/// description of the failure) or another error.
#[derive(Debug, Clone, PartialEq, Eq)]
pub enum FilesystemError {
    IOError { kind: FilesystemIOErrorKind, error: String },
    OtherError(OtherFilesystemErrorKind),
}

/// Whether `e` is the error of a path, `path`, that has no file name.
pub open spec fn is_without_file_name(e: FilesystemError, path: Seq<char>) -> bool {
    e matches FilesystemError::OtherError(OtherFilesystemErrorKind::PathWithoutFilename(p)) && p@
        == path
}

/// Whether `e` is the error of a path, `path`, that has no parent.
pub open spec fn is_without_parent(e: FilesystemError, path: Seq<char>) -> bool {
    e matches FilesystemError::OtherError(OtherFilesystemErrorKind::PathWithoutParent(p)) && p@
        == path
}

/// The file name of `path`.
pub fn get_file_name(path: &str) -> (r: Result<String, FilesystemError>)
    ensures
        match spec_path_file_name(path@) {
            Some(n) => r matches Ok(x) && x@ == n,
            None => r matches Err(FilesystemError::OtherError(
                OtherFilesystemErrorKind::PathWithoutFilename(p),
            )) && p@ == path@,
        },
{
    match path_file_name(path) {
        Some(n) => Ok(n),
        None => Err(
            FilesystemError::OtherError(
                OtherFilesystemErrorKind::PathWithoutFilename(String::from_str(path)),
            ),
        ),
    }
}

/// The stem (the file name without its extension) of `path`.
pub fn get_file_stem(path: &str) -> (r: Result<String, FilesystemError>)
    ensures
        spec_path_file_stem(path@) is Some <==> spec_path_file_name(path@) is Some,
        match spec_path_file_stem(path@) {
            Some(n) => r matches Ok(x) && x@ == n,
            None => r matches Err(FilesystemError::OtherError(
                OtherFilesystemErrorKind::PathWithoutFilename(p),
            )) && p@ == path@,
        },
{
    match path_file_stem(path) {
        Some(n) => Ok(n),
        None => Err(
            FilesystemError::OtherError(
                OtherFilesystemErrorKind::PathWithoutFilename(String::from_str(path)),
            ),
        ),
    }
}

/// The extension of `path`.
pub fn get_file_extension(path: &str) -> (r: Result<String, FilesystemError>)
    ensures
        match spec_path_extension(path@) {
            Some(n) => r matches Ok(x) && x@ == n,
            None => r matches Err(FilesystemError::OtherError(
                OtherFilesystemErrorKind::PathWithoutExtension(p),
            )) && p@ == path@,
        },
        spec_path_extension(path@) is Some ==> spec_path_file_name(path@) is Some,
{
    match path_extension(path) {
        Some(n) => Ok(n),
        None => Err(
            FilesystemError::OtherError(
                OtherFilesystemErrorKind::PathWithoutExtension(String::from_str(path)),
            ),
        ),
    }
}

/// The parent of `path`.
pub fn parent(path: &str) -> (r: Result<String, FilesystemError>)
    ensures
        match spec_path_parent(path@) {
            Some(n) => r matches Ok(x) && x@ == n,
            None => r matches Err(FilesystemError::OtherError(
                OtherFilesystemErrorKind::PathWithoutParent(p),
            )) && p@ == path@,
        },
{
    match path_parent(path) {
        Some(n) => Ok(n),
        None => Err(
            FilesystemError::OtherError(
                OtherFilesystemErrorKind::PathWithoutParent(String::from_str(path)),
            ),
        ),
    }
}

/// What the filesystem holds at a path, as far as the decisions below need
/// to know.
#[derive(Debug, Clone, Copy, PartialEq, Eq)]
pub enum PathState {
    /// Nothing is there.
    Missing,
    /// Something other than a directory is there.
    NotADirectory,
    /// A directory is there; `empty` says whether it has no entries.
    Directory { empty: bool },
}

/// Whether the path is a directory: `None` when nothing is there.
pub fn is_dir(state: PathState) -> (r: Option<bool>)
    ensures
        r == match state {
            PathState::Missing => None,
            PathState::NotADirectory => Some(false),
            PathState::Directory { .. } => Some(true),
        },
{
    match state {
        PathState::Missing => None,
        PathState::NotADirectory => Some(false),
        PathState::Directory { .. } => Some(true),
    }
}

/// Whether the folder `folder` is empty: a missing folder counts as empty,
/// and something other than a folder is an error.
pub fn is_folder_empty(folder: &str, state: PathState) -> (r: Result<bool, FilesystemError>)
    ensures
        match state {
            PathState::Missing => r == Ok::<bool, FilesystemError>(true),
            PathState::NotADirectory => r matches Err(FilesystemError::OtherError(
                OtherFilesystemErrorKind::ShouldBeAFolder(p),
            )) && p@ == folder@,
            PathState::Directory { empty } => r == Ok::<bool, FilesystemError>(empty),
        },
{
    match is_dir(state) {
        None => Ok(true),
        Some(false) => Err(
            FilesystemError::OtherError(
                OtherFilesystemErrorKind::ShouldBeAFolder(String::from_str(folder)),
            ),
        ),
        Some(true) => match state {
            PathState::Directory { empty } => Ok(empty),
            _ => Ok(true),
        },
    }
}

/// Succeeds when `path` is a folder.
pub fn ensure_is_dir(path: &str, state: PathState) -> (r: Result<(), FilesystemError>)
    ensures
        state is Directory ==> r is Ok,
        !(state is Directory) ==> (r matches Err(FilesystemError::OtherError(
            OtherFilesystemErrorKind::ShouldBeAFolder(p),
        )) && p@ == path@),
{
    if is_dir(state) == Some(true) {
        Ok(())
    } else {
        Err(
            FilesystemError::OtherError(
                OtherFilesystemErrorKind::ShouldBeAFolder(String::from_str(path)),
            ),
        )
    }
}

/// Succeeds when nothing is at `path` or it is an empty folder.
pub fn ensure_is_empty(path: &str, state: PathState) -> (r: Result<(), FilesystemError>)
    ensures
        match state {
            PathState::Missing => r is Ok,
            PathState::Directory { empty: true } => r is Ok,
            PathState::Directory { empty: false } => r matches Err(FilesystemError::OtherError(
                OtherFilesystemErrorKind::ShouldBeEmpty(p),
            )) && p@ == path@,
            PathState::NotADirectory => r matches Err(FilesystemError::OtherError(
                OtherFilesystemErrorKind::ShouldBeAFolder(p),
            )) && p@ == path@,
        },
{
    if is_folder_empty(path, state)? {
        Ok(())
    } else {
        Err(
            FilesystemError::OtherError(
                OtherFilesystemErrorKind::ShouldBeEmpty(String::from_str(path)),
            ),
        )
    }
}

/// The permission bits that make a file executable by its owner, its group
/// and everyone else.
pub const EXECUTE_BITS: u32 = 0o111;

/// The mode that makes a file with mode `mode` executable: `None` when all
/// its execute bits are already set and nothing needs to change.
pub fn executable_mode(mode: u32) -> (r: Option<u32>)
    ensures
        r == (if mode & EXECUTE_BITS == EXECUTE_BITS {
            None::<u32>
        } else {
            Some(mode | EXECUTE_BITS)
        }),
{
    if mode & EXECUTE_BITS == EXECUTE_BITS {
        None
    } else {
        Some(mode | EXECUTE_BITS)
    }
}

} // verus!
