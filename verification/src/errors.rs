use vstd::prelude::*;

verus! {

/// The error taxonomy of the catalog.
///
/// Every content-resolution failure collapses into `FileNotFound` on purpose:
/// a caller must not be able to distinguish "exists but forbidden" from
/// "does not exist".  `DuplicateName` and `MissingPath` can only arise while
/// the registry is being populated at startup.
#[derive(Clone, Copy, Debug, PartialEq, Eq, Structural)]
pub enum AppError {
    /// No library is registered under the requested name.
    LibraryNotFound,
    /// Query preparation or execution against the metadata store failed.
    Db,
    /// The requested content path is missing, escapes the library root,
    /// sits directly at the root, or is a directory.
    FileNotFound,
    /// A filesystem operation other than a missing entry failed.
    Filesystem,
    /// Two libraries were registered under the same name.
    DuplicateName,
    /// A library name arrived without a matching path, or the other way round.
    MissingPath,
    /// A library root path is not a canonical absolute directory path.
    BadRootPath,
}

/// The human-readable description of each error.
pub open spec fn message_of(e: AppError) -> Seq<char> {
    match e {
        AppError::LibraryNotFound => "The library could not be found"@,
        AppError::Db => "Internal server error"@,
        AppError::FileNotFound => "File does not exist"@,
        AppError::Filesystem => "Internal server error"@,
        AppError::DuplicateName => "library names must be unique"@,
        AppError::MissingPath => "each library name must have a corresponding path"@,
        AppError::BadRootPath => "library root must be a canonical absolute path"@,
    }
}

impl AppError {
    /// The error used for every rejected content request.
    pub fn file_not_found() -> (r: AppError)
        ensures
            r == AppError::FileNotFound,
    {
        AppError::FileNotFound
    }

    /// A plain-text description suitable for an error response body.
    pub fn message(&self) -> (r: &'static str)
        ensures
            r@ == message_of(*self),
    {
        match self {
            AppError::LibraryNotFound => "The library could not be found",
            AppError::Db => "Internal server error",
            AppError::FileNotFound => "File does not exist",
            AppError::Filesystem => "Internal server error",
            AppError::DuplicateName => "library names must be unique",
            AppError::MissingPath => "each library name must have a corresponding path",
            AppError::BadRootPath => "library root must be a canonical absolute path",
        }
    }
}

} // verus!
