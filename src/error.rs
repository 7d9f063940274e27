use vstd::prelude::*;

verus! {

/// Every way in which a store operation can fail.
#[derive(Debug, PartialEq, Eq)]
pub enum StoreError {
    /// The filesystem reported a failure; the text describes it.
    IO(String),
    InvalidProject,
    InvalidVersion,
    /// A file name is not a single path component, or differs from the
    /// version's artifact.
    InvalidFile,
    /// A version directory holds zero or several entries.
    CorruptedVersion,
    UnprovidedAuthorization,
    UnauthorizedReader,
    UnauthorizedWriter,
    /// The version directory already holds an artifact.
    VersionAlreadyExists,
    /// Bad header encoding, an unknown authentication scheme, and the like.
    Other(String),
}

/// The text a caller shows for an error.
pub open spec fn error_text(e: StoreError) -> Seq<char> {
    match e {
        StoreError::IO(m) => m@,
        StoreError::InvalidProject => "invalid project name"@,
        StoreError::InvalidVersion => "invalid version name"@,
        StoreError::InvalidFile => "invalid file for version"@,
        StoreError::CorruptedVersion => "corrupted storage for version"@,
        StoreError::UnprovidedAuthorization => "did not provide authorization"@,
        StoreError::UnauthorizedReader => "unauthorized reader"@,
        StoreError::UnauthorizedWriter => "unauthorized writer"@,
        StoreError::VersionAlreadyExists => "version already exists"@,
        StoreError::Other(m) => m@,
    }
}

impl StoreError {
    /// A description of which invariant was violated.
    pub fn message(&self) -> (r: String)
        ensures
            r@ == error_text(*self),
    {
        match self {
            StoreError::IO(m) => m.clone(),
            StoreError::InvalidProject => String::from_str("invalid project name"),
            StoreError::InvalidVersion => String::from_str("invalid version name"),
            StoreError::InvalidFile => String::from_str("invalid file for version"),
            StoreError::CorruptedVersion => String::from_str("corrupted storage for version"),
            StoreError::UnprovidedAuthorization => String::from_str("did not provide authorization"),
            StoreError::UnauthorizedReader => String::from_str("unauthorized reader"),
            StoreError::UnauthorizedWriter => String::from_str("unauthorized writer"),
            StoreError::VersionAlreadyExists => String::from_str("version already exists"),
            StoreError::Other(m) => m.clone(),
        }
    }
}

} // verus!
