use vstd::prelude::*;

verus! {

/// The typed error kinds returned by the engine's operations.
///
/// Every failure of a mutating operation is reported as one of these; no
/// error is ever swallowed or retried. Read-only queries never fail.
#[derive(Clone, Copy, Debug, PartialEq, Eq, Structural)]
pub enum Error {
    /// `hello` was called with a zero-length name.
    EmptyName,
    /// `hello` was called with a name longer than the effective character limit.
    NameTooLong,
    /// A privileged operation was called by a non-admin identity.
    Unauthorized,
    /// A privileged operation was called before `initialize`.
    NotInitialized,
    /// `initialize` was called a second time.
    AlreadyInitialized,
}

impl Error {
    /// The stable numeric code of this error kind, for cross-boundary reporting.
    pub open spec fn spec_code(self) -> u32 {
        match self {
            Error::EmptyName => 1u32,
            Error::NameTooLong => 2u32,
            Error::Unauthorized => 3u32,
            Error::NotInitialized => 4u32,
            Error::AlreadyInitialized => 5u32,
        }
    }

    /// Returns the stable numeric code of this error kind.
    pub fn code(&self) -> (c: u32)
        ensures
            c == self.spec_code(),
    {
        match self {
            Error::EmptyName => 1,
            Error::NameTooLong => 2,
            Error::Unauthorized => 3,
            Error::NotInitialized => 4,
            Error::AlreadyInitialized => 5,
        }
    }
}

} // verus!
