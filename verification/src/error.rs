//! What can go wrong, and how a failure is shown to a client.

use vstd::prelude::*;

verus! {

/// A failure that reaches the caller of a request.
#[derive(Clone, Copy, Debug, PartialEq, Eq, Structural)]
pub enum JrnlError {
    /// The body of the request is no JSON of the expected shape.
    BadRequestSyntax,
    /// The store holds nothing of what was asked for.
    NoResultsFound,
    /// The user is a member of the group already.
    AlreadyGroupMember,
    /// A member cannot remove themselves from a group.
    CannotKickSelf,
    /// The user owns as many groups as one user may.
    CannotCreateMoreGroups,
    /// The user is in as many groups as one user may.
    CannotJoinMoreGroups,
    /// The sign-in with Google failed.
    GoogleAuthenticationError,
    /// The sign-in with Apple failed.
    AppleAuthenticationError,
    /// The store refused an operation.
    DatabaseError,
    /// Anything else went wrong inside the server.
    Other,
    /// The request carries no bearer token.
    BadAuthenticationHeader,
    /// The bearer token does not verify.
    InvalidToken,
    /// The bearer token has run out.
    ExpiredToken,
    /// The token names a user that the store does not know.
    ProfileNotFound,
    /// Sealing failed, or was asked of an entry that must never be sealed.
    EntryEncryptionFailed,
    /// A sealed entry did not authenticate, or its text is not UTF-8.
    EntryDecryptionFailed,
    /// A bulk import held more entries than the cap allows.
    TooManyEntries,
}

/// A failure that aborts a whole migration batch.
#[derive(Clone, Copy, Debug, PartialEq, Eq, Structural)]
pub enum MigrationError {
    /// One entry of the batch could not be sealed.
    EncryptionFailed,
    /// The store refused to begin, to claim, to write or to commit.
    PersistFailed,
}

/// HTTP status: the request is malformed or not allowed as it stands.
pub const STATUS_BAD_REQUEST: u16 = 400;

/// HTTP status: the caller is not signed in.
pub const STATUS_UNAUTHORIZED: u16 = 401;

/// HTTP status: the caller may not do this.
pub const STATUS_FORBIDDEN: u16 = 403;

/// HTTP status: nothing is there.
pub const STATUS_NOT_FOUND: u16 = 404;

/// HTTP status: the request clashes with what is there.
pub const STATUS_CONFLICT: u16 = 409;

/// HTTP status: the server failed.
pub const STATUS_INTERNAL_SERVER_ERROR: u16 = 500;

impl JrnlError {
    /// The HTTP status under which the failure is shown. A failure of the
    /// cipher or of the store is a failure of the server, and shows nothing of
    /// its cause.
    pub open spec fn spec_status(self) -> u16 {
        match self {
            JrnlError::BadRequestSyntax => STATUS_BAD_REQUEST,
            JrnlError::NoResultsFound => STATUS_NOT_FOUND,
            JrnlError::AlreadyGroupMember => STATUS_CONFLICT,
            JrnlError::CannotKickSelf => STATUS_BAD_REQUEST,
            JrnlError::CannotCreateMoreGroups => STATUS_FORBIDDEN,
            JrnlError::CannotJoinMoreGroups => STATUS_FORBIDDEN,
            JrnlError::GoogleAuthenticationError => STATUS_UNAUTHORIZED,
            JrnlError::AppleAuthenticationError => STATUS_UNAUTHORIZED,
            JrnlError::DatabaseError => STATUS_INTERNAL_SERVER_ERROR,
            JrnlError::Other => STATUS_INTERNAL_SERVER_ERROR,
            JrnlError::BadAuthenticationHeader => STATUS_UNAUTHORIZED,
            JrnlError::InvalidToken => STATUS_UNAUTHORIZED,
            JrnlError::ExpiredToken => STATUS_UNAUTHORIZED,
            JrnlError::ProfileNotFound => STATUS_NOT_FOUND,
            JrnlError::EntryEncryptionFailed => STATUS_INTERNAL_SERVER_ERROR,
            JrnlError::EntryDecryptionFailed => STATUS_INTERNAL_SERVER_ERROR,
            JrnlError::TooManyEntries => STATUS_BAD_REQUEST,
        }
    }

    /// The HTTP status under which the failure is shown.
    pub fn status(&self) -> (status: u16)
        ensures
            status == self.spec_status(),
    {
        match self {
            JrnlError::BadRequestSyntax => STATUS_BAD_REQUEST,
            JrnlError::NoResultsFound => STATUS_NOT_FOUND,
            JrnlError::AlreadyGroupMember => STATUS_CONFLICT,
            JrnlError::CannotKickSelf => STATUS_BAD_REQUEST,
            JrnlError::CannotCreateMoreGroups => STATUS_FORBIDDEN,
            JrnlError::CannotJoinMoreGroups => STATUS_FORBIDDEN,
            JrnlError::GoogleAuthenticationError => STATUS_UNAUTHORIZED,
            JrnlError::AppleAuthenticationError => STATUS_UNAUTHORIZED,
            JrnlError::DatabaseError => STATUS_INTERNAL_SERVER_ERROR,
            JrnlError::Other => STATUS_INTERNAL_SERVER_ERROR,
            JrnlError::BadAuthenticationHeader => STATUS_UNAUTHORIZED,
            JrnlError::InvalidToken => STATUS_UNAUTHORIZED,
            JrnlError::ExpiredToken => STATUS_UNAUTHORIZED,
            JrnlError::ProfileNotFound => STATUS_NOT_FOUND,
            JrnlError::EntryEncryptionFailed => STATUS_INTERNAL_SERVER_ERROR,
            JrnlError::EntryDecryptionFailed => STATUS_INTERNAL_SERVER_ERROR,
            JrnlError::TooManyEntries => STATUS_BAD_REQUEST,
        }
    }

    /// The name of the failure, as clients match on it.
    pub fn code(&self) -> (code: &'static str)
        ensures
            code@ == match self {
                JrnlError::BadRequestSyntax => "BadRequestSyntax"@,
                JrnlError::NoResultsFound => "NoResultsFound"@,
                JrnlError::AlreadyGroupMember => "AlreadyGroupMember"@,
                JrnlError::CannotKickSelf => "CannotKickSelf"@,
                JrnlError::CannotCreateMoreGroups => "CannotCreateMoreGroups"@,
                JrnlError::CannotJoinMoreGroups => "CannotJoinMoreGroups"@,
                JrnlError::GoogleAuthenticationError => "GoogleAuthenticationError"@,
                JrnlError::AppleAuthenticationError => "AppleAuthenticationError"@,
                JrnlError::DatabaseError => "DatabaseError"@,
                JrnlError::Other => "Other"@,
                JrnlError::BadAuthenticationHeader => "BadAuthenticationHeader"@,
                JrnlError::InvalidToken => "InvalidToken"@,
                JrnlError::ExpiredToken => "ExpiredToken"@,
                JrnlError::ProfileNotFound => "ProfileNotFound"@,
                JrnlError::EntryEncryptionFailed => "EntryEncryptionFailed"@,
                JrnlError::EntryDecryptionFailed => "EntryDecryptionFailed"@,
                JrnlError::TooManyEntries => "TooManyEntries"@,
            },
    {
        match self {
            JrnlError::BadRequestSyntax => "BadRequestSyntax",
            JrnlError::NoResultsFound => "NoResultsFound",
            JrnlError::AlreadyGroupMember => "AlreadyGroupMember",
            JrnlError::CannotKickSelf => "CannotKickSelf",
            JrnlError::CannotCreateMoreGroups => "CannotCreateMoreGroups",
            JrnlError::CannotJoinMoreGroups => "CannotJoinMoreGroups",
            JrnlError::GoogleAuthenticationError => "GoogleAuthenticationError",
            JrnlError::AppleAuthenticationError => "AppleAuthenticationError",
            JrnlError::DatabaseError => "DatabaseError",
            JrnlError::Other => "Other",
            JrnlError::BadAuthenticationHeader => "BadAuthenticationHeader",
            JrnlError::InvalidToken => "InvalidToken",
            JrnlError::ExpiredToken => "ExpiredToken",
            JrnlError::ProfileNotFound => "ProfileNotFound",
            JrnlError::EntryEncryptionFailed => "EntryEncryptionFailed",
            JrnlError::EntryDecryptionFailed => "EntryDecryptionFailed",
            JrnlError::TooManyEntries => "TooManyEntries",
        }
    }

    /// The failure in a few words, without its cause.
    pub fn message(&self) -> (message: &'static str)
        ensures
            message@ == match self {
                JrnlError::BadRequestSyntax => "bad json body"@,
                JrnlError::NoResultsFound => "no results found"@,
                JrnlError::AlreadyGroupMember => "already group member"@,
                JrnlError::CannotKickSelf => "cannot kick self"@,
                JrnlError::CannotCreateMoreGroups => "cannot create more than 10 groups"@,
                JrnlError::CannotJoinMoreGroups => "cannot join more than 20 groups"@,
                JrnlError::GoogleAuthenticationError => "google oauth authentication error"@,
                JrnlError::AppleAuthenticationError => "apple oauth authentication error"@,
                JrnlError::DatabaseError => "database error"@,
                JrnlError::Other => "other error occurred"@,
                JrnlError::BadAuthenticationHeader => "bad authentication header"@,
                JrnlError::InvalidToken => "invalid auth token"@,
                JrnlError::ExpiredToken => "expired auth token"@,
                JrnlError::ProfileNotFound => "failed to find profile"@,
                JrnlError::EntryEncryptionFailed => "failed to encrypt journal entry"@,
                JrnlError::EntryDecryptionFailed => "failed to decrypt journal entry"@,
                JrnlError::TooManyEntries => "too many entries"@,
            },
    {
        match self {
            JrnlError::BadRequestSyntax => "bad json body",
            JrnlError::NoResultsFound => "no results found",
            JrnlError::AlreadyGroupMember => "already group member",
            JrnlError::CannotKickSelf => "cannot kick self",
            JrnlError::CannotCreateMoreGroups => "cannot create more than 10 groups",
            JrnlError::CannotJoinMoreGroups => "cannot join more than 20 groups",
            JrnlError::GoogleAuthenticationError => "google oauth authentication error",
            JrnlError::AppleAuthenticationError => "apple oauth authentication error",
            JrnlError::DatabaseError => "database error",
            JrnlError::Other => "other error occurred",
            JrnlError::BadAuthenticationHeader => "bad authentication header",
            JrnlError::InvalidToken => "invalid auth token",
            JrnlError::ExpiredToken => "expired auth token",
            JrnlError::ProfileNotFound => "failed to find profile",
            JrnlError::EntryEncryptionFailed => "failed to encrypt journal entry",
            JrnlError::EntryDecryptionFailed => "failed to decrypt journal entry",
            JrnlError::TooManyEntries => "too many entries",
        }
    }
}

impl MigrationError {
    /// The failure under which an aborted migration reaches the caller of a
    /// request.
    pub open spec fn spec_surface(self) -> JrnlError {
        match self {
            MigrationError::EncryptionFailed => JrnlError::EntryEncryptionFailed,
            MigrationError::PersistFailed => JrnlError::DatabaseError,
        }
    }

    /// The failure under which an aborted migration reaches the caller of a
    /// request.
    pub fn surface(self) -> (error: JrnlError)
        ensures
            error == self.spec_surface(),
    {
        match self {
            MigrationError::EncryptionFailed => JrnlError::EntryEncryptionFailed,
            MigrationError::PersistFailed => JrnlError::DatabaseError,
        }
    }

    /// The failure in a few words.
    pub fn message(&self) -> (message: &'static str)
        ensures
            message@ == match self {
                MigrationError::EncryptionFailed => "failed to encrypt entries"@,
                MigrationError::PersistFailed => "failed to persist encrypted entries"@,
            },
    {
        match self {
            MigrationError::EncryptionFailed => "failed to encrypt entries",
            MigrationError::PersistFailed => "failed to persist encrypted entries",
        }
    }
}

} // verus!
