//! Errors that the repositories report.
use vstd::prelude::*;

verus! {

/// What went wrong in a repository operation.
#[derive(Debug, Clone)]
pub enum RepositoryError {
    /// No connection could be taken from the pool.
    PoolError(String),
    /// The database failed.
    DatabaseError(String),
    /// The record does not exist.
    NotFound(String),
    /// The record exists already.
    AlreadyExists,
    /// A record that is still referred to cannot be changed.
    DependencyExists(String),
    /// A record that is referred to does not exist.
    ForeignKeyViolation(String),
    /// A value that is needed is absent.
    RequiredFieldMissing(String),
    /// The request breaks a rule.
    ValidationFailed(String),
    /// A stored value does not have the form it should have.
    DataConversionError(String),
    /// The database could not be reached.
    ConnectionFailed(String),
    /// The credentials were refused.
    AuthenticationFailed,
    /// Two transactions got in each other's way.
    TransactionConflict,
    /// A report did not finish within its time.
    QueryTimeout,
}

/// An error with its message as characters.
pub enum RepositoryErrorView {
    PoolError(Seq<char>),
    DatabaseError(Seq<char>),
    NotFound(Seq<char>),
    AlreadyExists,
    DependencyExists(Seq<char>),
    ForeignKeyViolation(Seq<char>),
    RequiredFieldMissing(Seq<char>),
    ValidationFailed(Seq<char>),
    DataConversionError(Seq<char>),
    ConnectionFailed(Seq<char>),
    AuthenticationFailed,
    TransactionConflict,
    QueryTimeout,
}

impl View for RepositoryError {
    type V = RepositoryErrorView;

    open spec fn view(&self) -> RepositoryErrorView {
        match self {
            RepositoryError::PoolError(m) => RepositoryErrorView::PoolError(m@),
            RepositoryError::DatabaseError(m) => RepositoryErrorView::DatabaseError(m@),
            RepositoryError::NotFound(m) => RepositoryErrorView::NotFound(m@),
            RepositoryError::AlreadyExists => RepositoryErrorView::AlreadyExists,
            RepositoryError::DependencyExists(m) => RepositoryErrorView::DependencyExists(m@),
            RepositoryError::ForeignKeyViolation(m) => RepositoryErrorView::ForeignKeyViolation(m@),
            RepositoryError::RequiredFieldMissing(m) => RepositoryErrorView::RequiredFieldMissing(
                m@,
            ),
            RepositoryError::ValidationFailed(m) => RepositoryErrorView::ValidationFailed(m@),
            RepositoryError::DataConversionError(m) => RepositoryErrorView::DataConversionError(m@),
            RepositoryError::ConnectionFailed(m) => RepositoryErrorView::ConnectionFailed(m@),
            RepositoryError::AuthenticationFailed => RepositoryErrorView::AuthenticationFailed,
            RepositoryError::TransactionConflict => RepositoryErrorView::TransactionConflict,
            RepositoryError::QueryTimeout => RepositoryErrorView::QueryTimeout,
        }
    }
}

/// A broken rule, with a message.
pub fn validation_failed(message: &str) -> (r: RepositoryError)
    ensures
        r@ == RepositoryErrorView::ValidationFailed(message@),
{
    RepositoryError::ValidationFailed(message.to_owned())
}

/// A missing record, with a message.
pub fn not_found(message: &str) -> (r: RepositoryError)
    ensures
        r@ == RepositoryErrorView::NotFound(message@),
{
    RepositoryError::NotFound(message.to_owned())
}

} // verus!
