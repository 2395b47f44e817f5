//! Errors the services report to their callers.
use vstd::prelude::*;

verus! {

/// Failure of a service operation.
#[derive(Clone, Debug)]
pub enum KabiPayError {
    /// The input breaks a business rule; the text says which.
    Validation(String),
    /// A row the operation needs does not exist.
    NotFound { entity: String, id: String },
    /// The caller may not do this.
    Forbidden(String),
    /// The operation clashes with existing state.
    Conflict(String),
    /// A subscription's seat usage exceeds its contract under a blocking policy.
    SeatLimitReached { module_code: String, contracted: i32, current: i32 },
    /// Unexpected failure.
    Internal(String),
}

/// Whether `r` is a validation error carrying exactly the text `msg`.
pub open spec fn is_validation<T>(r: Result<T, KabiPayError>, msg: Seq<char>) -> bool {
    r matches Err(KabiPayError::Validation(m)) && m@ == msg
}

/// Whether `r` is a conflict error carrying exactly the text `msg`.
pub open spec fn is_conflict<T>(r: Result<T, KabiPayError>, msg: Seq<char>) -> bool {
    r matches Err(KabiPayError::Conflict(m)) && m@ == msg
}

/// Whether `r` is a forbidden error carrying exactly the text `msg`.
pub open spec fn is_forbidden<T>(r: Result<T, KabiPayError>, msg: Seq<char>) -> bool {
    r matches Err(KabiPayError::Forbidden(m)) && m@ == msg
}

/// A validation error with the given text.
pub fn validation(msg: &str) -> (e: KabiPayError)
    ensures
        e matches KabiPayError::Validation(m) && m@ == msg@,
{
    KabiPayError::Validation(crate::text::owned(msg))
}

/// A conflict error with the given text.
pub fn conflict(msg: &str) -> (e: KabiPayError)
    ensures
        e matches KabiPayError::Conflict(m) && m@ == msg@,
{
    KabiPayError::Conflict(crate::text::owned(msg))
}

/// A forbidden error with the given text.
pub fn forbidden(msg: &str) -> (e: KabiPayError)
    ensures
        e matches KabiPayError::Forbidden(m) && m@ == msg@,
{
    KabiPayError::Forbidden(crate::text::owned(msg))
}

/// A not-found error for `entity` with the given id text.
pub fn not_found(entity: &str, id: String) -> (e: KabiPayError)
    ensures
        e matches KabiPayError::NotFound { entity: en, id: i } && en@ == entity@ && i@ == id@,
{
    KabiPayError::NotFound { entity: crate::text::owned(entity), id }
}


/// Whether `r` is a not-found error for `entity` with the id text `id`.
pub open spec fn is_not_found<T>(r: Result<T, KabiPayError>, entity: Seq<char>, id: Seq<char>) -> bool {
    r matches Err(KabiPayError::NotFound { entity: en, id: i }) && en@ == entity && i@ == id
}

/// An internal error with the given text.
pub fn internal(msg: String) -> (e: KabiPayError)
    ensures
        e matches KabiPayError::Internal(m) && m@ == msg@,
{
    KabiPayError::Internal(msg)
}

/// A validation error with an owned text.
pub fn validation_owned(msg: String) -> (e: KabiPayError)
    ensures
        e matches KabiPayError::Validation(m) && m@ == msg@,
{
    KabiPayError::Validation(msg)
}

/// A conflict error with an owned text.
pub fn conflict_owned(msg: String) -> (e: KabiPayError)
    ensures
        e matches KabiPayError::Conflict(m) && m@ == msg@,
{
    KabiPayError::Conflict(msg)
}


/// An error as a contract names it: its kind and texts.
pub enum ErrorSpec {
    Validation(Seq<char>),
    NotFound(Seq<char>, Seq<char>),
}

/// Whether `r` is exactly the error `e` describes.
pub open spec fn fails_as<T>(r: Result<T, KabiPayError>, e: ErrorSpec) -> bool {
    match e {
        ErrorSpec::Validation(m) => is_validation(r, m),
        ErrorSpec::NotFound(en, id) => is_not_found(r, en, id),
    }
}

} // verus!
