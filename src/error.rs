use vstd::prelude::*;

verus! {

/// The errors of the application layer, each with a human-readable reason.
#[derive(Debug)]
pub enum AppError {
    NotFound(String),
    BadRequest(String),
    Unauthorized(String),
    Forbidden(String),
    InternalError(String),
    DatabaseError(String),
    TemplateError(String),
}

} // verus!
