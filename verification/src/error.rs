use vstd::prelude::*;
use vstd::string::StringExecFns;

verus! {

/// The three failure classes a request can end in: rejected input,
/// a missing stored object, and everything that fails server-side.
#[derive(Debug)]
pub enum AppError {
    BadRequest(String),
    NotFound,
    InternalServerError(String),
}

impl AppError {
    /// The text each failure class renders for logs and responses.
    pub fn message(&self) -> (r: String)
        ensures
            match self {
                AppError::BadRequest(m) => r@ == "bad request "@ + m@,
                AppError::NotFound => r@ == "not found"@,
                AppError::InternalServerError(m) => r@ == "internal server error "@ + m@,
            },
    {
        match self {
            AppError::BadRequest(m) => String::from_str("bad request ").concat(m.as_str()),
            AppError::NotFound => String::from_str("not found"),
            AppError::InternalServerError(m) => {
                String::from_str("internal server error ").concat(m.as_str())
            },
        }
    }
}

} // verus!
