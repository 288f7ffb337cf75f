use vstd::prelude::*;
use vstd::string::*;

verus! {

/// What a page can fail with.
#[derive(Debug)]
pub enum UserError {
    /// Something went wrong and was caught.
    InternalError(String),
    /// The request was not valid.
    ValidationError(String),
    /// A worker thread was cancelled.
    BlockingError(String),
    /// The requested resource does not exist.
    NotFoundError(),
}

/// The text that a user is shown for an error.
pub open spec fn user_error_text(error: UserError) -> Seq<char> {
    match error {
        UserError::NotFoundError() => "Didn't found the requested resource"@,
        UserError::InternalError(message) => message@,
        UserError::ValidationError(message) => message@,
        UserError::BlockingError(message) => message@,
    }
}

/// The HTTP status that goes with an error: 400 for a request that is not
/// valid, 500 for everything else.
pub open spec fn user_error_status(error: UserError) -> u16 {
    match error {
        UserError::ValidationError(_) => 400,
        _ => 500,
    }
}

impl UserError {
    /// The HTTP status that goes with this error.
    pub fn status_code(&self) -> (status: u16)
        ensures
            status == user_error_status(*self),
    {
        match self {
            UserError::InternalError(_) => 500,
            UserError::ValidationError(_) => 400,
            _ => 500,
        }
    }

    /// The result of rendering a page: a page that could not be rendered is
    /// an internal error.
    pub fn wrap_template<R, E>(res: Result<R, E>) -> (wrapped: Result<R, UserError>)
        ensures
            match wrapped {
                Ok(response) => res matches Ok(inner) && inner == response,
                Err(error) => res.is_err() && error is InternalError && error->InternalError_0@
                    == "Failed to render requested template"@,
            },
    {
        match res {
            Ok(response) => Ok(response),
            Err(_) => Err(
                UserError::InternalError(String::from_str("Failed to render requested template")),
            ),
        }
    }
}

impl vstd::std_specs::convert::FromSpecImpl<UserError> for String {
    open spec fn obeys_from_spec() -> bool {
        false
    }

    open spec fn from_spec(error: UserError) -> String {
        arbitrary()
    }
}

impl From<UserError> for String {
    fn from(error: UserError) -> (text: String)
        ensures
            text@ == user_error_text(error),
    {
        match error {
            UserError::NotFoundError() => String::from_str("Didn't found the requested resource"),
            UserError::InternalError(message) => message,
            UserError::ValidationError(message) => message,
            UserError::BlockingError(message) => message,
        }
    }
}

impl<'a> vstd::std_specs::convert::FromSpecImpl<&'a UserError> for String {
    open spec fn obeys_from_spec() -> bool {
        false
    }

    open spec fn from_spec(error: &'a UserError) -> String {
        arbitrary()
    }
}

impl<'a> From<&'a UserError> for String {
    fn from(error: &'a UserError) -> (text: String)
        ensures
            text@ == user_error_text(*error),
    {
        match error {
            UserError::NotFoundError() => String::from_str("Didn't found the requested resource"),
            UserError::InternalError(message) => message.clone(),
            UserError::ValidationError(message) => message.clone(),
            UserError::BlockingError(message) => message.clone(),
        }
    }
}

} // verus!
