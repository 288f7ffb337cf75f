use vstd::prelude::*;
use vstd::string::*;
use crate::ws::wire::{json_string, quote_json};

verus! {

/// What can go wrong with a request on a game connection.
#[derive(Debug)]
pub enum WebsocketError {
    /// Persistence failed or an invariant is broken.
    InternalError(String),
    /// The message could not be loaded from JSON.
    MessageFormatError(),
    /// The request was rejected: a bad or missing field, an impossible move.
    ValidationError(String),
    /// The action is not supported.
    UnimplementedError(),
    /// The user may not perform the action.
    AuthorizationError(),
}

/// A `WebsocketError` with its texts as sequences of characters.
pub enum ErrorView {
    Internal(Seq<char>),
    MessageFormat,
    Validation(Seq<char>),
    Unimplemented,
    Authorization,
}

impl View for WebsocketError {
    type V = ErrorView;

    open spec fn view(&self) -> ErrorView {
        match self {
            WebsocketError::InternalError(reason) => ErrorView::Internal(reason@),
            WebsocketError::MessageFormatError() => ErrorView::MessageFormat,
            WebsocketError::ValidationError(reason) => ErrorView::Validation(reason@),
            WebsocketError::UnimplementedError() => ErrorView::Unimplemented,
            WebsocketError::AuthorizationError() => ErrorView::Authorization,
        }
    }
}

/// The error message a client receives.
#[derive(Debug)]
pub struct ErrorMessage<'a> {
    pub code: u16,
    pub message: &'a str,
}

/// The text of one decimal digit.
pub open spec fn digit_text(digit: int) -> Seq<char> {
    if digit == 0 {
        "0"@
    } else if digit == 1 {
        "1"@
    } else if digit == 2 {
        "2"@
    } else if digit == 3 {
        "3"@
    } else if digit == 4 {
        "4"@
    } else if digit == 5 {
        "5"@
    } else if digit == 6 {
        "6"@
    } else if digit == 7 {
        "7"@
    } else if digit == 8 {
        "8"@
    } else {
        "9"@
    }
}

/// The decimal text of a number, without leading zeros.
pub open spec fn decimal_text(number: nat) -> Seq<char>
    decreases number,
{
    if number < 10 {
        digit_text(number as int)
    } else {
        decimal_text(number / 10) + digit_text((number % 10) as int)
    }
}

/// The code that a client receives for an error.
pub open spec fn error_code(error: ErrorView) -> u16 {
    match error {
        ErrorView::Internal(_) => 0,
        ErrorView::MessageFormat => 1,
        ErrorView::Validation(_) => 2,
        ErrorView::Authorization => 3,
        ErrorView::Unimplemented => 65535,
    }
}

/// The message that a client receives for an error.
pub open spec fn error_note(error: ErrorView) -> Seq<char> {
    match error {
        ErrorView::Internal(reason) => "Internal Error: "@ + reason,
        ErrorView::MessageFormat => "MessageError: Seems like your message couldn't be loaded from JSON"@,
        ErrorView::Validation(reason) => "ValidationError: "@ + reason,
        ErrorView::Authorization => "MessageError: Seems like you weren't allowed to perform this action"@,
        ErrorView::Unimplemented => "Unimplemented: The action you tried to use is either implemented/ supported at them moment"@,
    }
}

/// The JSON object with the members `code` and `message`, the message given
/// as a JSON literal; `null` stands where there is none.
pub open spec fn error_frame_of(code: u16, literal: Option<Seq<char>>) -> Seq<char> {
    let message = match literal {
        Some(literal) => literal,
        None => "null"@,
    };
    "{\"code\":"@ + decimal_text(code as nat) + ",\"message\":"@ + message + "}"@
}

/// The JSON object with the members `code` and `message`. A message that
/// cannot be written as a JSON string is given as `null`.
pub open spec fn error_frame(code: u16, message: Seq<char>) -> Seq<char> {
    error_frame_of(code, json_string(message))
}

/// The short description of an error.
pub open spec fn error_title(error: ErrorView) -> Seq<char> {
    match error {
        ErrorView::Internal(_) => "Internal Error"@,
        ErrorView::MessageFormat => "Failed to load message from JSON"@,
        ErrorView::Validation(_) => "Failed to load message due to invalid content"@,
        ErrorView::Unimplemented => "Unimplemented feature"@,
        ErrorView::Authorization => "You don't have the required permissions to perform this action"@,
    }
}

/// The HTTP status that goes with an error: 400 for a rejected request, 500
/// for everything else.
pub open spec fn error_status(error: ErrorView) -> u16 {
    match error {
        ErrorView::Validation(_) => 400,
        _ => 500,
    }
}

fn digit(value: u64) -> (text: &'static str)
    requires
        value < 10,
    ensures
        text@ == digit_text(value as int),
{
    if value == 0 {
        "0"
    } else if value == 1 {
        "1"
    } else if value == 2 {
        "2"
    } else if value == 3 {
        "3"
    } else if value == 4 {
        "4"
    } else if value == 5 {
        "5"
    } else if value == 6 {
        "6"
    } else if value == 7 {
        "7"
    } else if value == 8 {
        "8"
    } else {
        "9"
    }
}

/// The decimal text of `number`.
pub fn decimal(number: u64) -> (text: String)
    ensures
        text@ == decimal_text(number as nat),
    decreases number,
{
    if number < 10 {
        String::from_str(digit(number))
    } else {
        let mut text = decimal(number / 10);
        text.append(digit(number % 10));
        text
    }
}

/// The JSON object with the members `code` and `message`; `literal` is the
/// message as a JSON literal.
pub fn frame_error(code: u16, literal: Option<String>) -> (out: String)
    ensures
        out@ == error_frame_of(
            code,
            match literal {
                Some(text) => Some(text@),
                None => None,
            },
        ),
{
    let mut out = String::from_str("{\"code\":");
    let digits = decimal(code as u64);
    out.append(digits.as_str());
    out.append(",\"message\":");
    match literal {
        Some(text) => {
            out.append(text.as_str());
        },
        None => {
            out.append("null");
        },
    }
    out.append("}");
    out
}

impl<'a> ErrorMessage<'a> {
    /// This message as a JSON object.
    pub fn json(&self) -> (out: String)
        ensures
            out@ == error_frame(self.code, self.message@),
    {
        let literal = match quote_json(self.message) {
            Ok(literal) => Some(literal),
            Err(_) => None,
        };
        frame_error(self.code, literal)
    }

    /// The JSON text that a client receives for `error`.
    pub fn text(error: WebsocketError) -> (out: String)
        ensures
            out@ == error_frame(error_code(error@), error_note(error@)),
    {
        match error {
            WebsocketError::InternalError(reason) => {
                let note = String::from_str("Internal Error: ").concat(reason.as_str());
                (ErrorMessage { code: 0, message: note.as_str() }).json()
            },
            WebsocketError::MessageFormatError() => (ErrorMessage {
                code: 1,
                message: "MessageError: Seems like your message couldn't be loaded from JSON",
            }).json(),
            WebsocketError::ValidationError(reason) => {
                let note = String::from_str("ValidationError: ").concat(reason.as_str());
                (ErrorMessage { code: 2, message: note.as_str() }).json()
            },
            WebsocketError::AuthorizationError() => (ErrorMessage {
                code: 3,
                message: "MessageError: Seems like you weren't allowed to perform this action",
            }).json(),
            WebsocketError::UnimplementedError() => (ErrorMessage {
                code: u16::MAX,
                message: "Unimplemented: The action you tried to use is either implemented/ supported at them moment",
            }).json(),
        }
    }
}

impl WebsocketError {
    /// The short description of this error.
    pub fn to_string(&self) -> (out: String)
        ensures
            out@ == error_title(self@),
    {
        match self {
            WebsocketError::InternalError(_) => String::from_str("Internal Error"),
            WebsocketError::MessageFormatError() => String::from_str(
                "Failed to load message from JSON",
            ),
            WebsocketError::ValidationError(_) => String::from_str(
                "Failed to load message due to invalid content",
            ),
            WebsocketError::UnimplementedError() => String::from_str("Unimplemented feature"),
            WebsocketError::AuthorizationError() => String::from_str(
                "You don't have the required permissions to perform this action",
            ),
        }
    }

    /// The HTTP status that goes with this error.
    pub fn status_code(&self) -> (status: u16)
        ensures
            status == error_status(self@),
    {
        match self {
            WebsocketError::InternalError(_) => 500,
            WebsocketError::ValidationError(_) => 400,
            _ => 500,
        }
    }
}

/// The reply to a message that is no valid JSON.
pub fn message_format_error() -> (out: String)
    ensures
        out@ == error_frame(1, error_note(ErrorView::MessageFormat)),
{
    ErrorMessage::text(WebsocketError::MessageFormatError())
}

/// The reply to an action that is not supported.
pub fn unimplemented_error() -> (out: String)
    ensures
        out@ == error_frame(65535, error_note(ErrorView::Unimplemented)),
{
    ErrorMessage::text(WebsocketError::UnimplementedError())
}

/// The reply to an action that the user may not perform.
pub fn unauthorized_error() -> (out: String)
    ensures
        out@ == error_frame(3, error_note(ErrorView::Authorization)),
{
    ErrorMessage::text(WebsocketError::AuthorizationError())
}

impl vstd::std_specs::convert::FromSpecImpl<serde_json::Error> for WebsocketError {
    open spec fn obeys_from_spec() -> bool {
        true
    }

    open spec fn from_spec(error: serde_json::Error) -> WebsocketError {
        WebsocketError::MessageFormatError()
    }
}

/// A text that cannot be read as JSON is a message format error.
impl From<serde_json::Error> for WebsocketError {
    fn from(error: serde_json::Error) -> (out: WebsocketError) {
        WebsocketError::MessageFormatError()
    }
}

} // verus!
