//! The closed set of failures, and how each one is shown to a caller.

use vstd::prelude::*;

use crate::dtos::Response;
use crate::text::{concat, decimal, decimal_string};

verus! {

/// Every failure that the core can report.
#[derive(Debug, Clone, Copy, PartialEq, Eq, Structural)]
pub enum ErrorMessage {
    EmptyPassword,
    ExceededMaxPasswordLength(usize),
    HashingError,
    InvalidHashFormat,
    InvalidToken,
    ServerError,
    WrongCredentials,
    EmailExists,
    UserNoLongerExists,
    TokenNotProvided,
    PermissionDenied,
}

/// The five classes of status under which a failure is reported.
#[derive(Debug, Clone, Copy, PartialEq, Eq, Structural)]
pub enum StatusClass {
    BadRequest,
    Unauthorized,
    Forbidden,
    Conflict,
    ServerError,
}

impl StatusClass {
    /// The numeric status of the class.
    pub open spec fn spec_code(self) -> u16 {
        match self {
            StatusClass::BadRequest => 400,
            StatusClass::Unauthorized => 401,
            StatusClass::Forbidden => 403,
            StatusClass::Conflict => 409,
            StatusClass::ServerError => 500,
        }
    }

    /// The class that a numeric status names, if it names one.
    pub open spec fn spec_from_code(code: u16) -> Option<StatusClass> {
        if code == 400 {
            Some(StatusClass::BadRequest)
        } else if code == 401 {
            Some(StatusClass::Unauthorized)
        } else if code == 403 {
            Some(StatusClass::Forbidden)
        } else if code == 409 {
            Some(StatusClass::Conflict)
        } else if code == 500 {
            Some(StatusClass::ServerError)
        } else {
            None
        }
    }

    /// The numeric status of the class.
    #[verifier::when_used_as_spec(spec_code)]
    pub fn code(self) -> (c: u16)
        ensures
            c == self.spec_code(),
    {
        match self {
            StatusClass::BadRequest => 400,
            StatusClass::Unauthorized => 401,
            StatusClass::Forbidden => 403,
            StatusClass::Conflict => 409,
            StatusClass::ServerError => 500,
        }
    }

    /// The class that a numeric status names, if it names one.
    #[verifier::when_used_as_spec(spec_from_code)]
    pub fn from_code(code: u16) -> (class: Option<StatusClass>)
        ensures
            class == StatusClass::spec_from_code(code),
    {
        if code == 400 {
            Some(StatusClass::BadRequest)
        } else if code == 401 {
            Some(StatusClass::Unauthorized)
        } else if code == 403 {
            Some(StatusClass::Forbidden)
        } else if code == 409 {
            Some(StatusClass::Conflict)
        } else if code == 500 {
            Some(StatusClass::ServerError)
        } else {
            None
        }
    }
}

impl ErrorMessage {
    /// The fixed, user-safe text of each failure.
    pub open spec fn message(self) -> Seq<char> {
        match self {
            ErrorMessage::ServerError => "Server Error. Please try again later"@,
            ErrorMessage::WrongCredentials => "Email or password is wrong"@,
            ErrorMessage::EmailExists => "Email already exists"@,
            ErrorMessage::UserNoLongerExists => "User does not exist"@,
            ErrorMessage::EmptyPassword => "Password is empty"@,
            ErrorMessage::HashingError => "Error hashing password"@,
            ErrorMessage::InvalidHashFormat => "Invalid password hash format"@,
            ErrorMessage::ExceededMaxPasswordLength(max_length) => "Max password length is "@
                + decimal(max_length as nat),
            ErrorMessage::InvalidToken => "Invalid token"@,
            ErrorMessage::TokenNotProvided => "You are not logged in, please provide a token"@,
            ErrorMessage::PermissionDenied => "You are not authorized to perform this action"@,
        }
    }

    /// The status class under which each failure is reported.
    pub open spec fn spec_status_class(self) -> StatusClass {
        match self {
            ErrorMessage::EmptyPassword => StatusClass::BadRequest,
            ErrorMessage::ExceededMaxPasswordLength(_) => StatusClass::BadRequest,
            ErrorMessage::HashingError => StatusClass::ServerError,
            ErrorMessage::InvalidHashFormat => StatusClass::ServerError,
            ErrorMessage::ServerError => StatusClass::ServerError,
            ErrorMessage::InvalidToken => StatusClass::Unauthorized,
            ErrorMessage::TokenNotProvided => StatusClass::Unauthorized,
            ErrorMessage::WrongCredentials => StatusClass::Unauthorized,
            ErrorMessage::UserNoLongerExists => StatusClass::Unauthorized,
            ErrorMessage::EmailExists => StatusClass::Conflict,
            ErrorMessage::PermissionDenied => StatusClass::Forbidden,
        }
    }

    /// Writes the message of the failure.
    pub fn to_str(&self) -> (text: String)
        ensures
            text@ == self.message(),
    {
        match self {
            ErrorMessage::ServerError => "Server Error. Please try again later".to_owned(),
            ErrorMessage::WrongCredentials => "Email or password is wrong".to_owned(),
            ErrorMessage::EmailExists => "Email already exists".to_owned(),
            ErrorMessage::UserNoLongerExists => "User does not exist".to_owned(),
            ErrorMessage::EmptyPassword => "Password is empty".to_owned(),
            ErrorMessage::HashingError => "Error hashing password".to_owned(),
            ErrorMessage::InvalidHashFormat => "Invalid password hash format".to_owned(),
            ErrorMessage::ExceededMaxPasswordLength(max_length) => {
                let digits = decimal_string(*max_length);
                concat("Max password length is ", digits.as_str())
            },
            ErrorMessage::InvalidToken => "Invalid token".to_owned(),
            ErrorMessage::TokenNotProvided => {
                "You are not logged in, please provide a token".to_owned()
            },
            ErrorMessage::PermissionDenied => {
                "You are not authorized to perform this action".to_owned()
            },
        }
    }

    /// The status class under which the failure is reported.
    #[verifier::when_used_as_spec(spec_status_class)]
    pub fn status_class(self) -> (class: StatusClass)
        ensures
            class == self.spec_status_class(),
    {
        match self {
            ErrorMessage::EmptyPassword => StatusClass::BadRequest,
            ErrorMessage::ExceededMaxPasswordLength(_) => StatusClass::BadRequest,
            ErrorMessage::HashingError => StatusClass::ServerError,
            ErrorMessage::InvalidHashFormat => StatusClass::ServerError,
            ErrorMessage::ServerError => StatusClass::ServerError,
            ErrorMessage::InvalidToken => StatusClass::Unauthorized,
            ErrorMessage::TokenNotProvided => StatusClass::Unauthorized,
            ErrorMessage::WrongCredentials => StatusClass::Unauthorized,
            ErrorMessage::UserNoLongerExists => StatusClass::Unauthorized,
            ErrorMessage::EmailExists => StatusClass::Conflict,
            ErrorMessage::PermissionDenied => StatusClass::Forbidden,
        }
    }
}

/// The body of a failure as it is sent: a status tag and a message.
#[derive(Debug)]
pub struct ErrorResponse {
    pub status: String,
    pub message: String,
}

/// A failure on its way out: the message for the caller and a numeric status.
#[derive(Debug, Clone)]
pub struct HttpError {
    pub message: String,
    pub status: u16,
}

/// What the transport has to send for a failure, and what it has to log.
#[derive(Debug)]
pub struct HttpResponseParts {
    /// The numeric status of the answer.
    pub code: u16,
    /// The body of the answer.
    pub body: Response,
    /// A line for the server's log, where the status had no mapping.
    pub warning: Option<String>,
}

/// The line that is logged when a status outside the five classes is sent as
/// a server error.
pub open spec fn unmapped_status_warning(status: u16) -> Seq<char> {
    "Warning: Missing patter match. Converted status code "@ + decimal(status as nat)
        + " for 500"@
}

impl View for HttpError {
    type V = (Seq<char>, u16);

    /// The failure as a pair of plain values: the message and the status.
    open spec fn view(&self) -> (Seq<char>, u16) {
        (self.message@, self.status)
    }
}

impl HttpError {
    /// Whether this is the outgoing form of the failure `kind`: its fixed
    /// message under the status of its class.
    pub open spec fn reports(&self, kind: ErrorMessage) -> bool {
        self@ == (kind.message(), kind.spec_status_class().spec_code())
    }

    /// The text under which the failure is logged.
    pub open spec fn description(&self) -> Seq<char> {
        "HttpError: message "@ + self.message@ + ", status: "@ + decimal(self.status as nat)
    }

    /// A failure with the given message and status.
    pub fn new(message: String, status: u16) -> (err: HttpError)
        ensures
            err@ == (message@, status),
    {
        HttpError { message, status }
    }

    /// A failure of the server: status 500.
    pub fn server_error(message: String) -> (err: HttpError)
        ensures
            err@ == (message@, 500u16),
    {
        HttpError { message, status: 500 }
    }

    /// A malformed or invalid input: status 400.
    pub fn bad_request(message: String) -> (err: HttpError)
        ensures
            err@ == (message@, 400u16),
    {
        HttpError { message, status: 400 }
    }

    /// A conflict with what is stored: status 409.
    pub fn unique_constraint_violation(message: String) -> (err: HttpError)
        ensures
            err@ == (message@, 409u16),
    {
        HttpError { message, status: 409 }
    }

    /// A request that is not authenticated: status 401.
    pub fn unauthorized(message: String) -> (err: HttpError)
        ensures
            err@ == (message@, 401u16),
    {
        HttpError { message, status: 401 }
    }

    /// A request that is authenticated but not allowed: status 403.
    pub fn forbidden(message: String) -> (err: HttpError)
        ensures
            err@ == (message@, 403u16),
    {
        HttpError { message, status: 403 }
    }

    /// The outgoing form of a failure of the closed set: its fixed message
    /// under the status of its class.
    pub fn from_kind(kind: ErrorMessage) -> (err: HttpError)
        ensures
            err.reports(kind),
    {
        HttpError { message: kind.to_str(), status: kind.status_class().code() }
    }

    /// Writes the failure for a log line.
    pub fn to_string(&self) -> (text: String)
        ensures
            text@ == self.description(),
    {
        let mut text = concat("HttpError: message ", self.message.as_str());
        text.append(", status: ");
        let digits = decimal_string(self.status as usize);
        text.append(digits.as_str());
        text
    }

    /// What is sent for this failure. A status of one of the five classes is
    /// sent as it is, tagged "fail", with the failure's own message. Any other
    /// status is sent as 500, tagged "error", with the generic server-error
    /// message in place of the failure's own, and with a warning for the log.
    pub fn into_http_response(self) -> (parts: HttpResponseParts)
        ensures
            StatusClass::spec_from_code(self.status) is Some ==> {
                &&& parts.code == self.status
                &&& parts.body.status@ == "fail"@
                &&& parts.body.message@ == self.message@
                &&& parts.warning is None
            },
            StatusClass::spec_from_code(self.status) is None ==> {
                &&& parts.code == 500
                &&& parts.body.status@ == "error"@
                &&& parts.body.message@ == ErrorMessage::ServerError.message()
                &&& parts.warning matches Some(line)
                &&& line@ == unmapped_status_warning(self.status)
            },
    {
        match StatusClass::from_code(self.status) {
            Some(class) => HttpResponseParts {
                code: class.code(),
                body: Response { status: "fail", message: self.message },
                warning: None,
            },
            None => {
                let digits = decimal_string(self.status as usize);
                let mut line = concat(
                    "Warning: Missing patter match. Converted status code ",
                    digits.as_str(),
                );
                line.append(" for 500");
                HttpResponseParts {
                    code: 500,
                    body: Response {
                        status: "error",
                        message: ErrorMessage::ServerError.to_str(),
                    },
                    warning: Some(line),
                }
            },
        }
    }
}

/// The mapping is total and one to one on the classes: every failure of the
/// closed set has a class, the status of a class names that class again, and
/// so no failure of the set falls through to the default when it is sent.
pub proof fn law_every_kind_is_mapped(kind: ErrorMessage)
    ensures
        StatusClass::spec_from_code(kind.spec_status_class().spec_code()) == Some(
            kind.spec_status_class(),
        ),
{
}

/// A status names a class exactly where it is the status of some class.
pub proof fn law_status_classes(code: u16)
    ensures
        StatusClass::spec_from_code(code) matches Some(class) ==> class.spec_code() == code,
        StatusClass::spec_from_code(code) is None ==> forall|class: StatusClass|
            #[trigger] class.spec_code() != code,
{
}

} // verus!
