use vstd::prelude::*;

verus! {

/// The violations found on one field of a request, in the order the rules ran.
#[derive(Debug)]
pub struct FieldErrors {
    pub field: String,
    pub messages: Vec<String>,
}

/// Mathematical view of one field's violations: the field name and its messages.
pub type FieldErrorsView = (Seq<char>, Seq<Seq<char>>);

impl FieldErrors {
    pub open spec fn view(&self) -> FieldErrorsView {
        (self.field@, self.messages@.map_values(|m: String| m@))
    }
}

/// The view of a list of field violations.
pub open spec fn fields_view(v: Seq<FieldErrors>) -> Seq<FieldErrorsView> {
    v.map_values(|f: FieldErrors| f.view())
}

/// What an error body carries beside its code and message: either a diagnostic
/// string for operators, or the field violations of a rejected request.
#[derive(Debug)]
pub enum ErrorDetails {
    Text(String),
    Fields(Vec<FieldErrors>),
}

/// The view of `ErrorDetails`.
pub enum DetailsView {
    Text(Seq<char>),
    Fields(Seq<FieldErrorsView>),
}

impl ErrorDetails {
    pub open spec fn view(&self) -> DetailsView {
        match self {
            ErrorDetails::Text(s) => DetailsView::Text(s@),
            ErrorDetails::Fields(v) => DetailsView::Fields(fields_view(v@)),
        }
    }
}

/// The body of an error response: `{"error": {"code", "message", "details"}}`.
#[derive(Debug)]
pub struct JsonErrorMessage<T> {
    pub code: i32,
    pub message: String,
    pub details: Option<T>,
}

/// The view of an error body: code, message and details.
pub type EnvelopeView = (int, Seq<char>, Option<DetailsView>);

impl JsonErrorMessage<ErrorDetails> {
    pub open spec fn view(&self) -> EnvelopeView {
        (
            self.code as int,
            self.message@,
            match self.details {
                Some(d) => Some(d.view()),
                None => None,
            },
        )
    }
}

/// Every failure that leaves the authentication core, one kind per response status.
#[derive(Debug)]
pub enum AppError {
    UnprocessableEntity(JsonErrorMessage<ErrorDetails>),
    InternalServerError(JsonErrorMessage<ErrorDetails>),
    Conflict(JsonErrorMessage<ErrorDetails>),
    Unauthorized(JsonErrorMessage<ErrorDetails>),
}

pub open spec fn validation_message() -> Seq<char> {
    "validation error"@
}

pub open spec fn database_message() -> Seq<char> {
    "database error"@
}

pub open spec fn hashing_message() -> Seq<char> {
    "error hashing password"@
}

pub open spec fn hash_format_message() -> Seq<char> {
    "failed to parse hashed_password"@
}

pub open spec fn conflict_message(username: Seq<char>) -> Seq<char> {
    "username '"@ + username + "' is already taken. please choose another!"@
}

pub open spec fn unauthorized_message(username: Seq<char>) -> Seq<char> {
    "login failed for user '"@ + username + "'. please double-check your credentials info."@
}

pub open spec fn registration_failure_message(stored: Seq<char>) -> Seq<char> {
    "the registration for user "@ + stored + " has encountered a failure."@
}

impl AppError {
    /// The HTTP status that each kind of error is answered with.
    pub open spec fn status(&self) -> int {
        match self {
            AppError::UnprocessableEntity(_) => 422,
            AppError::InternalServerError(_) => 500,
            AppError::Conflict(_) => 409,
            AppError::Unauthorized(_) => 401,
        }
    }

    pub open spec fn body(&self) -> JsonErrorMessage<ErrorDetails> {
        match self {
            AppError::UnprocessableEntity(m) => *m,
            AppError::InternalServerError(m) => *m,
            AppError::Conflict(m) => *m,
            AppError::Unauthorized(m) => *m,
        }
    }

    /// The error's envelope as code, message and details.
    pub open spec fn envelope(&self) -> EnvelopeView {
        self.body().view()
    }

    /// An error is well formed when the code in its body is its status.
    pub open spec fn wf(&self) -> bool {
        self.body().code as int == self.status()
    }

    /// The HTTP status of the response that carries this error.
    pub fn status_code(&self) -> (r: u16)
        ensures
            r as int == self.status(),
    {
        match self {
            AppError::UnprocessableEntity(_) => 422,
            AppError::InternalServerError(_) => 500,
            AppError::Conflict(_) => 409,
            AppError::Unauthorized(_) => 401,
        }
    }

    /// The body that the response carries.
    pub fn json_error_message(&self) -> (r: &JsonErrorMessage<ErrorDetails>)
        ensures
            *r == self.body(),
    {
        match self {
            AppError::UnprocessableEntity(m) => m,
            AppError::InternalServerError(m) => m,
            AppError::Conflict(m) => m,
            AppError::Unauthorized(m) => m,
        }
    }

    /// A request broke one or more field rules.
    pub fn validation(fields: Vec<FieldErrors>) -> (r: AppError)
        ensures
            r is UnprocessableEntity,
            r.wf(),
            r.envelope() == (
            422int,
            validation_message(),
            Some(DetailsView::Fields(fields_view(fields@))),
            ),
    {
        AppError::UnprocessableEntity(
            JsonErrorMessage {
                code: 422,
                message: String::from_str("validation error"),
                details: Some(ErrorDetails::Fields(fields)),
            },
        )
    }

    /// The credential store failed; its diagnostic is kept for operators.
    pub fn database(diagnostic: String) -> (r: AppError)
        ensures
            r is InternalServerError,
            r.wf(),
            r.envelope() == (500int, database_message(), Some(DetailsView::Text(diagnostic@))),
    {
        AppError::InternalServerError(
            JsonErrorMessage {
                code: 500,
                message: String::from_str("database error"),
                details: Some(ErrorDetails::Text(diagnostic)),
            },
        )
    }

    /// The hashing backend failed.
    pub fn hashing(diagnostic: String) -> (r: AppError)
        ensures
            r is InternalServerError,
            r.wf(),
            r.envelope() == (500int, hashing_message(), Some(DetailsView::Text(diagnostic@))),
    {
        AppError::InternalServerError(
            JsonErrorMessage {
                code: 500,
                message: String::from_str("error hashing password"),
                details: Some(ErrorDetails::Text(diagnostic)),
            },
        )
    }

    /// A stored password hash could not be parsed.
    pub fn hash_format(diagnostic: String) -> (r: AppError)
        ensures
            r is InternalServerError,
            r.wf(),
            r.envelope() == (500int, hash_format_message(), Some(DetailsView::Text(diagnostic@))),
    {
        AppError::InternalServerError(
            JsonErrorMessage {
                code: 500,
                message: String::from_str("failed to parse hashed_password"),
                details: Some(ErrorDetails::Text(diagnostic)),
            },
        )
    }

    /// The username is already registered.
    pub fn conflict(username: &str) -> (r: AppError)
        ensures
            r is Conflict,
            r.wf(),
            r.envelope() == (409int, conflict_message(username@), None::<DetailsView>),
    {
        let message = String::from_str("username '").concat(username).concat(
            "' is already taken. please choose another!",
        );
        AppError::Conflict(JsonErrorMessage { code: 409, message, details: None })
    }

    /// Login failed; the message is the same whatever the cause, the diagnostic
    /// is only for logs.
    pub fn unauthorized(username: &str, diagnostic: String) -> (r: AppError)
        ensures
            r is Unauthorized,
            r.wf(),
            r.envelope() == (
            401int,
            unauthorized_message(username@),
            Some(DetailsView::Text(diagnostic@)),
            ),
    {
        let message = String::from_str("login failed for user '").concat(username).concat(
            "'. please double-check your credentials info.",
        );
        AppError::Unauthorized(
            JsonErrorMessage { code: 401, message, details: Some(ErrorDetails::Text(diagnostic)) },
        )
    }

    /// The username read back after a registration is not the one written.
    pub fn registration_failure(stored: &str) -> (r: AppError)
        ensures
            r is InternalServerError,
            r.wf(),
            r.envelope() == (500int, registration_failure_message(stored@), None::<DetailsView>),
    {
        let message = String::from_str("the registration for user ").concat(stored).concat(
            " has encountered a failure.",
        );
        AppError::InternalServerError(JsonErrorMessage { code: 500, message, details: None })
    }
}

} // verus!
