use vstd::prelude::*;

use crate::errors::{
    conflict_message, database_message, hash_format_message, hashing_message,
    registration_failure_message, unauthorized_message, validation_message, AppError, DetailsView,
};
use crate::hashing::{argon2_accepts, check_password, hash_password, phc_parses, PasswordCheck};
use crate::model::{login_report, register_report, AuthLogin, AuthRegister};

verus! {

/// A parameterized operation on the `credentials` table that a flow asks for.
pub enum StoreAction {
    /// Whether a row with this username exists.
    CheckExists { username: String },
    /// Insert a row; the table's uniqueness constraint on username is the guard.
    Insert { username: String, password_hash: String },
    /// Read back the username of the row with this username.
    FetchUsername { username: String },
    /// Read the password hash of the row with this username.
    FetchPasswordHash { username: String },
}

/// What a flow does next: ask the store for something, or finish.
pub enum Step {
    Perform(StoreAction),
    Finish(Result<String, AppError>),
}

/// The result is an error of the given status, message and details.
pub open spec fn result_fails_with(
    r: Result<String, AppError>,
    status: int,
    message: Seq<char>,
    details: Option<DetailsView>,
) -> bool {
    r matches Err(e) && e.status() == status && e.wf() && e.envelope() == (status, message, details)
}

/// The result is an error of the given status and message, with a diagnostic
/// string as its details.
pub open spec fn result_fails_with_message(
    r: Result<String, AppError>,
    status: int,
    message: Seq<char>,
) -> bool {
    r matches Err(e) && e.status() == status && e.wf() && e.envelope().0 == status
        && e.envelope().1 == message && e.envelope().2 matches Some(DetailsView::Text(_))
}

/// The step finishes with an error of the given status, message and details.
pub open spec fn fails_with(s: Step, status: int, message: Seq<char>, details: Option<DetailsView>) -> bool {
    s matches Step::Finish(r) && result_fails_with(r, status, message, details)
}

/// The step finishes with an error of the given status and message, whatever its
/// diagnostic.
pub open spec fn fails_with_message(s: Step, status: int, message: Seq<char>) -> bool {
    s matches Step::Finish(r) && result_fails_with_message(r, status, message)
}

/// The step finishes with success, returning `username`.
pub open spec fn succeeds_with(s: Step, username: Seq<char>) -> bool {
    s matches Step::Finish(Ok(u)) && u@ == username
}

/// A registration breaks no field rule.
pub open spec fn register_is_valid(req: &AuthRegister) -> bool {
    register_report(req.username@, req.password@, req.confirm_password@).len() == 0
}

/// A login breaks no field rule.
pub open spec fn login_is_valid(req: &AuthLogin) -> bool {
    login_report(req.username@, req.password@).len() == 0
}

/// The first step of a registration: validate, then ask whether the username is
/// taken.
pub fn register_begin(req: &AuthRegister) -> (r: Step)
    ensures
        !register_is_valid(req) ==> fails_with(
            r,
            422,
            validation_message(),
            Some(
                DetailsView::Fields(
                    register_report(req.username@, req.password@, req.confirm_password@),
                ),
            ),
        ),
        register_is_valid(req) ==> (r matches Step::Perform(StoreAction::CheckExists { username })
            && username@ == req.username@),
{
    match req.validate() {
        Err(fields) => Step::Finish(Err(AppError::validation(fields))),
        Ok(()) => Step::Perform(StoreAction::CheckExists { username: req.username.clone() }),
    }
}

/// A registration once the password is hashed (or hashing failed): insert the row.
pub fn register_after_hash(req: &AuthRegister, hashed: Result<String, String>) -> (r: Step)
    ensures
        hashed matches Err(d) ==> fails_with(
            r,
            500,
            hashing_message(),
            Some(DetailsView::Text(d@)),
        ),
        hashed matches Ok(h) ==> (r matches Step::Perform(
            StoreAction::Insert { username, password_hash },
        ) && username@ == req.username@ && password_hash@ == h@),
{
    match hashed {
        Err(diagnostic) => Step::Finish(Err(AppError::hashing(diagnostic))),
        Ok(h) => Step::Perform(
            StoreAction::Insert { username: req.username.clone(), password_hash: h },
        ),
    }
}

/// A registration once the store answered whether the username exists: a store
/// failure is an internal error; a taken name is a conflict; otherwise the
/// password is hashed under a fresh salt and the row is inserted.
pub fn register_after_exists(req: &AuthRegister, exists: Result<bool, String>) -> (r: Step)
    ensures
        exists matches Err(d) ==> fails_with(
            r,
            500,
            database_message(),
            Some(DetailsView::Text(d@)),
        ),
        exists == Ok::<bool, String>(true) ==> fails_with(
            r,
            409,
            conflict_message(req.username@),
            None,
        ),
        exists == Ok::<bool, String>(false) ==> fails_with_message(r, 500, hashing_message()) || (
        r matches Step::Perform(StoreAction::Insert { username, password_hash }) && username@
            == req.username@ && phc_parses(password_hash@) && argon2_accepts(
            req.password@,
            password_hash@,
        )),
{
    match exists {
        Err(diagnostic) => Step::Finish(Err(AppError::database(diagnostic))),
        Ok(true) => Step::Finish(Err(AppError::conflict(req.username.as_str()))),
        Ok(false) => {
            let hashed = hash_password(req.password.as_str());
            register_after_hash(req, hashed)
        },
    }
}

/// A registration once the insert came back: read the row back to confirm it.
pub fn register_after_insert(req: &AuthRegister, inserted: Result<(), String>) -> (r: Step)
    ensures
        inserted matches Err(d) ==> fails_with(
            r,
            500,
            database_message(),
            Some(DetailsView::Text(d@)),
        ),
        inserted is Ok ==> (r matches Step::Perform(StoreAction::FetchUsername { username })
            && username@ == req.username@),
{
    match inserted {
        Err(diagnostic) => Step::Finish(Err(AppError::database(diagnostic))),
        Ok(()) => Step::Perform(StoreAction::FetchUsername { username: req.username.clone() }),
    }
}

/// A registration once the row was read back: it succeeds when the stored
/// username is the one registered.
pub fn register_after_confirm(req: &AuthRegister, stored: Result<String, String>) -> (r: Step)
    ensures
        stored matches Err(d) ==> fails_with(
            r,
            500,
            database_message(),
            Some(DetailsView::Text(d@)),
        ),
        stored matches Ok(s) && s@ == req.username@ ==> succeeds_with(r, req.username@),
        stored matches Ok(s) ==> (s@ != req.username@ ==> fails_with(
            r,
            500,
            registration_failure_message(s@),
            None,
        )),
{
    match stored {
        Err(diagnostic) => Step::Finish(Err(AppError::database(diagnostic))),
        Ok(s) => {
            if s == req.username {
                Step::Finish(Ok(req.username.clone()))
            } else {
                Step::Finish(Err(AppError::registration_failure(s.as_str())))
            }
        },
    }
}

/// The first step of a login: validate, then fetch the stored hash.
pub fn login_begin(req: &AuthLogin) -> (r: Step)
    ensures
        !login_is_valid(req) ==> fails_with(
            r,
            422,
            validation_message(),
            Some(DetailsView::Fields(login_report(req.username@, req.password@))),
        ),
        login_is_valid(req) ==> (r matches Step::Perform(
            StoreAction::FetchPasswordHash { username },
        ) && username@ == req.username@),
{
    match req.validate() {
        Err(fields) => Step::Finish(Err(AppError::validation(fields))),
        Ok(()) => Step::Perform(StoreAction::FetchPasswordHash { username: req.username.clone() }),
    }
}

/// A login once the password was checked against the stored hash.
pub fn login_after_check(req: &AuthLogin, check: PasswordCheck) -> (r: Step)
    ensures
        check is Accepted ==> succeeds_with(r, req.username@),
        check matches PasswordCheck::Rejected(d) ==> fails_with(
            r,
            401,
            unauthorized_message(req.username@),
            Some(DetailsView::Text(d@)),
        ),
        check matches PasswordCheck::Malformed(d) ==> fails_with(
            r,
            500,
            hash_format_message(),
            Some(DetailsView::Text(d@)),
        ),
{
    match check {
        PasswordCheck::Accepted => Step::Finish(Ok(req.username.clone())),
        PasswordCheck::Rejected(diagnostic) => Step::Finish(
            Err(AppError::unauthorized(req.username.as_str(), diagnostic)),
        ),
        PasswordCheck::Malformed(diagnostic) => Step::Finish(Err(AppError::hash_format(diagnostic))),
    }
}

/// A login once the store answered the fetch of the stored hash: a store
/// failure is an internal error; an unknown username and a wrong password get the
/// same answer; a stored hash that does not parse is an internal error.
pub fn login_after_fetch(req: &AuthLogin, fetched: Result<Option<String>, String>) -> (r: Step)
    ensures
        fetched matches Err(d) ==> fails_with(
            r,
            500,
            database_message(),
            Some(DetailsView::Text(d@)),
        ),
        fetched matches Ok(None) ==> fails_with(
            r,
            401,
            unauthorized_message(req.username@),
            Some(DetailsView::Text(unknown_user_diagnostic())),
        ),
        fetched matches Ok(Some(h)) && !phc_parses(h@) ==> fails_with_message(
            r,
            500,
            hash_format_message(),
        ),
        fetched matches Ok(Some(h)) && phc_parses(h@) && argon2_accepts(req.password@, h@)
            ==> succeeds_with(r, req.username@),
        fetched matches Ok(Some(h)) && phc_parses(h@) && !argon2_accepts(req.password@, h@)
            ==> fails_with_message(r, 401, unauthorized_message(req.username@)),
{
    match fetched {
        Err(diagnostic) => Step::Finish(Err(AppError::database(diagnostic))),
        Ok(None) => Step::Finish(
            Err(
                AppError::unauthorized(
                    req.username.as_str(),
                    String::from_str("no credentials stored for this username"),
                ),
            ),
        ),
        Ok(Some(h)) => {
            let check = check_password(req.password.as_str(), h.as_str());
            login_after_check(req, check)
        },
    }
}

/// The diagnostic logged when a login names no stored credentials.
pub open spec fn unknown_user_diagnostic() -> Seq<char> {
    "no credentials stored for this username"@
}

/// The message of the response to a successful registration.
pub fn registered_message(username: &str) -> (r: String)
    ensures
        r@ == "user "@ + username@ + " successfully registered"@,
{
    String::from_str("user ").concat(username).concat(" successfully registered")
}

/// The message of the response to a successful login.
pub fn logged_message(username: &str) -> (r: String)
    ensures
        r@ == "user "@ + username@ + " successfully logged"@,
{
    String::from_str("user ").concat(username).concat(" successfully logged")
}

} // verus!
