use vstd::prelude::*;

use crate::errors::{fields_view, FieldErrors, FieldErrorsView};

verus! {

/// The wrapper object that a request body arrives in: `{"user": ...}`.
pub struct In<T> {
    pub user: T,
}

/// A registration request.
pub struct AuthRegister {
    pub username: String,
    pub password: String,
    pub confirm_password: String,
}

/// A login request.
pub struct AuthLogin {
    pub username: String,
    pub password: String,
}

pub const USERNAME_MIN: usize = 2;

pub const USERNAME_MAX: usize = 25;

pub const PASSWORD_MIN: usize = 8;

pub const PASSWORD_MAX: usize = 75;

/// An ASCII digit or letter: the class `[0-9a-zA-Z]`.
pub open spec fn is_alphanumeric(c: char) -> bool {
    let u = c as u32;
    (0x30 <= u && u <= 0x39) || (0x41 <= u && u <= 0x5a) || (0x61 <= u && u <= 0x7a)
}

/// The username pattern `^[0-9a-zA-Z]{2,}$`: at least two characters, each of them
/// an ASCII digit or letter.
pub open spec fn matches_username_pattern(s: Seq<char>) -> bool {
    s.len() >= 2 && forall|i: int| 0 <= i < s.len() ==> is_alphanumeric(#[trigger] s[i])
}

pub open spec fn within(s: Seq<char>, min: usize, max: usize) -> bool {
    min <= s.len() <= max
}

/// The field's entry in a validation report: none where it has no violation.
pub open spec fn field_entry(field: Seq<char>, messages: Seq<Seq<char>>) -> Seq<FieldErrorsView> {
    if messages.len() == 0 {
        Seq::empty()
    } else {
        seq![(field, messages)]
    }
}

/// The message of a rule, where the rule does not hold.
pub open spec fn violation(holds: bool, message: Seq<char>) -> Seq<Seq<char>> {
    if holds {
        Seq::empty()
    } else {
        seq![message]
    }
}

pub open spec fn password_violations(password: Seq<char>) -> Seq<Seq<char>> {
    violation(
        within(password, PASSWORD_MIN, PASSWORD_MAX),
        "password is invalid - must have minimum length of 8 characters"@,
    )
}

/// The username rules of a registration: its length, then its pattern.
pub open spec fn register_username_violations(username: Seq<char>) -> Seq<Seq<char>> {
    violation(
        within(username, USERNAME_MIN, USERNAME_MAX),
        "username is invalid - must be 2-25 characters only"@,
    ) + violation(
        matches_username_pattern(username),
        "username is invalid - must be only alphanumeric characters"@,
    )
}

/// The username rules of a login: its length, then its pattern.
pub open spec fn login_username_violations(username: Seq<char>) -> Seq<Seq<char>> {
    violation(
        within(username, USERNAME_MIN, USERNAME_MAX),
        "username is invalid - must be only 2-25 characters"@,
    ) + violation(
        matches_username_pattern(username),
        "username is invalid - must be only alphanumeric/underscore characters"@,
    )
}

pub open spec fn confirm_violations(password: Seq<char>, confirm: Seq<char>) -> Seq<Seq<char>> {
    violation(confirm == password, "confirm password is not same as password"@)
}

/// Every violation of a registration, by field in the order username, password,
/// confirmPassword.
pub open spec fn register_report(username: Seq<char>, password: Seq<char>, confirm: Seq<char>) -> Seq<
    FieldErrorsView,
> {
    field_entry("username"@, register_username_violations(username)) + field_entry(
        "password"@,
        password_violations(password),
    ) + field_entry("confirmPassword"@, confirm_violations(password, confirm))
}

/// Every violation of a login, by field in the order username, password.
pub open spec fn login_report(username: Seq<char>, password: Seq<char>) -> Seq<FieldErrorsView> {
    field_entry("username"@, login_username_violations(username)) + field_entry(
        "password"@,
        password_violations(password),
    )
}

/// A username off the pattern `^[0-9a-zA-Z]{2,}$` fails validation, in a
/// registration and in a login: the first field reported is `username`, and
/// its messages name the pattern.
pub proof fn lemma_off_pattern_username_rejected(
    username: Seq<char>,
    password: Seq<char>,
    confirm: Seq<char>,
)
    requires
        !matches_username_pattern(username),
    ensures
        register_report(username, password, confirm).len() > 0,
        register_report(username, password, confirm)[0].0 == "username"@,
        register_report(username, password, confirm)[0].1.contains(
            "username is invalid - must be only alphanumeric characters"@,
        ),
        login_report(username, password).len() > 0,
        login_report(username, password)[0].0 == "username"@,
        login_report(username, password)[0].1.contains(
            "username is invalid - must be only alphanumeric/underscore characters"@,
        ),
{
    let rv = register_username_violations(username);
    let lv = login_username_violations(username);
    assert(rv.last() == "username is invalid - must be only alphanumeric characters"@);
    assert(rv.contains(rv.last()));
    assert(lv.last() == "username is invalid - must be only alphanumeric/underscore characters"@);
    assert(lv.contains(lv.last()));
}

/// A password shorter than 8 or longer than 75 characters fails validation, in a
/// registration and in a login, with an entry for the `password` field.
pub proof fn lemma_bad_password_length_rejected(
    username: Seq<char>,
    password: Seq<char>,
    confirm: Seq<char>,
)
    requires
        password.len() < 8 || password.len() > 75,
    ensures
        register_report(username, password, confirm).len() > 0,
        register_report(username, password, confirm).contains(
            ("password"@, seq!["password is invalid - must have minimum length of 8 characters"@]),
        ),
        login_report(username, password).len() > 0,
        login_report(username, password).contains(
            ("password"@, seq!["password is invalid - must have minimum length of 8 characters"@]),
        ),
{
    let e = ("password"@, seq!["password is invalid - must have minimum length of 8 characters"@]);
    let u1 = field_entry("username"@, register_username_violations(username));
    let u2 = field_entry("username"@, login_username_violations(username));
    let c = field_entry("confirmPassword"@, confirm_violations(password, confirm));
    assert(field_entry("password"@, password_violations(password)) == seq![e]);
    assert((u1 + seq![e] + c)[u1.len() as int] == e);
    assert((u2 + seq![e])[u2.len() as int] == e);
}

/// A confirmation that differs from the password fails a registration, whatever
/// the lengths: the last field reported is `confirmPassword`.
pub proof fn lemma_mismatched_confirmation_rejected(
    username: Seq<char>,
    password: Seq<char>,
    confirm: Seq<char>,
)
    requires
        confirm != password,
    ensures
        register_report(username, password, confirm).len() > 0,
        register_report(username, password, confirm).last() == (
            "confirmPassword"@,
            seq!["confirm password is not same as password"@],
        ),
{
}

/// Whether `s` matches `^[0-9a-zA-Z]{2,}$`.
pub fn is_valid_username_pattern(s: &str) -> (r: bool)
    ensures
        r == matches_username_pattern(s@),
{
    let n = s.unicode_len();
    if n < 2 {
        return false;
    }
    let mut i: usize = 0;
    while i < n
        invariant
            n == s@.len(),
            i <= n,
            forall|j: int| 0 <= j < i ==> is_alphanumeric(#[trigger] s@[j]),
        decreases n - i,
    {
        let u = s.get_char(i) as u32;
        if !((0x30 <= u && u <= 0x39) || (0x41 <= u && u <= 0x5a) || (0x61 <= u && u <= 0x7a)) {
            return false;
        }
        i = i + 1;
    }
    true
}

/// Whether the number of characters of `s` lies in `[min, max]`.
pub fn has_length_within(s: &str, min: usize, max: usize) -> (r: bool)
    ensures
        r == within(s@, min, max),
{
    let n = s.unicode_len();
    min <= n && n <= max
}

/// Appends `message` where the rule does not hold.
fn push_violation(messages: &mut Vec<String>, holds: bool, message: &str)
    ensures
        final(messages)@.map_values(|m: String| m@) == old(messages)@.map_values(|m: String| m@)
            + violation(holds, message@),
{
    let ghost before = messages@.map_values(|m: String| m@);
    if !holds {
        messages.push(String::from_str(message));
    }
    assert(messages@.map_values(|m: String| m@) =~= before + violation(holds, message@));
}

/// Adds the field's entry to the report, where it has violations.
fn push_field(report: &mut Vec<FieldErrors>, field: &str, messages: Vec<String>)
    ensures
        fields_view(final(report)@) == fields_view(old(report)@) + field_entry(
            field@,
            messages@.map_values(|m: String| m@),
        ),
{
    let ghost before = fields_view(report@);
    let ghost listed = messages@.map_values(|m: String| m@);
    if messages.len() > 0 {
        report.push(FieldErrors { field: String::from_str(field), messages });
    } else {
        assert(listed =~= Seq::<Seq<char>>::empty());
    }
    assert(fields_view(report@) =~= before + field_entry(field@, listed));
}

fn username_report(username: &str, length_message: &str, pattern_message: &str) -> (r: Vec<
    String,
>)
    ensures
        r@.map_values(|m: String| m@) == violation(
            within(username@, USERNAME_MIN, USERNAME_MAX),
            length_message@,
        ) + violation(matches_username_pattern(username@), pattern_message@),
{
    let mut messages: Vec<String> = Vec::new();
    push_violation(
        &mut messages,
        has_length_within(username, USERNAME_MIN, USERNAME_MAX),
        length_message,
    );
    push_violation(&mut messages, is_valid_username_pattern(username), pattern_message);
    messages
}

fn password_report(password: &str) -> (r: Vec<String>)
    ensures
        r@.map_values(|m: String| m@) == password_violations(password@),
{
    let mut messages: Vec<String> = Vec::new();
    push_violation(
        &mut messages,
        has_length_within(password, PASSWORD_MIN, PASSWORD_MAX),
        "password is invalid - must have minimum length of 8 characters",
    );
    proof {
        assert(messages@.map_values(|m: String| m@) =~= password_violations(password@));
    }
    messages
}

impl AuthRegister {
    /// Runs every rule on every field; `Err` holds the violations, field by field.
    pub fn validate(&self) -> (r: Result<(), Vec<FieldErrors>>)
        ensures
            match r {
                Ok(()) => register_report(
                    self.username@,
                    self.password@,
                    self.confirm_password@,
                ).len() == 0,
                Err(e) => register_report(self.username@, self.password@, self.confirm_password@).len()
                    > 0 && fields_view(e@) == register_report(
                    self.username@,
                    self.password@,
                    self.confirm_password@,
                ),
            },
    {
        let mut report: Vec<FieldErrors> = Vec::new();
        proof {
            assert(fields_view(report@) =~= Seq::<FieldErrorsView>::empty());
        }
        let names = username_report(
            &self.username,
            "username is invalid - must be 2-25 characters only",
            "username is invalid - must be only alphanumeric characters",
        );
        push_field(&mut report, "username", names);
        let passwords = password_report(&self.password);
        push_field(&mut report, "password", passwords);
        let mut confirms: Vec<String> = Vec::new();
        push_violation(
            &mut confirms,
            self.confirm_password == self.password,
            "confirm password is not same as password",
        );
        push_field(&mut report, "confirmPassword", confirms);
        proof {
            let u = field_entry("username"@, register_username_violations(self.username@));
            assert(Seq::<FieldErrorsView>::empty() + u =~= u);
        }
        if report.len() == 0 {
            Ok(())
        } else {
            Err(report)
        }
    }
}

impl AuthLogin {
    /// Runs every rule on every field; `Err` holds the violations, field by field.
    pub fn validate(&self) -> (r: Result<(), Vec<FieldErrors>>)
        ensures
            match r {
                Ok(()) => login_report(self.username@, self.password@).len() == 0,
                Err(e) => login_report(self.username@, self.password@).len() > 0 && fields_view(e@)
                    == login_report(self.username@, self.password@),
            },
    {
        let mut report: Vec<FieldErrors> = Vec::new();
        proof {
            assert(fields_view(report@) =~= Seq::<FieldErrorsView>::empty());
        }
        let names = username_report(
            &self.username,
            "username is invalid - must be only 2-25 characters",
            "username is invalid - must be only alphanumeric/underscore characters",
        );
        push_field(&mut report, "username", names);
        let passwords = password_report(&self.password);
        push_field(&mut report, "password", passwords);
        proof {
            let u = field_entry("username"@, login_username_violations(self.username@));
            assert(Seq::<FieldErrorsView>::empty() + u =~= u);
        }
        if report.len() == 0 {
            Ok(())
        } else {
            Err(report)
        }
    }
}

} // verus!
