use vstd::prelude::*;

use crate::errors::{
    conflict_message, hash_format_message, hashing_message, unauthorized_message,
    validation_message, AppError, DetailsView,
};
use crate::hashing::{argon2_accepts, phc_parses};
use crate::errors::FieldErrorsView;
use crate::model::{
    field_entry, login_report, password_violations, register_report, register_username_violations,
    AuthLogin, AuthRegister,
};
use crate::services::{
    login_after_fetch, login_begin, login_is_valid, register_after_confirm, register_after_exists,
    register_after_insert, register_begin, register_is_valid, result_fails_with,
    result_fails_with_message, Step, StoreAction,
};

verus! {

/// One row of the `credentials` table.
pub struct Credential {
    pub username: String,
    pub password_hash: String,
}

/// A `credentials` table held in memory, keyed by username, which it keeps
/// unique.
pub struct CredentialStore {
    rows: Vec<Credential>,
}

/// What a registration may do to a store whose rows are `before`: the answer
/// `r`, and the rows `after`.
pub open spec fn register_outcome(
    before: Map<Seq<char>, Seq<char>>,
    req: &AuthRegister,
    r: Result<String, AppError>,
    after: Map<Seq<char>, Seq<char>>,
) -> bool {
    let u = req.username@;
    if !register_is_valid(req) {
        after == before && result_fails_with(
            r,
            422,
            validation_message(),
            Some(
                DetailsView::Fields(
                    register_report(req.username@, req.password@, req.confirm_password@),
                ),
            ),
        )
    } else if before.contains_key(u) {
        after == before && result_fails_with(r, 409, conflict_message(u), None)
    } else {
        (after == before && result_fails_with_message(r, 500, hashing_message())) || (
        r matches Ok(n) && n@ == u && after.contains_key(u) && after == before.insert(u, after[u])
            && phc_parses(after[u]) && argon2_accepts(req.password@, after[u]))
    }
}

/// What a login answers on a store whose rows are `rows`.
pub open spec fn login_outcome(
    rows: Map<Seq<char>, Seq<char>>,
    req: &AuthLogin,
    r: Result<String, AppError>,
) -> bool {
    let u = req.username@;
    if !login_is_valid(req) {
        result_fails_with(
            r,
            422,
            validation_message(),
            Some(DetailsView::Fields(login_report(req.username@, req.password@))),
        )
    } else if !rows.contains_key(u) {
        result_fails_with_message(r, 401, unauthorized_message(u))
    } else if !phc_parses(rows[u]) {
        result_fails_with_message(r, 500, hash_format_message())
    } else if argon2_accepts(req.password@, rows[u]) {
        r matches Ok(n) && n@ == u
    } else {
        result_fails_with_message(r, 401, unauthorized_message(u))
    }
}

/// Registering one username twice: on a store without it, the first valid
/// registration succeeds unless hashing failed; once it has succeeded, a second
/// valid registration of that username is a conflict naming it, and changes
/// nothing.
pub proof fn lemma_register_twice(
    s0: Map<Seq<char>, Seq<char>>,
    first: &AuthRegister,
    r1: Result<String, AppError>,
    s1: Map<Seq<char>, Seq<char>>,
    second: &AuthRegister,
    r2: Result<String, AppError>,
    s2: Map<Seq<char>, Seq<char>>,
)
    requires
        register_is_valid(first),
        register_is_valid(second),
        second.username@ == first.username@,
        !s0.contains_key(first.username@),
        register_outcome(s0, first, r1, s1),
        register_outcome(s1, second, r2, s2),
    ensures
        (r1 matches Ok(n) && n@ == first.username@) || result_fails_with_message(
            r1,
            500,
            hashing_message(),
        ),
        r1 is Ok ==> s2 == s1 && result_fails_with(r2, 409, conflict_message(first.username@), None),
{
}

/// Logging in under a username that was never registered is refused as
/// unauthorized, with the generic message.
pub proof fn lemma_unknown_username_unauthorized(
    rows: Map<Seq<char>, Seq<char>>,
    req: &AuthLogin,
    r: Result<String, AppError>,
)
    requires
        login_is_valid(req),
        !rows.contains_key(req.username@),
        login_outcome(rows, req, r),
    ensures
        r is Err,
        result_fails_with_message(r, 401, unauthorized_message(req.username@)),
{
}

/// A wrong password for a registered user and an unknown username are answered
/// alike: the same status, the same message, a diagnostic as details.
pub proof fn lemma_wrong_password_like_unknown_username(
    rows1: Map<Seq<char>, Seq<char>>,
    unknown: &AuthLogin,
    r1: Result<String, AppError>,
    rows2: Map<Seq<char>, Seq<char>>,
    wrong: &AuthLogin,
    r2: Result<String, AppError>,
)
    requires
        login_is_valid(unknown),
        login_is_valid(wrong),
        unknown.username@ == wrong.username@,
        !rows1.contains_key(unknown.username@),
        rows2.contains_key(wrong.username@),
        phc_parses(rows2[wrong.username@]),
        !argon2_accepts(wrong.password@, rows2[wrong.username@]),
        login_outcome(rows1, unknown, r1),
        login_outcome(rows2, wrong, r2),
    ensures
        r1 matches Err(e1) && r2 matches Err(e2) && e1.status() == e2.status() == 401
            && e1.envelope().0 == e2.envelope().0 && e1.envelope().1 == e2.envelope().1
            && e1.envelope().2 is Some && e2.envelope().2 is Some,
{
}

/// After a registration succeeds, logging in with the same username and
/// password succeeds.
pub proof fn lemma_registered_user_logs_in(
    s0: Map<Seq<char>, Seq<char>>,
    reg: &AuthRegister,
    r1: Result<String, AppError>,
    s1: Map<Seq<char>, Seq<char>>,
    login: &AuthLogin,
    r2: Result<String, AppError>,
)
    requires
        register_outcome(s0, reg, r1, s1),
        r1 is Ok,
        login.username@ == reg.username@,
        login.password@ == reg.password@,
        login_outcome(s1, login, r2),
    ensures
        r2 matches Ok(n) && n@ == reg.username@,
{
    let u = reg.username@;
    let p = reg.password@;
    let c = reg.confirm_password@;
    let eu = field_entry("username"@, register_username_violations(u));
    let ep = field_entry("password"@, password_violations(p));
    assert(register_report(u, p, c).len() == 0);
    assert(eu.len() == 0 && ep.len() == 0);
    assert(login_report(u, p) =~= Seq::<FieldErrorsView>::empty());
}

impl CredentialStore {
    spec fn row_has(&self, i: int, u: Seq<char>) -> bool {
        0 <= i < self.rows@.len() && self.rows@[i].username@ == u
    }

    /// The rows, as a map from username to password hash.
    pub closed spec fn view(&self) -> Map<Seq<char>, Seq<char>> {
        Map::new(
            |u: Seq<char>| exists|i: int| self.row_has(i, u),
            |u: Seq<char>| self.rows@[choose|i: int| self.row_has(i, u)].password_hash@,
        )
    }

    /// No two rows share a username.
    pub closed spec fn wf(&self) -> bool {
        forall|i: int, j: int|
            0 <= i < j < self.rows@.len() ==> self.rows@[i].username@ != self.rows@[j].username@
    }

    proof fn lemma_row_value(&self, i: int)
        requires
            self.wf(),
            0 <= i < self.rows@.len(),
        ensures
            self@.contains_key(self.rows@[i].username@),
            self@[self.rows@[i].username@] == self.rows@[i].password_hash@,
    {
        let u = self.rows@[i].username@;
        assert(self.row_has(i, u));
        let j = choose|j: int| self.row_has(j, u);
        assert(j == i);
    }

    /// An empty table.
    pub fn new() -> (r: CredentialStore)
        ensures
            r.wf(),
            r@ == Map::<Seq<char>, Seq<char>>::empty(),
    {
        let r = CredentialStore { rows: Vec::new() };
        assert(r@ =~= Map::<Seq<char>, Seq<char>>::empty());
        r
    }

    /// The index of the row of `username`, if there is one.
    fn find(&self, username: &String) -> (r: Option<usize>)
        requires
            self.wf(),
        ensures
            r is None <==> !self@.contains_key(username@),
            r matches Some(i) ==> self.row_has(i as int, username@) && self@[username@]
                == self.rows@[i as int].password_hash@,
    {
        let mut i: usize = 0;
        while i < self.rows.len()
            invariant
                self.wf(),
                i <= self.rows@.len(),
                forall|j: int| 0 <= j < i ==> !self.row_has(j, username@),
            decreases self.rows@.len() - i,
        {
            if self.rows[i].username == *username {
                proof {
                    self.lemma_row_value(i as int);
                }
                return Some(i);
            }
            i = i + 1;
        }
        None
    }

    /// Whether a row with this username exists.
    pub fn has_username(&self, username: &String) -> (r: bool)
        requires
            self.wf(),
        ensures
            r == self@.contains_key(username@),
    {
        self.find(username).is_some()
    }

    /// Inserts a row; refused when the username is already present.
    pub fn insert(&mut self, username: String, password_hash: String) -> (r: Result<(), String>)
        requires
            old(self).wf(),
        ensures
            final(self).wf(),
            old(self)@.contains_key(username@) ==> r is Err && final(self)@ == old(self)@,
            !old(self)@.contains_key(username@) ==> r is Ok && final(self)@ == old(self)@.insert(
                username@,
                password_hash@,
            ),
    {
        if self.find(&username).is_some() {
            return Err(String::from_str("duplicate entry for key 'username'"));
        }
        let ghost before = *self;
        let ghost u = username@;
        let ghost h = password_hash@;
        self.rows.push(Credential { username, password_hash });
        proof {
            let n = before.rows@.len() as int;
            assert(self.row_has(n, u));
            assert forall|j: int| 0 <= j < n implies self.rows@[j] == before.rows@[j]
                && !before.row_has(j, u) by {
                if before.row_has(j, u) {
                    assert(before@.contains_key(u));
                }
            }
            assert forall|i: int, j: int| 0 <= i < j < self.rows@.len() implies self.rows@[i].username@
                != self.rows@[j].username@ by {
                if j == n {
                    assert(!before.row_has(i, u));
                } else {
                    assert(before.rows@[i].username@ != before.rows@[j].username@);
                }
            }
            assert(self.wf());
            assert forall|k: Seq<char>| #[trigger] self@.contains_key(k) == before@.insert(
                u,
                h,
            ).contains_key(k) by {
                if k != u {
                    if self@.contains_key(k) {
                        let i = choose|i: int| self.row_has(i, k);
                        assert(before.row_has(i, k));
                    }
                    if before@.contains_key(k) {
                        let i = choose|i: int| before.row_has(i, k);
                        assert(self.row_has(i, k));
                    }
                }
            }
            assert forall|k: Seq<char>| #[trigger] self@.contains_key(k) implies self@[k]
                == before@.insert(u, h)[k] by {
                let i = choose|i: int| self.row_has(i, k);
                self.lemma_row_value(i);
                if k != u {
                    assert(before.row_has(i, k));
                    before.lemma_row_value(i);
                }
            }
            assert(self@ =~= before@.insert(u, h));
        }
        Ok(())
    }

    /// The password hash of the row with this username, `None` where there is no
    /// such row. A table in memory does not fail.
    pub fn fetch_password_hash(&self, username: &String) -> (r: Result<Option<String>, String>)
        requires
            self.wf(),
        ensures
            r is Ok,
            r matches Ok(None) ==> !self@.contains_key(username@),
            r matches Ok(Some(h)) ==> self@.contains_key(username@) && h@ == self@[username@],
    {
        match self.find(username) {
            Some(i) => Ok(Some(self.rows[i].password_hash.clone())),
            None => Ok(None),
        }
    }

    /// The username of the row with this username.
    pub fn fetch_username(&self, username: &String) -> (r: Result<String, String>)
        requires
            self.wf(),
        ensures
            r is Ok <==> self@.contains_key(username@),
            r matches Ok(s) ==> s@ == username@,
    {
        match self.find(username) {
            Some(i) => Ok(self.rows[i].username.clone()),
            None => Err(String::from_str("no rows returned by a query that expected to return at least one row")),
        }
    }

    /// Registers a user: validation, existence check, hashing, insert and
    /// read-back, each answered by this store.
    pub fn register(&mut self, req: &AuthRegister) -> (r: Result<String, AppError>)
        requires
            old(self).wf(),
        ensures
            final(self).wf(),
            register_outcome(old(self)@, req, r, final(self)@),
    {
        match register_begin(req) {
            Step::Finish(r) => {
                return r;
            },
            Step::Perform(_) => {},
        }
        let exists = Ok(self.has_username(&req.username));
        let (username, password_hash) = match register_after_exists(req, exists) {
            Step::Finish(r) => {
                return r;
            },
            Step::Perform(StoreAction::Insert { username, password_hash }) => (
                username,
                password_hash,
            ),
            Step::Perform(_) => {
                return vstd::pervasive::unreached();
            },
        };
        let ghost h = password_hash@;
        let inserted = self.insert(username, password_hash);
        match register_after_insert(req, inserted) {
            Step::Finish(r) => {
                return r;
            },
            Step::Perform(_) => {},
        }
        let stored = self.fetch_username(&req.username);
        match register_after_confirm(req, stored) {
            Step::Finish(r) => {
                assert(self@.contains_key(req.username@) && self@[req.username@] == h);
                r
            },
            Step::Perform(_) => vstd::pervasive::unreached(),
        }
    }

    /// Logs a user in: validation, fetch of the stored hash, and its check.
    pub fn login(&self, req: &AuthLogin) -> (r: Result<String, AppError>)
        requires
            self.wf(),
        ensures
            login_outcome(self@, req, r),
    {
        match login_begin(req) {
            Step::Finish(r) => {
                return r;
            },
            Step::Perform(_) => {},
        }
        let fetched = self.fetch_password_hash(&req.username);
        match login_after_fetch(req, fetched) {
            Step::Finish(r) => r,
            Step::Perform(_) => vstd::pervasive::unreached(),
        }
    }
}

} // verus!
