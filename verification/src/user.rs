//! The User identity record, its credential operations, and the identity
//! uniqueness guard that admits a new principal only when its login name
//! and contact address are unused.

use vstd::prelude::*;
use vstd::string::*;

use crate::credentials::{compute_digest, digest_of, material_ok};
use crate::errors::{SResult, YaddakError, YaddakErrorKind};
use crate::repo::{first_match, views_of, Entity, Table};
use crate::repo::{lemma_filter_empty_iff, lemma_views_of_index};
use crate::db::{
    binds_of, build_create_table, build_delete, build_insert, build_select, build_select_all,
    build_update, create_table_sql, delete_sql, insert_sql, names_of, select_all_sql, select_sql,
    update_sql, ColKind, ColumnSpec, ColumnSpecV, DbValue, DbValueV,
};
use crate::text::eq_verbatim;

verus! {

/// One identity record: a 128-bit identifier, a unique login name, a
/// unique contact address, and the stored credential digest.
#[derive(Debug)]
pub struct User {
    pub id: u128,
    pub user_name: String,
    pub user_email: String,
    pub user_auth: String,
}

/// The value view of a `User`.
pub struct UserV {
    pub id: u128,
    pub user_name: Seq<char>,
    pub user_email: Seq<char>,
    pub user_auth: Seq<char>,
}

impl View for User {
    type V = UserV;

    open spec fn view(&self) -> UserV {
        UserV {
            id: self.id,
            user_name: self.user_name@,
            user_email: self.user_email@,
            user_auth: self.user_auth@,
        }
    }
}

impl Entity for User {
    open spec fn key_spec(v: UserV) -> u128 {
        v.id
    }

    open spec fn update_spec(cur: UserV, src: UserV) -> UserV {
        UserV {
            id: cur.id,
            user_name: src.user_name,
            user_email: src.user_email,
            user_auth: src.user_auth,
        }
    }

    fn key_of(&self) -> (r: u128) {
        self.id
    }

    fn duplicate(&self) -> (r: Self) {
        User {
            id: self.id,
            user_name: self.user_name.clone(),
            user_email: self.user_email.clone(),
            user_auth: self.user_auth.clone(),
        }
    }

    fn updated(&self, src: &Self) -> (r: Self) {
        User {
            id: self.id,
            user_name: src.user_name.clone(),
            user_email: src.user_email.clone(),
            user_auth: src.user_auth.clone(),
        }
    }
}

/// The body of a registration request.
#[derive(Debug)]
pub struct CreateUserRequest {
    pub user_name: String,
    pub user_email: String,
    pub user_pass: String,
}

/// The body of a login request.
#[derive(Debug)]
pub struct LoginUserRequest {
    pub user_name: String,
    pub user_pass: String,
}

/// The stored records whose login name equals `name`.
pub open spec fn name_filter(rows: Seq<UserV>, name: Seq<char>) -> Seq<UserV> {
    rows.filter(|v: UserV| v.user_name == name)
}

/// Whether some stored record uses the login name `name`.
pub open spec fn name_taken(rows: Seq<UserV>, name: Seq<char>) -> bool {
    name_filter(rows, name).len() > 0
}

/// Whether some stored record uses the contact address `email`.
pub open spec fn email_taken(rows: Seq<UserV>, email: Seq<char>) -> bool {
    rows.filter(|v: UserV| v.user_email == email).len() > 0
}

/// Whether the bearer token equals, verbatim, the credential digest of some
/// stored record.
pub open spec fn token_matches(rows: Seq<UserV>, token: Seq<char>) -> bool {
    exists|i: int| 0 <= i < rows.len() && rows[i].user_auth == token
}

/// The view of the record that registration admits for these inputs.
pub open spec fn hashed_user(
    id: u128,
    user_name: Seq<char>,
    user_email: Seq<char>,
    user_pass: Seq<char>,
    secret: Seq<char>,
) -> UserV {
    UserV {
        id,
        user_name,
        user_email,
        user_auth: digest_of(id, user_name, user_pass, secret),
    }
}

/// Whether verification accepts the pair (name, pass) against the stored
/// digest of `u` under the process-wide `secret`.
pub open spec fn verify_accepts(
    u: UserV,
    user_name: Seq<char>,
    user_pass: Seq<char>,
    secret: Seq<char>,
) -> bool {
    u.user_auth == digest_of(u.id, user_name, user_pass, secret)
}

/// Law: a record admitted for (name, pass) verifies against the same
/// (name, pass) under the same process-wide secret.
pub proof fn lemma_verify_after_hash(
    id: u128,
    user_name: Seq<char>,
    user_email: Seq<char>,
    user_pass: Seq<char>,
    secret: Seq<char>,
)
    ensures
        verify_accepts(
            hashed_user(id, user_name, user_email, user_pass, secret),
            user_name,
            user_pass,
            secret,
        ),
{
}

/// Law: a record admitted for one secret rejects any other secret whose
/// derived digest differs.  The hypothesis rules out digest collisions,
/// which no statement about the underlying hash function excludes.
pub proof fn lemma_verify_rejects_other_secret(
    id: u128,
    user_name: Seq<char>,
    user_email: Seq<char>,
    pass_stored: Seq<char>,
    pass_tried: Seq<char>,
    secret: Seq<char>,
)
    requires
        digest_of(id, user_name, pass_stored, secret) != digest_of(
            id,
            user_name,
            pass_tried,
            secret,
        ),
    ensures
        !verify_accepts(
            hashed_user(id, user_name, user_email, pass_stored, secret),
            user_name,
            pass_tried,
            secret,
        ),
{
}

impl User {
    /// The empty record: nil identifier, empty names and digest.
    pub fn new() -> (r: Self)
        ensures
            r.id == 0,
            r.user_name@ == Seq::<char>::empty(),
            r.user_email@ == Seq::<char>::empty(),
            r.user_auth@ == Seq::<char>::empty(),
    {
        Self {
            id: 0,
            user_name: String::new(),
            user_email: String::new(),
            user_auth: String::new(),
        }
    }

    /// Derives and stores this record's credential digest from the login
    /// name already in the record, the plaintext secret, and the
    /// process-wide keying secret.  Fails only past the hash function's
    /// machine ceiling on input length.
    fn hash_password(&mut self, user_pass: &String, secret: &String) -> (r: SResult<()>)
        ensures
            final(self).id == old(self).id,
            final(self).user_name == old(self).user_name,
            final(self).user_email == old(self).user_email,
            material_ok(old(self).user_name@, user_pass@, secret@) <==> r is Ok,
            r is Ok ==> final(self).user_auth@ == digest_of(
                old(self).id,
                old(self).user_name@,
                user_pass@,
                secret@,
            ),
            r is Err ==> final(self).user_auth == old(self).user_auth && r->Err_0.kind
                == YaddakErrorKind::InternalError,
    {
        match compute_digest(self.id, &self.user_name, user_pass, secret) {
            Ok(digest) => {
                self.user_auth = digest;
                Ok(())
            },
            Err(m) => Err(YaddakError::internal_error(m)),
        }
    }

    /// Recomputes the digest from the supplied name and plaintext secret
    /// and compares it, character for character, against the stored digest.
    /// Succeeds exactly when the two agree.
    pub fn authenticate(&self, user_name: String, user_pass: String, secret: &String) -> (r:
        SResult<()>)
        ensures
            r is Ok ==> verify_accepts(self@, user_name@, user_pass@, secret@),
            material_ok(user_name@, user_pass@, secret@) ==> (r is Ok <==> verify_accepts(
                self@,
                user_name@,
                user_pass@,
                secret@,
            )),
            material_ok(user_name@, user_pass@, secret@) && r is Err ==> r->Err_0.kind
                == YaddakErrorKind::AuthError && r->Err_0.msg() == "Could not Sign In"@,
            r is Err ==> r->Err_0.kind == YaddakErrorKind::AuthError || r->Err_0.kind
                == YaddakErrorKind::InternalError,
    {
        match compute_digest(self.id, &user_name, &user_pass, secret) {
            Ok(generated) => {
                if eq_verbatim(generated.as_str(), self.user_auth.as_str()) {
                    Ok(())
                } else {
                    Err(YaddakError::authorize_error(String::from_str("Could not Sign In")))
                }
            },
            Err(m) => Err(YaddakError::internal_error(m)),
        }
    }

    /// Admits a new principal under a caller-chosen identifier: the login
    /// name and contact address must be unused, the credential is hashed,
    /// and the record is appended.  On any failure the rows are unchanged.
    pub fn create_with_id(
        table: &mut Table<User>,
        id: u128,
        user_name: String,
        user_email: String,
        user_pass: String,
        secret: &String,
    ) -> (r: SResult<User>)
        ensures
            final(table).created == old(table).created,
            r is Err ==> final(table).rows == old(table).rows,
            !old(table).created ==> r is Err && r->Err_0.kind == YaddakErrorKind::DBError,
            old(table).created && name_taken(old(table).view_rows(), user_name@) ==> r is Err
                && r->Err_0.kind == YaddakErrorKind::AuthError && r->Err_0.msg()
                == "Username is already used"@,
            old(table).created && !name_taken(old(table).view_rows(), user_name@) && email_taken(
                old(table).view_rows(),
                user_email@,
            ) ==> r is Err && r->Err_0.kind == YaddakErrorKind::AuthError && r->Err_0.msg()
                == "That email is already used"@,
            old(table).created && !name_taken(old(table).view_rows(), user_name@) && !email_taken(
                old(table).view_rows(),
                user_email@,
            ) && !material_ok(user_name@, user_pass@, secret@) ==> r is Err && r->Err_0.kind
                == YaddakErrorKind::InternalError,
            old(table).created && !name_taken(old(table).view_rows(), user_name@) && !email_taken(
                old(table).view_rows(),
                user_email@,
            ) && material_ok(user_name@, user_pass@, secret@) && first_match::<User>(
                old(table).view_rows(),
                id,
            ) is Some ==> r is Err && r->Err_0.kind == YaddakErrorKind::DBError && r->Err_0.msg()
                == "duplicate key"@,
            old(table).created && !name_taken(old(table).view_rows(), user_name@) && !email_taken(
                old(table).view_rows(),
                user_email@,
            ) && material_ok(user_name@, user_pass@, secret@) && first_match::<User>(
                old(table).view_rows(),
                id,
            ) is None ==> r is Ok,
            r is Ok ==> r->Ok_0@ == hashed_user(id, user_name@, user_email@, user_pass@, secret@)
                && final(table).view_rows() == old(table).view_rows().push(r->Ok_0@),
    {
        match User::user_name_not_used(table, &user_name) {
            Ok(()) => (),
            Err(e) => {
                return Err(e);
            },
        }
        match User::user_email_not_used(table, &user_email) {
            Ok(()) => (),
            Err(e) => {
                return Err(e);
            },
        }
        let mut user = User { id, user_name, user_email, user_auth: String::new() };
        match user.hash_password(&user_pass, secret) {
            Ok(()) => (),
            Err(e) => {
                return Err(e);
            },
        }
        match table.post(&user) {
            Ok(()) => Ok(user),
            Err(e) => Err(e),
        }
    }

    /// Admits a new principal under a freshly drawn identifier.  Succeeds
    /// whenever the login name and contact address are unused and the
    /// inputs are within the hash function's machine ceiling, except when
    /// the drawn identifier collides with a stored one.
    pub fn create(
        table: &mut Table<User>,
        user_name: String,
        user_email: String,
        user_pass: String,
        secret: &String,
    ) -> (r: SResult<User>)
        ensures
            final(table).created == old(table).created,
            r is Err ==> final(table).rows == old(table).rows,
            !old(table).created ==> r is Err && r->Err_0.kind == YaddakErrorKind::DBError,
            old(table).created && name_taken(old(table).view_rows(), user_name@) ==> r is Err
                && r->Err_0.kind == YaddakErrorKind::AuthError && r->Err_0.msg()
                == "Username is already used"@,
            old(table).created && !name_taken(old(table).view_rows(), user_name@) && email_taken(
                old(table).view_rows(),
                user_email@,
            ) ==> r is Err && r->Err_0.kind == YaddakErrorKind::AuthError && r->Err_0.msg()
                == "That email is already used"@,
            old(table).created && !name_taken(old(table).view_rows(), user_name@) && !email_taken(
                old(table).view_rows(),
                user_email@,
            ) && !material_ok(user_name@, user_pass@, secret@) ==> r is Err && r->Err_0.kind
                == YaddakErrorKind::InternalError,
            old(table).created && !name_taken(old(table).view_rows(), user_name@) && !email_taken(
                old(table).view_rows(),
                user_email@,
            ) && material_ok(user_name@, user_pass@, secret@) && r is Err ==> r->Err_0.kind
                == YaddakErrorKind::DBError,
            r is Ok ==> r->Ok_0@ == hashed_user(
                r->Ok_0.id,
                user_name@,
                user_email@,
                user_pass@,
                secret@,
            ) && final(table).view_rows() == old(table).view_rows().push(r->Ok_0@),
    {
        let id = crate::ids::fresh_id();
        User::create_with_id(table, id, user_name, user_email, user_pass, secret)
    }

    /// Checks that no stored record uses the login name `user_name`.
    pub fn user_name_not_used(table: &Table<User>, user_name: &String) -> (r: SResult<()>)
        ensures
            !table.created ==> r is Err && r->Err_0.kind == YaddakErrorKind::DBError,
            table.created ==> match r {
                Ok(()) => !name_taken(table.view_rows(), user_name@),
                Err(e) => name_taken(table.view_rows(), user_name@) && e.kind
                    == YaddakErrorKind::AuthError && e.msg() == "Username is already used"@,
            },
    {
        let rows = match get_users_by_username(table, user_name) {
            Ok(rows) => rows,
            Err(e) => {
                return Err(e);
            },
        };
        if rows.len() != 0 {
            proof {
                crate::repo::lemma_views_of_len::<User>(rows@);
            }
            return Err(
                YaddakError::authorize_error(String::from_str("Username is already used")),
            );
        }
        proof {
            crate::repo::lemma_views_of_len::<User>(rows@);
        }
        Ok(())
    }

    /// Checks that no stored record uses the contact address `user_email`.
    pub fn user_email_not_used(table: &Table<User>, user_email: &String) -> (r: SResult<()>)
        ensures
            !table.created ==> r is Err && r->Err_0.kind == YaddakErrorKind::DBError,
            table.created ==> match r {
                Ok(()) => !email_taken(table.view_rows(), user_email@),
                Err(e) => email_taken(table.view_rows(), user_email@) && e.kind
                    == YaddakErrorKind::AuthError && e.msg() == "That email is already used"@,
            },
    {
        if !table.created {
            return Err(YaddakError::database_error(String::from_str("no such table")));
        }
        let mut i: usize = 0;
        let mut seen = false;
        while i < table.rows.len() && !seen
            invariant
                i <= table.rows@.len(),
                forall|k: int| 0 <= k < i ==> table.view_rows()[k].user_email != user_email@,
                seen ==> i < table.rows@.len() && table.view_rows()[i as int].user_email
                    == user_email@,
            decreases table.rows@.len() - i + (if seen {
                0int
            } else {
                1int
            }),
        {
            proof {
                lemma_views_of_index::<User>(table.rows@, i as int);
            }
            if eq_verbatim(table.rows[i].user_email.as_str(), user_email.as_str()) {
                seen = true;
            } else {
                i = i + 1;
            }
        }
        proof {
            lemma_filter_empty_iff(table.view_rows(), |v: UserV| v.user_email == user_email@);
            if seen {
                assert(table.view_rows().filter(|v: UserV| v.user_email == user_email@).len()
                    != 0);
            }
        }
        if seen {
            Err(YaddakError::authorize_error(String::from_str("That email is already used")))
        } else {
            Ok(())
        }
    }

    /// Fetches the one stored record whose login name is `user_name`;
    /// anything other than exactly one match is a not-found failure.
    pub fn get_user_by_name(table: &Table<User>, user_name: &String) -> (r: SResult<User>)
        ensures
            !table.created ==> r is Err && r->Err_0.kind == YaddakErrorKind::DBError,
            table.created ==> match r {
                Ok(u) => name_filter(table.view_rows(), user_name@).len() == 1 && u@ == name_filter(
                    table.view_rows(),
                    user_name@,
                )[0],
                Err(e) => name_filter(table.view_rows(), user_name@).len() != 1 && e.kind
                    == YaddakErrorKind::AuthError && e.msg() == "Not Found"@,
            },
    {
        let rows = match get_users_by_username(table, user_name) {
            Ok(rows) => rows,
            Err(e) => {
                return Err(e);
            },
        };
        proof {
            crate::repo::lemma_views_of_len::<User>(rows@);
        }
        if rows.len() != 1 {
            return Err(YaddakError::authorize_error(String::from_str("Not Found")));
        }
        proof {
            lemma_views_of_index::<User>(rows@, 0);
        }
        Ok(rows[0].duplicate())
    }

    /// Validates a bearer token by presence: succeeds exactly when the
    /// token equals, verbatim, the stored credential digest of some record.
    pub fn check_auth(table: &Table<User>, auth_header: &String) -> (r: SResult<()>)
        ensures
            !table.created ==> r is Err && r->Err_0.kind == YaddakErrorKind::DBError,
            table.created ==> match r {
                Ok(()) => token_matches(table.view_rows(), auth_header@),
                Err(e) => !token_matches(table.view_rows(), auth_header@) && e.kind
                    == YaddakErrorKind::AuthError && e.msg() == "Could not authenticate"@,
            },
    {
        if !table.created {
            return Err(YaddakError::database_error(String::from_str("no such table")));
        }
        let mut i: usize = 0;
        let mut seen = false;
        while i < table.rows.len() && !seen
            invariant
                i <= table.rows@.len(),
                forall|k: int| 0 <= k < i ==> table.view_rows()[k].user_auth != auth_header@,
                seen ==> i < table.rows@.len() && table.view_rows()[i as int].user_auth
                    == auth_header@,
            decreases table.rows@.len() - i + (if seen {
                0int
            } else {
                1int
            }),
        {
            proof {
                lemma_views_of_index::<User>(table.rows@, i as int);
            }
            if eq_verbatim(table.rows[i].user_auth.as_str(), auth_header.as_str()) {
                seen = true;
            } else {
                i = i + 1;
            }
        }
        if seen {
            Ok(())
        } else {
            Err(YaddakError::authorize_error(String::from_str("Could not authenticate")))
        }
    }
}

/// All stored records whose login name is `user_name`, in storage order.
fn get_users_by_username(table: &Table<User>, user_name: &String) -> (r: SResult<Vec<User>>)
    ensures
        !table.created ==> r is Err && r->Err_0.kind == YaddakErrorKind::DBError,
        table.created ==> r is Ok && views_of(r->Ok_0@) == name_filter(
            table.view_rows(),
            user_name@,
        ),
{
    if !table.created {
        return Err(YaddakError::database_error(String::from_str("no such table")));
    }
    let mut out: Vec<User> = Vec::new();
    let mut i: usize = 0;
    while i < table.rows.len()
        invariant
            i <= table.rows@.len(),
            views_of(out@) == table.view_rows().subrange(0, i as int).filter(
                |v: UserV| v.user_name == user_name@,
            ),
        decreases table.rows@.len() - i,
    {
        proof {
            lemma_views_of_index::<User>(table.rows@, i as int);
            assert(table.view_rows().subrange(0, i + 1) =~= table.view_rows().subrange(
                0,
                i as int,
            ).push(table.view_rows()[i as int]));
            crate::repo::lemma_filter_push(
                table.view_rows().subrange(0, i as int),
                |v: UserV| v.user_name == user_name@,
                table.view_rows()[i as int],
            );
        }
        if eq_verbatim(table.rows[i].user_name.as_str(), user_name.as_str()) {
            let ghost prev = out@;
            let item = table.rows[i].duplicate();
            out.push(item);
            proof {
                crate::repo::lemma_views_of_push::<User>(prev, item);
            }
        }
        i = i + 1;
    }
    proof {
        crate::repo::lemma_views_of_len::<User>(table.rows@);
        assert(table.view_rows().subrange(0, table.view_rows().len() as int) =~= table.view_rows());
    }
    Ok(out)
}

/// The name of the identity table's backing schema object.
pub open spec fn user_table_name() -> Seq<char> {
    "user_model"@
}

/// The columns of the identity table, in the order every statement lists
/// them.
pub open spec fn user_columns_spec() -> Seq<Seq<char>> {
    seq!["id"@, "user_email"@, "user_name"@, "user_auth"@]
}

/// The identity table's columns as the builders take them.
pub fn user_columns() -> (r: Vec<&'static str>)
    ensures
        names_of(r@) == user_columns_spec(),
        r@.len() == 4,
{
    let r: Vec<&'static str> = vec!["id", "user_email", "user_name", "user_auth"];
    proof {
        assert(names_of(r@) =~= user_columns_spec());
    }
    r
}

/// The statement that fetches every record carrying a login name.
pub fn user_by_name_stmt(user_name: &String) -> (r: (String, sea_query_binder::SqlxValues))
    ensures
        r.0@ == select_sql(user_table_name(), user_columns_spec(), "user_name"@, None),
        binds_of(r.1) == seq![DbValueV::Str(Some(user_name@))],
{
    build_select("user_model", &user_columns(), "user_name", DbValue::Text(user_name.clone()), None)
}

/// The statement that probes for one record carrying a contact address.
pub fn user_by_email_stmt(user_email: &String) -> (r: (String, sea_query_binder::SqlxValues))
    ensures
        r.0@ == select_sql(user_table_name(), user_columns_spec(), "user_email"@, Some(1)),
        binds_of(r.1) == seq![DbValueV::Str(Some(user_email@)), DbValueV::Count(1)],
{
    build_select(
        "user_model",
        &user_columns(),
        "user_email",
        DbValue::Text(user_email.clone()),
        Some(1),
    )
}

/// The statement that looks a bearer token up against the stored digests.
pub fn user_auth_stmt(token: &String) -> (r: (String, sea_query_binder::SqlxValues))
    ensures
        r.0@ == select_sql(user_table_name(), seq!["user_auth"@], "user_auth"@, None),
        binds_of(r.1) == seq![DbValueV::Str(Some(token@))],
{
    let cols: Vec<&'static str> = vec!["user_auth"];
    proof {
        assert(names_of(cols@) =~= seq!["user_auth"@]);
    }
    build_select("user_model", &cols, "user_auth", DbValue::Text(token.clone()), None)
}

/// The statement that fetches one record by identifier.
pub fn user_by_id_stmt(id: u128) -> (r: (String, sea_query_binder::SqlxValues))
    ensures
        r.0@ == select_sql(user_table_name(), user_columns_spec(), "id"@, Some(1)),
        binds_of(r.1) == seq![DbValueV::Id(id), DbValueV::Count(1)],
{
    build_select("user_model", &user_columns(), "id", DbValue::Id(id), Some(1))
}

/// The statement that fetches every record.
pub fn all_users_stmt() -> (r: (String, sea_query_binder::SqlxValues))
    ensures
        r.0@ == select_all_sql(user_table_name(), user_columns_spec()),
        binds_of(r.1) == Seq::<DbValueV>::empty(),
{
    build_select_all("user_model", &user_columns())
}

/// The statement that appends one record, binding identifier, contact
/// address, login name and digest in column order.
pub fn insert_user_stmt(model: &User) -> (r: Result<(String, sea_query_binder::SqlxValues), String>)
    ensures
        r is Ok,
        r is Ok ==> r->Ok_0.0@ == insert_sql(user_table_name(), user_columns_spec())
            && binds_of(r->Ok_0.1) == seq![
            DbValueV::Id(model.id),
            DbValueV::Str(Some(model.user_email@)),
            DbValueV::Str(Some(model.user_name@)),
            DbValueV::Str(Some(model.user_auth@)),
        ],
{
    let vals: Vec<DbValue> = vec![
        DbValue::Id(model.id),
        DbValue::Text(model.user_email.clone()),
        DbValue::Text(model.user_name.clone()),
        DbValue::Text(model.user_auth.clone()),
    ];
    proof {
        assert(views_of(vals@) =~= seq![
            DbValueV::Id(model.id),
            DbValueV::Str(Some(model.user_email@)),
            DbValueV::Str(Some(model.user_name@)),
            DbValueV::Str(Some(model.user_auth@)),
        ]);
    }
    build_insert("user_model", &user_columns(), vals)
}

/// The statement that overwrites the mutable fields of the records
/// matching an identifier.
pub fn update_user_stmt(id: u128, model: &User) -> (r: (String, sea_query_binder::SqlxValues))
    ensures
        r.0@ == update_sql(
            user_table_name(),
            seq!["user_name"@, "user_email"@, "user_auth"@],
            "id"@,
        ),
        binds_of(r.1) == seq![
            DbValueV::Str(Some(model.user_name@)),
            DbValueV::Str(Some(model.user_email@)),
            DbValueV::Str(Some(model.user_auth@)),
            DbValueV::Id(id),
        ],
{
    let cols: Vec<&'static str> = vec!["user_name", "user_email", "user_auth"];
    let vals: Vec<DbValue> = vec![
        DbValue::Text(model.user_name.clone()),
        DbValue::Text(model.user_email.clone()),
        DbValue::Text(model.user_auth.clone()),
    ];
    proof {
        assert(names_of(cols@) =~= seq!["user_name"@, "user_email"@, "user_auth"@]);
        assert(views_of(vals@).push(DbValueV::Id(id)) =~= seq![
            DbValueV::Str(Some(model.user_name@)),
            DbValueV::Str(Some(model.user_email@)),
            DbValueV::Str(Some(model.user_auth@)),
            DbValueV::Id(id),
        ]);
    }
    build_update("user_model", &cols, vals, "id", DbValue::Id(id))
}

/// The statement that removes the records matching an identifier.
pub fn delete_user_stmt(id: u128) -> (r: (String, sea_query_binder::SqlxValues))
    ensures
        r.0@ == delete_sql(user_table_name(), "id"@),
        binds_of(r.1) == seq![DbValueV::Id(id)],
{
    build_delete("user_model", "id", DbValue::Id(id))
}

/// The columns of the identity table's schema object, in creation order.
pub open spec fn users_schema() -> Seq<ColumnSpecV> {
    seq![
        (ColumnSpecV { name: "id"@, kind: ColKind::Identifier, required: true, primary: true }),
        (ColumnSpecV { name: "user_auth"@, kind: ColKind::Text, required: true, primary: false }),
        (ColumnSpecV { name: "user_name"@, kind: ColKind::Text, required: true, primary: false }),
        (ColumnSpecV { name: "user_email"@, kind: ColKind::Text, required: true, primary: false }),
    ]
}

/// The statement that creates the identity table if absent.
pub fn create_users_table_stmt() -> (r: String)
    ensures
        r@ == create_table_sql(user_table_name(), users_schema(), None),
{
    let cols: Vec<ColumnSpec> = vec![
        ColumnSpec { name: "id", kind: ColKind::Identifier, required: true, primary: true },
        ColumnSpec { name: "user_auth", kind: ColKind::Text, required: true, primary: false },
        ColumnSpec { name: "user_name", kind: ColKind::Text, required: true, primary: false },
        ColumnSpec { name: "user_email", kind: ColKind::Text, required: true, primary: false },
    ];
    proof {
        assert(views_of(cols@) =~= users_schema());
    }
    build_create_table("user_model", &cols, None)
}

} // verus!
