//! The decision core of each entity route: every function takes the store
//! model and the request values, and returns the HTTP status code together
//! with the uniform response envelope.  The transport layer only marshals
//! requests into these calls and answers out of their results.

use vstd::prelude::*;

use crate::credentials::material_ok;
use crate::errors::{YaddakError, YaddakErrorKind};
use crate::headers::{auth_handler, bearer_token};
use crate::repo::{first_match, views_of, Entity, Table};
use crate::response::DetailedResponse;
use crate::user::{
    email_taken, hashed_user, name_filter, name_taken, token_matches, verify_accepts,
    CreateUserRequest, LoginUserRequest, User, UserV,
};

verus! {

/// Marker for the generated API documentation that the transport layer
/// serves; the crate itself attaches no behaviour to it.
#[derive(Debug)]
pub struct ApiDocs;

/// Validates the `Authorization` value against the stored credential
/// state.  A missing or empty header is refused with 403, a present but
/// unmatched credential with 401.
pub fn authorize_header(table: &Table<User>, header: Option<&String>) -> (r: Result<
    String,
    (u16, YaddakError),
>)
    ensures
        match r {
            Ok(tok) => header is Some && bearer_token(header->0@).len() > 0 && tok@
                == bearer_token(header->0@) && table.created && token_matches(
                table.view_rows(),
                tok@,
            ),
            Err((code, e)) => match header {
                None => code == 403 && e.kind == YaddakErrorKind::AuthError,
                Some(h) => {
                    if bearer_token(h@).len() == 0 {
                        code == 403 && e.kind == YaddakErrorKind::AuthError
                    } else if !table.created {
                        code == 401 && e.kind == YaddakErrorKind::DBError
                    } else {
                        code == 401 && !token_matches(table.view_rows(), bearer_token(h@))
                            && e.kind == YaddakErrorKind::AuthError
                    }
                },
            },
        },
{
    match auth_handler(header) {
        Ok(tok) => {
            match User::check_auth(table, &tok) {
                Ok(()) => Ok(tok),
                Err(e) => Err((401, e)),
            }
        },
        Err(e) => Err((403, e)),
    }
}

/// Registers a new principal: 200 with the admitted record, 400 on a
/// uniqueness or credential failure, 500 on a storage or internal failure.
pub fn register(table: &mut Table<User>, payload: CreateUserRequest, secret: &String) -> (r: (
    u16,
    DetailedResponse<User>,
))
    ensures
        r.1.wf(),
        (r.0 == 200) <==> (r.1.data is Some),
        r.0 == 200 || r.0 == 400 || r.0 == 500,
        final(table).created == old(table).created,
        r.1.data is Some ==> r.1.data->0@ == hashed_user(
            r.1.data->0.id,
            payload.user_name@,
            payload.user_email@,
            payload.user_pass@,
            secret@,
        ) && final(table).view_rows() == old(table).view_rows().push(r.1.data->0@),
        r.1.error is Some ==> final(table).rows == old(table).rows && r.0 == (
        if r.1.error->0.kind == YaddakErrorKind::AuthError {
            400u16
        } else {
            500u16
        }),
        !old(table).created ==> r.0 == 500,
        old(table).created && name_taken(old(table).view_rows(), payload.user_name@) ==> r.0
            == 400 && r.1.error is Some && r.1.error->0.msg() == "Username is already used"@,
        old(table).created && !name_taken(old(table).view_rows(), payload.user_name@)
            && email_taken(old(table).view_rows(), payload.user_email@) ==> r.0 == 400
            && r.1.error is Some && r.1.error->0.msg() == "That email is already used"@,
        old(table).created && !name_taken(old(table).view_rows(), payload.user_name@)
            && !email_taken(old(table).view_rows(), payload.user_email@) && material_ok(
            payload.user_name@,
            payload.user_pass@,
            secret@,
        ) && r.1.error is Some ==> r.1.error->0.kind == YaddakErrorKind::DBError,
{
    match User::create(table, payload.user_name, payload.user_email, payload.user_pass, secret) {
        Ok(user) => (200, DetailedResponse::absorb_data(user)),
        Err(e) => {
            match e.kind {
                YaddakErrorKind::AuthError => (400, DetailedResponse::absorb_error(e)),
                _ => (500, DetailedResponse::absorb_error(e)),
            }
        },
    }
}

/// Logs a principal in: 404 when no single record carries the login name,
/// 401 when the credential does not verify, 200 with the record otherwise.
pub fn login(table: &Table<User>, payload: LoginUserRequest, secret: &String) -> (r: (
    u16,
    DetailedResponse<User>,
))
    ensures
        r.1.wf(),
        (r.0 == 200) <==> (r.1.data is Some),
        r.0 == 200 || r.0 == 401 || r.0 == 404,
        !table.created ==> r.0 == 404 && r.1.error is Some && r.1.error->0.kind
            == YaddakErrorKind::DBError,
        table.created && name_filter(table.view_rows(), payload.user_name@).len() != 1 ==> r.0
            == 404 && r.1.error is Some && r.1.error->0.kind == YaddakErrorKind::AuthError
            && r.1.error->0.msg() == "Not Found"@,
        table.created && name_filter(table.view_rows(), payload.user_name@).len() == 1 ==> {
            let u = name_filter(table.view_rows(), payload.user_name@)[0];
            &&& r.0 == 200 ==> r.1.data is Some && r.1.data->0@ == u && verify_accepts(
                u,
                payload.user_name@,
                payload.user_pass@,
                secret@,
            )
            &&& material_ok(payload.user_name@, payload.user_pass@, secret@) ==> (r.0 == 200
                <==> verify_accepts(u, payload.user_name@, payload.user_pass@, secret@))
            &&& r.0 != 200 ==> r.0 == 401 && r.1.error is Some && (r.1.error->0.kind
                == YaddakErrorKind::AuthError || r.1.error->0.kind
                == YaddakErrorKind::InternalError)
            &&& material_ok(payload.user_name@, payload.user_pass@, secret@) && r.0 == 401
                ==> r.1.error is Some && r.1.error->0.kind == YaddakErrorKind::AuthError
                && r.1.error->0.msg() == "Could not Sign In"@
        },
{
    match User::get_user_by_name(table, &payload.user_name) {
        Ok(user) => {
            match user.authenticate(payload.user_name, payload.user_pass, secret) {
                Ok(()) => {
                    let code: u16 = 200;
                    (code, DetailedResponse::absorb_data(user))
                },
                Err(e) => (401, DetailedResponse::absorb_error(e)),
            }
        },
        Err(e) => (404, DetailedResponse::absorb_error(e)),
    }
}

/// Serves one record to an authorized caller: 403 or 401 from the guard,
/// then 200 with the record or 500 when the fetch fails.
pub fn get_user(table: &Table<User>, header: Option<&String>, id: u128) -> (r: (
    u16,
    DetailedResponse<User>,
))
    ensures
        r.1.wf(),
        (r.0 == 200) <==> (r.1.data is Some),
        r.0 == 200 || r.0 == 401 || r.0 == 403 || r.0 == 500,
        header is None ==> r.0 == 403,
        header is Some && bearer_token(header->0@).len() == 0 ==> r.0 == 403,
        header is Some && bearer_token(header->0@).len() > 0 && !table.created ==> r.0 == 401,
        header is Some && bearer_token(header->0@).len() > 0 && table.created && !token_matches(
            table.view_rows(),
            bearer_token(header->0@),
        ) ==> r.0 == 401,
        header is Some && bearer_token(header->0@).len() > 0 && table.created && token_matches(
            table.view_rows(),
            bearer_token(header->0@),
        ) ==> match first_match::<User>(table.view_rows(), id) {
            Some(u) => r.0 == 200 && r.1.data is Some && r.1.data->0@ == u,
            None => r.0 == 500,
        },
{
    match authorize_header(table, header) {
        Ok(_) => (),
        Err((code, e)) => {
            return (code, DetailedResponse::absorb_error(e));
        },
    }
    match table.get(id) {
        Ok(user) => (200, DetailedResponse::absorb_data(user)),
        Err(e) => (500, DetailedResponse::absorb_error(e)),
    }
}

/// Serves every record to an authorized caller.
pub fn get_all(table: &Table<User>, header: Option<&String>) -> (r: (
    u16,
    DetailedResponse<Vec<User>>,
))
    ensures
        r.1.wf(),
        (r.0 == 200) <==> (r.1.data is Some),
        r.0 == 200 || r.0 == 401 || r.0 == 403 || r.0 == 500,
        header is None ==> r.0 == 403,
        header is Some && bearer_token(header->0@).len() == 0 ==> r.0 == 403,
        header is Some && bearer_token(header->0@).len() > 0 && !table.created ==> r.0 == 401,
        header is Some && bearer_token(header->0@).len() > 0 && table.created && !token_matches(
            table.view_rows(),
            bearer_token(header->0@),
        ) ==> r.0 == 401,
        header is Some && bearer_token(header->0@).len() > 0 && table.created && token_matches(
            table.view_rows(),
            bearer_token(header->0@),
        ) ==> r.0 == 200 && r.1.data is Some && views_of(r.1.data->0@) == table.view_rows(),
{
    match authorize_header(table, header) {
        Ok(_) => (),
        Err((code, e)) => {
            return (code, DetailedResponse::absorb_error(e));
        },
    }
    match table.get_all() {
        Ok(users) => (200, DetailedResponse::absorb_data(users)),
        Err(e) => (500, DetailedResponse::absorb_error(e)),
    }
}

/// Overwrites the mutable fields of the record matching `id` for an
/// authorized caller: 200 echoes the payload, any storage failure answers
/// not-modified.
pub fn update(table: &mut Table<User>, header: Option<&String>, id: u128, payload: User) -> (r: (
    u16,
    DetailedResponse<User>,
))
    ensures
        r.1.wf(),
        (r.0 == 200) <==> (r.1.data is Some),
        r.0 == 200 || r.0 == 304 || r.0 == 401 || r.0 == 403,
        final(table).created == old(table).created,
        r.0 == 401 || r.0 == 403 ==> final(table).rows == old(table).rows,
        header is None ==> r.0 == 403,
        header is Some && bearer_token(header->0@).len() == 0 ==> r.0 == 403,
        header is Some && bearer_token(header->0@).len() > 0 && !old(table).created ==> r.0
            == 401,
        header is Some && bearer_token(header->0@).len() > 0 && old(table).created
            && !token_matches(old(table).view_rows(), bearer_token(header->0@)) ==> r.0 == 401,
        header is Some && bearer_token(header->0@).len() > 0 && old(table).created
            && token_matches(old(table).view_rows(), bearer_token(header->0@)) ==> r.0 == 200
            && r.1.data == Some(payload) && final(table).view_rows() == old(
            table,
        ).view_rows().map_values(
            |v: UserV|
                if v.id == id {
                    UserV {
                        id: v.id,
                        user_name: payload.user_name@,
                        user_email: payload.user_email@,
                        user_auth: payload.user_auth@,
                    }
                } else {
                    v
                },
        ),
{
    match authorize_header(table, header) {
        Ok(_) => (),
        Err((code, e)) => {
            return (code, DetailedResponse::absorb_error(e));
        },
    }
    match table.put(id, &payload) {
        Ok(()) => (200, DetailedResponse::absorb_data(payload)),
        Err(e) => (304, DetailedResponse::absorb_error(e)),
    }
}

/// Removes the record matching `id` for an authorized caller: 200 echoes
/// the identifier, any storage failure answers not-modified.
pub fn remove(table: &mut Table<User>, header: Option<&String>, id: u128) -> (r: (
    u16,
    DetailedResponse<u128>,
))
    ensures
        r.1.wf(),
        (r.0 == 200) <==> (r.1.data is Some),
        r.0 == 200 || r.0 == 304 || r.0 == 401 || r.0 == 403,
        final(table).created == old(table).created,
        r.0 == 401 || r.0 == 403 ==> final(table).rows == old(table).rows,
        header is None ==> r.0 == 403,
        header is Some && bearer_token(header->0@).len() == 0 ==> r.0 == 403,
        header is Some && bearer_token(header->0@).len() > 0 && !old(table).created ==> r.0
            == 401,
        header is Some && bearer_token(header->0@).len() > 0 && old(table).created
            && !token_matches(old(table).view_rows(), bearer_token(header->0@)) ==> r.0 == 401,
        header is Some && bearer_token(header->0@).len() > 0 && old(table).created
            && token_matches(old(table).view_rows(), bearer_token(header->0@)) ==> r.0 == 200
            && r.1.data == Some(id) && final(table).view_rows() == old(table).view_rows().filter(
            |v: UserV| User::key_spec(v) != id,
        ),
{
    match authorize_header(table, header) {
        Ok(_) => (),
        Err((code, e)) => {
            return (code, DetailedResponse::absorb_error(e));
        },
    }
    match table.delete(id) {
        Ok(()) => (200, DetailedResponse::absorb_data(id)),
        Err(e) => (304, DetailedResponse::absorb_error(e)),
    }
}

} // verus!
