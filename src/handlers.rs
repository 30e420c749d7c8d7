//! The two request handlers and the records they exchange.
use vstd::prelude::*;

verus! {

/// HTTP status `200 OK`.
pub const STATUS_OK: u16 = 200;

/// HTTP status `201 Created`.
pub const STATUS_CREATED: u16 = 201;

/// The identifier given to every created user: no identifier is generated
/// and nothing is stored.
pub const USER_ID: u64 = 1337;

/// Path of the greeting endpoint (`GET`).
pub const ROOT_PATH: &'static str = "/";

/// Path of the user-creation endpoint (`POST`).
pub const USERS_PATH: &'static str = "/users";

/// The body of a user-creation request, once decoded from JSON.
pub struct CreateUserReq {
    pub username: String,
}

/// The record returned for a created user.
pub struct User {
    pub id: u64,
    pub username: String,
}

/// What a user record is, as plain values.
pub struct UserView {
    pub id: nat,
    pub username: Seq<char>,
}

impl View for User {
    type V = UserView;

    open spec fn view(&self) -> UserView {
        UserView { id: self.id as nat, username: self.username@ }
    }
}

/// The greeting served on the root path.
pub open spec fn greeting() -> Seq<char> {
    "Hello, World!"@
}

/// The user record created for a request that names `username`: the name is
/// kept exactly as sent, and the identifier is always the fixed one.
pub open spec fn created_user(username: Seq<char>) -> UserView {
    UserView { id: USER_ID as nat, username }
}

/// Handles `GET /`: status 200 and the fixed greeting, whatever the request.
pub fn root() -> (r: (u16, &'static str))
    ensures
        r.0 == STATUS_OK,
        r.1@ == greeting(),
{
    (STATUS_OK, "Hello, World!")
}

/// Handles `POST /users` once the body has been decoded: status 201 and a
/// user whose name is the requested one, unchanged, with the fixed identifier.
pub fn create_user(payload: CreateUserReq) -> (r: (u16, User))
    ensures
        r.0 == STATUS_CREATED,
        r.1@ == created_user(payload.username@),
        r.1.id == USER_ID,
        r.1.username@ == payload.username@,
{
    let user = User { id: USER_ID, username: payload.username };
    (STATUS_CREATED, user)
}

/// Creating a user keeps no state: two requests, whatever their names and in
/// whatever order, both get the fixed identifier, and each gets its own name
/// back unchanged.
pub proof fn lemma_identifier_is_fixed(first: Seq<char>, second: Seq<char>)
    ensures
        created_user(first).id == USER_ID,
        created_user(second).id == USER_ID,
        created_user(first).username == first,
        created_user(second).username == second,
        first != second ==> created_user(first) != created_user(second),
{
}

} // verus!
