//! The user record, its derived request/response shapes, and the user
//! table: lookup by id, lookup by credentials, list-all, insert, update
//! and delete, each with an exact contract over the table's contents.

use vstd::prelude::*;
use vstd::string::StrSliceExecFns;
use vstd::string::StringExecFns;

use crate::crypto::hash;
use crate::crypto::hash_of;
use crate::errors::ApiError;

verus! {

/// The canonical persisted record. `password` always holds the stored
/// (hashed) form, never a plaintext, from the moment the record is built.
#[derive(Clone, Debug, PartialEq)]
pub struct User {
    pub id: String,
    pub first_name: String,
    pub last_name: String,
    pub email: String,
    pub password: String,
    pub created_by: String,
    pub created_at: i64,
    pub updated_by: String,
    pub updated_at: i64,
}

/// Creation input; carries a plaintext password which is hashed exactly
/// once when converted into a `User`.
#[derive(Clone, Debug, PartialEq)]
pub struct NewUser {
    pub id: String,
    pub first_name: String,
    pub last_name: String,
    pub email: String,
    pub password: String,
    pub created_by: String,
    pub updated_by: String,
}

/// Mutation input; only the mutable identity fields, no password change.
#[derive(Clone, Debug, PartialEq)]
pub struct UpdateUser {
    pub id: String,
    pub first_name: String,
    pub last_name: String,
    pub email: String,
    pub updated_by: String,
}

/// Minimal identity pair, embedded into a session token's claim.
#[derive(Clone, Debug, PartialEq)]
pub struct AuthUser {
    pub id: String,
    pub email: String,
}

/// Output shape: a `User` minus the password field, which is never
/// serialized to a client.
#[derive(Clone, Debug, PartialEq)]
pub struct UserResponse {
    pub id: String,
    pub first_name: String,
    pub last_name: String,
    pub email: String,
    pub created_by: String,
    pub created_at: i64,
    pub updated_by: String,
    pub updated_at: i64,
}

/// An ordered sequence of `UserResponse`.
#[derive(Clone, Debug, PartialEq)]
pub struct UsersResponse(pub Vec<UserResponse>);

/// The user table: every record, in insertion order.
pub struct UserStore {
    users: Vec<User>,
}

impl View for UserStore {
    type V = Seq<User>;

    closed spec fn view(&self) -> Seq<User> {
        self.users@
    }
}

/// The response shape of a record: every field but the password.
pub open spec fn response_of(u: User) -> UserResponse {
    UserResponse {
        id: u.id,
        first_name: u.first_name,
        last_name: u.last_name,
        email: u.email,
        created_by: u.created_by,
        created_at: u.created_at,
        updated_by: u.updated_by,
        updated_at: u.updated_at,
    }
}

/// The response shapes of a whole table, in table order.
pub open spec fn responses_of(s: Seq<User>) -> Seq<UserResponse> {
    s.map_values(|u: User| response_of(u))
}

/// No two records share an id.
pub open spec fn unique_ids(s: Seq<User>) -> bool {
    forall|i: int, j: int|
        0 <= i < s.len() && 0 <= j < s.len() && i != j ==> s[i].id@ != s[j].id@
}

/// Some record carries the given id.
pub open spec fn has_user_id(s: Seq<User>, id: Seq<char>) -> bool {
    exists|i: int| 0 <= i < s.len() && s[i].id@ == id
}

/// The index of the first record with the given id, or -1 if none has it.
pub open spec fn user_index(s: Seq<User>, id: Seq<char>) -> int
    decreases s.len(),
{
    if s.len() == 0 {
        -1
    } else if s[0].id@ == id {
        0
    } else {
        let rest = user_index(s.skip(1), id);
        if rest < 0 {
            -1
        } else {
            rest + 1
        }
    }
}

/// A record matches a credential pair when both its email and its stored
/// password agree with it exactly.
pub open spec fn auth_matches(u: User, email: Seq<char>, password: Seq<char>) -> bool {
    u.email@ == email && u.password@ == password
}

/// The index of the first record matching a credential pair, or -1.
pub open spec fn auth_index(s: Seq<User>, email: Seq<char>, password: Seq<char>) -> int
    decreases s.len(),
{
    if s.len() == 0 {
        -1
    } else if auth_matches(s[0], email, password) {
        0
    } else {
        let rest = auth_index(s.skip(1), email, password);
        if rest < 0 {
            -1
        } else {
            rest + 1
        }
    }
}

/// A record after an update input is applied to it: the mutable identity
/// fields come from the input, the update time is stamped, and the id,
/// password and creation fields are untouched.
pub open spec fn apply_update(u: User, up: UpdateUser, now: i64) -> User {
    User {
        id: u.id,
        first_name: up.first_name,
        last_name: up.last_name,
        email: up.email,
        password: u.password,
        created_by: u.created_by,
        created_at: u.created_at,
        updated_by: up.updated_by,
        updated_at: now,
    }
}

/// A table after an update input is applied: every record whose id
/// matches the input's is rewritten, all others are kept as they were.
pub open spec fn update_all(s: Seq<User>, up: UpdateUser, now: i64) -> Seq<User> {
    s.map_values(|u: User| if u.id@ == up.id@ { apply_update(u, up, now) } else { u })
}

/// A table with every record of the given id removed, order kept.
pub open spec fn without_id(s: Seq<User>, id: Seq<char>) -> Seq<User>
    decreases s.len(),
{
    if s.len() == 0 {
        s
    } else if s.last().id@ == id {
        without_id(s.drop_last(), id)
    } else {
        without_id(s.drop_last(), id).push(s.last())
    }
}

/// The message of a failed lookup by id.
pub open spec fn not_found_msg(id: Seq<char>) -> Seq<char> {
    "User "@ + id + " not found"@
}

/// The message of a failed credential lookup: deliberately generic, the
/// same whichever field mismatched.
pub open spec fn invalid_login_msg() -> Seq<char> {
    "Invalid login"@
}

/// The message of an insert refused by the id uniqueness constraint.
pub open spec fn duplicate_id_msg() -> Seq<char> {
    "duplicate user id"@
}

/// The message of an update whose id is not in the canonical encoding.
pub open spec fn invalid_id_msg() -> Seq<char> {
    "id is not a valid uuid"@
}

/// `user_index` finds exactly the first record with the id: a
/// non-negative result points at a match with no earlier match, and -1
/// means no record matches at all.
pub proof fn lemma_user_index(s: Seq<User>, id: Seq<char>)
    ensures
        user_index(s, id) == -1 || 0 <= user_index(s, id) < s.len(),
        user_index(s, id) >= 0 ==> s[user_index(s, id)].id@ == id,
        user_index(s, id) >= 0 ==> forall|j: int| 0 <= j < user_index(s, id) ==> s[j].id@ != id,
        user_index(s, id) == -1 ==> forall|j: int| 0 <= j < s.len() ==> s[j].id@ != id,
        user_index(s, id) >= 0 <==> has_user_id(s, id),
    decreases s.len(),
{
    if s.len() > 0 && s[0].id@ != id {
        let rest = s.skip(1);
        lemma_user_index(rest, id);
        if user_index(rest, id) == -1 {
            assert forall|j: int| 1 <= j < s.len() implies s[j].id@ != id by {
                assert(rest[j - 1] == s[j]);
            }
        } else {
            let k = user_index(rest, id);
            assert(rest[k] == s[k + 1]);
            assert forall|j: int| 1 <= j < k + 1 implies s[j].id@ != id by {
                assert(rest[j - 1] == s[j]);
            }
        }
    }
    if user_index(s, id) >= 0 {
        assert(has_user_id(s, id));
    }
}

/// A match with no earlier match is where `user_index` points.
pub proof fn lemma_user_index_at(s: Seq<User>, id: Seq<char>, i: int)
    requires
        0 <= i < s.len(),
        s[i].id@ == id,
        forall|j: int| 0 <= j < i ==> s[j].id@ != id,
    ensures
        user_index(s, id) == i,
{
    lemma_user_index(s, id);
}

/// `auth_index` finds exactly the first record matching a credential
/// pair, in the same sense as `lemma_user_index`.
pub proof fn lemma_auth_index(s: Seq<User>, email: Seq<char>, password: Seq<char>)
    ensures
        auth_index(s, email, password) == -1 || 0 <= auth_index(s, email, password) < s.len(),
        auth_index(s, email, password) >= 0 ==> auth_matches(
            s[auth_index(s, email, password)],
            email,
            password,
        ),
        auth_index(s, email, password) >= 0 ==> forall|j: int|
            0 <= j < auth_index(s, email, password) ==> !auth_matches(s[j], email, password),
        auth_index(s, email, password) == -1 ==> forall|j: int|
            0 <= j < s.len() ==> !auth_matches(s[j], email, password),
        auth_index(s, email, password) >= 0 <==> exists|i: int|
            0 <= i < s.len() && auth_matches(s[i], email, password),
    decreases s.len(),
{
    if s.len() > 0 && !auth_matches(s[0], email, password) {
        let rest = s.skip(1);
        lemma_auth_index(rest, email, password);
        if auth_index(rest, email, password) == -1 {
            assert forall|j: int| 1 <= j < s.len() implies !auth_matches(s[j], email, password) by {
                assert(rest[j - 1] == s[j]);
            }
        } else {
            let k = auth_index(rest, email, password);
            assert(rest[k] == s[k + 1]);
            assert forall|j: int| 1 <= j < k + 1 implies !auth_matches(s[j], email, password) by {
                assert(rest[j - 1] == s[j]);
            }
        }
    }
    if auth_index(s, email, password) >= 0 {
        let k = auth_index(s, email, password);
        assert(0 <= k < s.len() && auth_matches(s[k], email, password));
    }
}

/// What removal by id leaves behind: only records of other ids, each one
/// a record of the original table; the table is unchanged when no record
/// had the id, and id uniqueness is kept.
pub proof fn lemma_without_id(s: Seq<User>, id: Seq<char>)
    ensures
        without_id(s, id).len() <= s.len(),
        forall|j: int| 0 <= j < without_id(s, id).len() ==> without_id(s, id)[j].id@ != id,
        forall|j: int| 0 <= j < without_id(s, id).len() ==> exists|k: int|
            0 <= k < s.len() && s[k] == #[trigger] without_id(s, id)[j],
        !has_user_id(s, id) ==> without_id(s, id) == s,
        unique_ids(s) ==> unique_ids(without_id(s, id)),
    decreases s.len(),
{
    if s.len() > 0 {
        let rest = s.drop_last();
        lemma_without_id(rest, id);
        assert(forall|k: int| 0 <= k < rest.len() ==> rest[k] == s[k]);
        if unique_ids(s) {
            assert(unique_ids(rest));
        }
        if !has_user_id(s, id) {
            assert(!has_user_id(rest, id)) by {
                if has_user_id(rest, id) {
                    let i = choose|i: int| 0 <= i < rest.len() && rest[i].id@ == id;
                    assert(s[i].id@ == id);
                }
            }
            assert(without_id(s, id) =~= s);
        }
        if s.last().id@ != id && unique_ids(s) {
            let r = without_id(rest, id).push(s.last());
            assert forall|i1: int, i2: int|
                0 <= i1 < r.len() && 0 <= i2 < r.len() && i1 != i2 implies r[i1].id@
                != r[i2].id@ by {
                let prev = without_id(rest, id);
                if i1 < prev.len() && i2 < prev.len() {
                    assert(prev[i1].id@ != prev[i2].id@);
                } else {
                    let lo = if i1 < i2 { i1 } else { i2 };
                    let k = choose|k: int| 0 <= k < rest.len() && rest[k] == prev[lo];
                    assert(s[k].id@ != s[s.len() - 1].id@);
                }
            }
        }
    }
}

impl User {
    /// A structurally equal copy of the record.
    pub fn duplicate(&self) -> (r: User)
        ensures
            r == *self,
    {
        User {
            id: self.id.clone(),
            first_name: self.first_name.clone(),
            last_name: self.last_name.clone(),
            email: self.email.clone(),
            password: self.password.clone(),
            created_by: self.created_by.clone(),
            created_at: self.created_at,
            updated_by: self.updated_by.clone(),
            updated_at: self.updated_at,
        }
    }

    /// The record's response shape, with the password left out.
    pub fn to_response(&self) -> (r: UserResponse)
        ensures
            r == response_of(*self),
    {
        UserResponse {
            id: self.id.clone(),
            first_name: self.first_name.clone(),
            last_name: self.last_name.clone(),
            email: self.email.clone(),
            created_by: self.created_by.clone(),
            created_at: self.created_at,
            updated_by: self.updated_by.clone(),
            updated_at: self.updated_at,
        }
    }

    /// Build a record from a creation input at a given time: the
    /// password is hashed exactly once here, and both timestamps are
    /// stamped with the given time.
    pub fn from_new(new_user: &NewUser, now: i64) -> (r: User)
        ensures
            r.id == new_user.id,
            r.first_name == new_user.first_name,
            r.last_name == new_user.last_name,
            r.email == new_user.email,
            r.password@ == hash_of(new_user.password@),
            r.password@.len() == 64,
            new_user.password@.len() != 64 ==> r.password@ != new_user.password@,
            r.created_by == new_user.created_by,
            r.updated_by == new_user.updated_by,
            r.created_at == now,
            r.updated_at == now,
    {
        User {
            id: new_user.id.clone(),
            first_name: new_user.first_name.clone(),
            last_name: new_user.last_name.clone(),
            email: new_user.email.clone(),
            password: hash(new_user.password.as_str()),
            created_by: new_user.created_by.clone(),
            created_at: now,
            updated_by: new_user.updated_by.clone(),
            updated_at: now,
        }
    }

    /// Build a record from a creation input, stamped with the current
    /// time; both timestamps carry the same instant.
    pub fn from_new_now(new_user: &NewUser) -> (r: User)
        ensures
            r.id == new_user.id,
            r.first_name == new_user.first_name,
            r.last_name == new_user.last_name,
            r.email == new_user.email,
            r.password@ == hash_of(new_user.password@),
            r.password@.len() == 64,
            new_user.password@.len() != 64 ==> r.password@ != new_user.password@,
            r.created_by == new_user.created_by,
            r.updated_by == new_user.updated_by,
            r.created_at == r.updated_at,
    {
        let now = now_seconds();
        User::from_new(new_user, now)
    }
}

/// Relies on chrono's `Utc::now`: the current time as seconds since the
/// epoch; nothing is promised of the value.
#[verifier::external_body]
fn now_seconds() -> (t: i64) {
    chrono::Utc::now().timestamp()
}

impl UserStore {
    /// An empty table.
    pub fn new() -> (r: UserStore)
        ensures
            r@ == Seq::<User>::empty(),
            unique_ids(r@),
    {
        UserStore { users: Vec::new() }
    }
}

fn not_found_message(user_id: &str) -> (m: String)
    ensures
        m@ == not_found_msg(user_id@),
{
    let mut m = "User ".to_owned();
    m.append(user_id);
    m.append(" not found");
    m
}

/// Every record, in table order, mapped to its response shape.
pub fn get_all(store: &UserStore) -> (r: Result<UsersResponse, ApiError>)
    ensures
        match r {
            Ok(all) => all.0@ == responses_of(store@),
            Err(_) => false,
        },
{
    let n = store.users.len();
    let mut out: Vec<UserResponse> = Vec::new();
    let mut i: usize = 0;
    while i < n
        invariant
            n == store.users.len(),
            i <= n,
            out@ == responses_of(store@.subrange(0, i as int)),
        decreases n - i,
    {
        out.push(store.users[i].to_response());
        proof {
            let pre = store@.subrange(0, i as int);
            let cur = store@.subrange(0, i + 1 as int);
            assert(responses_of(cur) =~= responses_of(pre).push(response_of(store@[i as int])));
        }
        i += 1;
    }
    proof {
        assert(store@.subrange(0, store@.len() as int) =~= store@);
    }
    Ok(UsersResponse(out))
}

/// Exact-match lookup by id; a miss is a `NotFound` error whose message
/// names the missing id.
pub fn find(store: &UserStore, user_id: &str) -> (r: Result<UserResponse, ApiError>)
    ensures
        match r {
            Ok(resp) => user_index(store@, user_id@) >= 0 && resp == response_of(
                store@[user_index(store@, user_id@)],
            ),
            Err(e) => user_index(store@, user_id@) == -1 && match e {
                ApiError::NotFound(m) => m@ == not_found_msg(user_id@),
                _ => false,
            },
        },
{
    let target: String = user_id.to_owned();
    let n = store.users.len();
    let mut i: usize = 0;
    while i < n
        invariant
            n == store.users.len(),
            i <= n,
            target@ == user_id@,
            forall|j: int| 0 <= j < i ==> store@[j].id@ != user_id@,
        decreases n - i,
    {
        if store.users[i].id == target {
            proof {
                lemma_user_index_at(store@, user_id@, i as int);
            }
            return Ok(store.users[i].to_response());
        }
        i += 1;
    }
    proof {
        lemma_user_index(store@, user_id@);
    }
    Err(ApiError::NotFound(not_found_message(user_id)))
}

/// Lookup by credentials: both the email and the stored password form
/// must match exactly; any mismatch is the same generic `Unauthorized`
/// error, so a caller cannot tell which field was wrong.
pub fn find_by_auth(store: &UserStore, user_email: &str, user_password: &str) -> (r: Result<
    UserResponse,
    ApiError,
>)
    ensures
        match r {
            Ok(resp) => auth_index(store@, user_email@, user_password@) >= 0 && resp
                == response_of(store@[auth_index(store@, user_email@, user_password@)]),
            Err(e) => auth_index(store@, user_email@, user_password@) == -1 && match e {
                ApiError::Unauthorized(m) => m@ == invalid_login_msg(),
                _ => false,
            },
        },
{
    let email: String = user_email.to_owned();
    let password: String = user_password.to_owned();
    let n = store.users.len();
    let mut i: usize = 0;
    while i < n
        invariant
            n == store.users.len(),
            i <= n,
            email@ == user_email@,
            password@ == user_password@,
            forall|j: int| 0 <= j < i ==> !auth_matches(store@[j], user_email@, user_password@),
        decreases n - i,
    {
        if store.users[i].email == email && store.users[i].password == password {
            proof {
                lemma_auth_index(store@, user_email@, user_password@);
                assert(auth_matches(store@[i as int], user_email@, user_password@));
                let k = auth_index(store@, user_email@, user_password@);
                assert(k == i as int);
            }
            return Ok(store.users[i].to_response());
        }
        i += 1;
    }
    proof {
        lemma_auth_index(store@, user_email@, user_password@);
    }
    Err(ApiError::Unauthorized("Invalid login".to_owned()))
}

/// Insert a fully-built record; a second record with an existing id is
/// refused by the uniqueness constraint and the table is unchanged.
pub fn create(store: &mut UserStore, new_user: &User) -> (r: Result<UserResponse, ApiError>)
    requires
        unique_ids(old(store)@),
    ensures
        unique_ids(final(store)@),
        match r {
            Ok(resp) => !has_user_id(old(store)@, new_user.id@) && final(store)@ == old(
                store,
            )@.push(*new_user) && resp == response_of(*new_user),
            Err(e) => has_user_id(old(store)@, new_user.id@) && final(store)@ == old(store)@
                && match e {
                ApiError::InternalServerError(m) => m@ == duplicate_id_msg(),
                _ => false,
            },
        },
{
    let n = store.users.len();
    let mut i: usize = 0;
    while i < n
        invariant
            store@ == old(store)@,
            unique_ids(store@),
            n == store.users.len(),
            i <= n,
            forall|j: int| 0 <= j < i ==> store@[j].id@ != new_user.id@,
        decreases n - i,
    {
        if store.users[i].id == new_user.id {
            proof {
                assert(has_user_id(store@, new_user.id@));
            }
            return Err(ApiError::InternalServerError("duplicate user id".to_owned()));
        }
        i += 1;
    }
    proof {
        assert(!has_user_id(store@, new_user.id@)) by {
            if has_user_id(store@, new_user.id@) {
                let k = choose|k: int| 0 <= k < store@.len() && store@[k].id@ == new_user.id@;
                assert(store@[k].id@ != new_user.id@);
            }
        }
    }
    store.users.push(new_user.duplicate());
    Ok(new_user.to_response())
}

/// Apply an update input: rewrite every record whose id matches, then
/// re-read the row by id and return the canonical current state. An id
/// outside the canonical uuid encoding is rejected after the write, as a
/// validation error.
pub fn update(store: &mut UserStore, update_user: &UpdateUser, now: i64) -> (r: Result<
    UserResponse,
    ApiError,
>)
    ensures
        final(store)@ == update_all(old(store)@, *update_user, now),
        unique_ids(old(store)@) ==> unique_ids(final(store)@),
        match r {
            Ok(resp) => is_uuid_chars(update_user.id@) && user_index(
                final(store)@,
                update_user.id@,
            ) >= 0 && resp == response_of(
                final(store)@[user_index(final(store)@, update_user.id@)],
            ),
            Err(e) => match e {
                ApiError::ValidationError(msgs) => !is_uuid_chars(update_user.id@) && msgs@.len()
                    == 1 && msgs@[0]@ == invalid_id_msg(),
                ApiError::NotFound(m) => is_uuid_chars(update_user.id@) && user_index(
                    final(store)@,
                    update_user.id@,
                ) == -1 && m@ == not_found_msg(update_user.id@),
                _ => false,
            },
        },
{
    let ghost s0 = store@;
    let n = store.users.len();
    let mut out: Vec<User> = Vec::new();
    let mut i: usize = 0;
    while i < n
        invariant
            n == store.users.len(),
            store@ == s0,
            i <= n,
            out@ == update_all(s0.subrange(0, i as int), *update_user, now),
        decreases n - i,
    {
        let u = &store.users[i];
        if u.id == update_user.id {
            out.push(
                User {
                    id: u.id.clone(),
                    first_name: update_user.first_name.clone(),
                    last_name: update_user.last_name.clone(),
                    email: update_user.email.clone(),
                    password: u.password.clone(),
                    created_by: u.created_by.clone(),
                    created_at: u.created_at,
                    updated_by: update_user.updated_by.clone(),
                    updated_at: now,
                },
            );
        } else {
            out.push(u.duplicate());
        }
        proof {
            let pre = s0.subrange(0, i as int);
            let cur = s0.subrange(0, i + 1 as int);
            let f = |u: User|
                if u.id@ == update_user.id@ {
                    apply_update(u, *update_user, now)
                } else {
                    u
                };
            assert(update_all(cur, *update_user, now) =~= update_all(pre, *update_user, now).push(
                f(s0[i as int]),
            ));
        }
        i += 1;
    }
    proof {
        assert(s0.subrange(0, s0.len() as int) =~= s0);
    }
    store.users = out;
    proof {
        let s1 = store@;
        assert(forall|k: int| 0 <= k < s1.len() ==> s1[k].id@ == s0[k].id@);
    }
    if !is_uuid_string(update_user.id.as_str()) {
        return Err(ApiError::ValidationError(vec!["id is not a valid uuid".to_owned()]));
    }
    find(store, update_user.id.as_str())
}

/// Remove every record with the given id; removing an absent id is not
/// an error.
pub fn delete(store: &mut UserStore, user_id: &str) -> (r: Result<(), ApiError>)
    ensures
        r is Ok,
        final(store)@ == without_id(old(store)@, user_id@),
        unique_ids(old(store)@) ==> unique_ids(final(store)@),
        !has_user_id(final(store)@, user_id@),
{
    let ghost s0 = store@;
    let target: String = user_id.to_owned();
    let n = store.users.len();
    let mut out: Vec<User> = Vec::new();
    let mut i: usize = 0;
    while i < n
        invariant
            n == store.users.len(),
            store@ == s0,
            i <= n,
            target@ == user_id@,
            out@ == without_id(s0.subrange(0, i as int), user_id@),
        decreases n - i,
    {
        let u = &store.users[i];
        if !(u.id == target) {
            out.push(u.duplicate());
        }
        proof {
            let pre = s0.subrange(0, i as int);
            let cur = s0.subrange(0, i + 1 as int);
            assert(cur.drop_last() =~= pre);
            assert(cur.last() == s0[i as int]);
        }
        i += 1;
    }
    proof {
        assert(s0.subrange(0, s0.len() as int) =~= s0);
    }
    store.users = out;
    proof {
        lemma_without_id(s0, user_id@);
        lemma_user_index(store@, user_id@);
    }
    Ok(())
}

/// Whether a character is an ASCII hex digit.
pub open spec fn is_hex_digit_char(c: char) -> bool {
    (('0' as u32) <= (c as u32) && (c as u32) <= ('9' as u32)) || (('a' as u32) <= (c as u32) && (
    c as u32) <= ('f' as u32)) || (('A' as u32) <= (c as u32) && (c as u32) <= ('F' as u32))
}

/// What the canonical hyphenated uuid encoding demands of one position:
/// a hyphen at the four separator positions, a hex digit elsewhere.
pub open spec fn uuid_char_ok(s: Seq<char>, i: int) -> bool {
    if i == 8 || i == 13 || i == 18 || i == 23 {
        s[i] == '-'
    } else {
        is_hex_digit_char(s[i])
    }
}

/// The canonical hyphenated uuid encoding: 36 characters, hyphens at
/// positions 8, 13, 18 and 23, hex digits everywhere else.
pub open spec fn is_uuid_chars(s: Seq<char>) -> bool {
    s.len() == 36 && forall|i: int| 0 <= i < 36 ==> uuid_char_ok(s, i)
}

/// Whether a string is in the canonical hyphenated uuid encoding.
pub fn is_uuid_string(s: &str) -> (r: bool)
    ensures
        r == is_uuid_chars(s@),
{
    let n = s.unicode_len();
    if n != 36 {
        return false;
    }
    let mut i: usize = 0;
    while i < 36
        invariant
            s@.len() == 36,
            i <= 36,
            forall|j: int| 0 <= j < i ==> uuid_char_ok(s@, j),
        decreases 36 - i,
    {
        let c = s.get_char(i);
        let ok: bool = if i == 8 || i == 13 || i == 18 || i == 23 {
            c == '-'
        } else {
            let u = c as u32;
            (48 <= u && u <= 57) || (97 <= u && u <= 102) || (65 <= u && u <= 70)
        };
        if !ok {
            proof {
                assert(!uuid_char_ok(s@, i as int));
            }
            return false;
        }
        i += 1;
    }
    true
}

} // verus!
