//! The library's laws: properties that relate several operations, each
//! stated over the same spec functions the operations' contracts use and
//! proved once and for all.

use vstd::prelude::*;

use crate::crypto::hash_of;
use crate::user::apply_update;
use crate::user::auth_index;
use crate::user::auth_matches;
use crate::user::has_user_id;
use crate::user::invalid_login_msg;
use crate::user::lemma_auth_index;
use crate::user::lemma_user_index;
use crate::user::lemma_user_index_at;
use crate::user::lemma_without_id;
use crate::user::response_of;
use crate::user::unique_ids;
use crate::user::update_all;
use crate::user::user_index;
use crate::user::without_id;
use crate::user::NewUser;
use crate::user::UpdateUser;
use crate::user::User;

verus! {

/// Law: after a record built from a creation input is inserted into a
/// table that does not hold its id yet, a find by that id lands exactly
/// on it, and its response shape carries the input's visible fields and
/// the given creation instant, while the stored password is the hash of
/// the input's plaintext. The response shape has no password field at
/// all, so no response ever carries the plaintext.
pub proof fn lemma_create_then_find(s: Seq<User>, u: User, n: NewUser, now: i64)
    requires
        unique_ids(s),
        !has_user_id(s, n.id@),
        u.id == n.id,
        u.first_name == n.first_name,
        u.last_name == n.last_name,
        u.email == n.email,
        u.password@ == hash_of(n.password@),
        u.created_by == n.created_by,
        u.updated_by == n.updated_by,
        u.created_at == now,
        u.updated_at == now,
    ensures
        unique_ids(s.push(u)),
        has_user_id(s.push(u), n.id@),
        user_index(s.push(u), n.id@) == s.len(),
        s.push(u)[user_index(s.push(u), n.id@)] == u,
        s.push(u)[user_index(s.push(u), n.id@)].password@ == hash_of(n.password@),
        response_of(u).id == n.id,
        response_of(u).first_name == n.first_name,
        response_of(u).last_name == n.last_name,
        response_of(u).email == n.email,
        response_of(u).created_by == n.created_by,
        response_of(u).updated_by == n.updated_by,
        response_of(u).created_at == now,
        response_of(u).updated_at == now,
{
    let s2 = s.push(u);
    assert(s2[s.len() as int] == u);
    assert forall|j: int| 0 <= j < s.len() implies s2[j].id@ != n.id@ by {
        assert(s2[j] == s[j]);
        if s[j].id@ == n.id@ {
            assert(has_user_id(s, n.id@));
        }
    }
    lemma_user_index_at(s2, n.id@, s.len() as int);
}

/// Law: a credential lookup can succeed exactly when some record matches
/// both the email and the stored password form; a mismatch in either
/// field alone leaves no matching record.
pub proof fn lemma_auth_success_iff(s: Seq<User>, email: Seq<char>, password: Seq<char>)
    ensures
        auth_index(s, email, password) >= 0 <==> exists|i: int|
            0 <= i < s.len() && auth_matches(s[i], email, password),
{
    lemma_auth_index(s, email, password);
}

/// The visible outcome of a credential lookup at the model level: the
/// index of the record found, or the one generic refusal message.
pub enum AuthOutcome {
    Found(int),
    Refused(Seq<char>),
}

/// The outcome a credential lookup's contract promises for a table and a
/// credential pair.
pub open spec fn auth_outcome(s: Seq<User>, email: Seq<char>, password: Seq<char>) -> AuthOutcome {
    let k = auth_index(s, email, password);
    if k >= 0 {
        AuthOutcome::Found(k)
    } else {
        AuthOutcome::Refused(invalid_login_msg())
    }
}

/// Law: failed credential lookups are indistinguishable: whichever field
/// was wrong, and whatever was supplied, the visible outcome is the same.
pub proof fn lemma_auth_failure_indistinguishable(
    s: Seq<User>,
    email1: Seq<char>,
    password1: Seq<char>,
    email2: Seq<char>,
    password2: Seq<char>,
)
    requires
        auth_index(s, email1, password1) == -1,
        auth_index(s, email2, password2) == -1,
    ensures
        auth_outcome(s, email1, password1) == auth_outcome(s, email2, password2),
        auth_outcome(s, email1, password1) == AuthOutcome::Refused(invalid_login_msg()),
{
}

/// Law: after a delete by id, a find by that id always reports a miss;
/// deleting an id that no record holds changes nothing, and a delete is
/// never an error.
pub proof fn lemma_delete_then_find(s: Seq<User>, id: Seq<char>)
    ensures
        user_index(without_id(s, id), id) == -1,
        !has_user_id(without_id(s, id), id),
        !has_user_id(s, id) ==> without_id(s, id) == s,
{
    lemma_without_id(s, id);
    lemma_user_index(without_id(s, id), id);
}

/// Law: an update is idempotent: applying the same update input at the
/// same instant twice leaves exactly the table that applying it once
/// leaves, so the re-read state is the same both times.
pub proof fn lemma_update_idempotent(s: Seq<User>, up: UpdateUser, now: i64)
    ensures
        update_all(update_all(s, up, now), up, now) == update_all(s, up, now),
{
    let s1 = update_all(s, up, now);
    let s2 = update_all(s1, up, now);
    assert forall|i: int| 0 <= i < s.len() implies s2[i] == s1[i] by {
        if s[i].id@ == up.id@ {
            assert(s1[i] == apply_update(s[i], up, now));
            assert(s1[i].id@ == up.id@);
            assert(s2[i] == apply_update(s1[i], up, now));
        } else {
            assert(s1[i] == s[i]);
            assert(s2[i] == s1[i]);
        }
    }
    assert(s2 =~= s1);
}

} // verus!
