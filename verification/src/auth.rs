//! Accounts and sign-in: the user rows, the session identity, and the
//! decision that turns a login form into a session.
//!
//! Password hashes are opaque here: the surrounding program checks the
//! submitted password against the stored hash and hands the outcome in as a
//! plain truth value.

use vstd::prelude::*;
use vstd::string::*;
use crate::errors::AuthError;

verus! {

/// An account row.  `perm` is the permission level; superusers sit above 59.
#[derive(Clone, Debug)]
pub struct User {
    pub id: i32,
    pub username: String,
    pub email: String,
    pub password: String,
    pub bio: Option<String>,
    pub image: Option<String>,
    pub perm: i16,
}

impl User {
    pub fn is_superuser(&self) -> (r: bool)
        ensures
            r == (self.perm > 59),
    {
        return self.perm > 59;
    }
}

/// The insertable form of an account.
#[derive(Clone, Debug)]
pub struct NewUser {
    pub username: String,
    pub email: String,
    pub password: String,
    pub bio: Option<String>,
    pub image: Option<String>,
    pub perm: i16,
}

/// A login request, as a JSON body carries it.
#[derive(Clone, Debug)]
pub struct LoginUser {
    pub username: String,
    pub password: String,
}

/// A login request, as a multipart form carries it.
#[derive(Clone, Debug)]
pub struct LoginUser2 {
    pub username: String,
    pub password: String,
}

/// A signup request, as a multipart form carries it.
#[derive(Clone, Debug)]
pub struct NewUserForm {
    pub username: String,
    pub email: String,
    pub password: String,
}

/// The fields an account can be edited through.
#[derive(Clone, Debug)]
pub struct UserChange {
    pub username: String,
    pub email: String,
    pub password: String,
    pub bio: String,
    pub image: String,
}

/// The identity a signed-in session carries.
#[derive(Clone, Debug)]
pub struct SessionUser {
    pub id: i32,
    pub username: String,
}

/// Whether some account carries this username.
pub open spec fn has_username(users: Seq<User>, name: Seq<char>) -> bool {
    exists|i: int| 0 <= i < users.len() && users[i].username@ == name
}

/// Whether position `i` holds the last account with this username — the one
/// a login resolves to when usernames repeat.
pub open spec fn is_last_named(users: Seq<User>, name: Seq<char>, i: int) -> bool {
    &&& 0 <= i < users.len()
    &&& users[i].username@ == name
    &&& forall|j: int| i < j < users.len() ==> users[j].username@ != name
}

/// Resolves a login: the last account under the submitted username becomes
/// the session identity, provided the submitted password matched its stored
/// hash.  `password_matches` is that outcome, checked by the caller against
/// the resolved account's hash (see [`find_user_candidate`]).  An unknown
/// username, or a failed check, is answered with the same not-found error.
pub fn find_user(users: &Vec<User>, data: &LoginUser2, password_matches: bool) -> (r: Result<
    SessionUser,
    AuthError,
>)
    ensures
        match r {
            Ok(su) => password_matches && exists|i: int|
                #[trigger] is_last_named(users@, data.username@, i) && su.id == users@[i].id
                    && su.username@ == users@[i].username@,
            Err(e) => e is NotFound && e->NotFound_0@ == "User not found"@ && (!has_username(
                users@,
                data.username@,
            ) || !password_matches),
        },
        has_username(users@, data.username@) && password_matches ==> r is Ok,
{
    match find_user_candidate(users, &data.username) {
        Some(i) => {
            if password_matches {
                let su = SessionUser { id: users[i].id, username: users[i].username.clone() };
                proof {
                    assert(is_last_named(users@, data.username@, i as int));
                }
                return Ok(su);
            }
            Err(AuthError::NotFound(String::from_str("User not found")))
        },
        None => Err(AuthError::NotFound(String::from_str("User not found"))),
    }
}

/// The position of the last account under a username: the account a login
/// resolves to, whose stored hash the caller checks the password against.
pub fn find_user_candidate(users: &Vec<User>, username: &String) -> (r: Option<usize>)
    ensures
        match r {
            Some(i) => is_last_named(users@, username@, i as int),
            None => !has_username(users@, username@),
        },
{
    let n = users.len();
    let mut i: usize = n;
    while i > 0
        invariant
            i <= n,
            n == users@.len(),
            forall|j: int| i <= j < n ==> users@[j].username@ != username@,
        decreases i,
    {
        i = i - 1;
        if users[i].username.eq(username) {
            proof {
                assert(users@[i as int].username@ == username@);
            }
            return Some(i);
        }
    }
    None
}

} // verus!
