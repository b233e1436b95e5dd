//! Identity values exchanged with the authentication collaborator.
//!
//! Token issuing, key handling and the OAuth2 flow are external
//! collaborators; the verified core only carries the claims and user
//! records they produce.

use vstd::prelude::*;

verus! {

use vstd::string::StringExecFns;
use crate::decimal::{i64_to_string, spec_dec};

/// Claims carried by one authentication token.
#[derive(Debug)]
pub struct Claims {
    /// Display name of the authenticated user.
    pub name: String,
    /// Stable user identifier.
    pub id: String,
    /// Expiry, in seconds since the Unix epoch.
    pub exp: u64,
}

impl Claims {
    /// Claims for a user, expiring `expire_secs` after `now_secs`.
    pub fn new(name: String, id: String, now_secs: u64, expire_secs: u64) -> (r: Claims)
        requires
            now_secs + expire_secs <= u64::MAX,
        ensures
            r.name@ == name@,
            r.id@ == id@,
            r.exp == now_secs + expire_secs,
    {
        Claims { name, id, exp: now_secs + expire_secs }
    }
}

/// A user row to be created by the user-store collaborator.
pub struct NewUser {
    /// Stable user identifier.
    pub id: String,
    /// Display name.
    pub name: String,
    /// Which login source produced the user.
    pub source: String,
}

impl NewUser {
    /// Assemble a new user record.
    pub fn new(id: String, name: String, source: String) -> (r: NewUser)
        ensures
            r.id@ == id@,
            r.name@ == name@,
            r.source@ == source@,
    {
        NewUser { id, name, source }
    }
}

/// An authenticated principal, whatever identity provider produced it.
pub trait AuthedUser {
    /// The stable identifier the user store keys this principal by.
    fn user_id(&self) -> String;

    /// The principal's display name.
    fn name(&self) -> String;
}

/// A user authenticated through the GitHub identity provider.
#[derive(Debug)]
pub struct AuthedGithubUser {
    /// GitHub's numeric account id.
    pub id: i64,
    /// GitHub login handle.
    pub login: String,
    /// Display name.
    pub name: String,
    /// Account email.
    pub email: String,
    /// Avatar image URL.
    pub avatar_url: String,
}

/// The stable identifier derived for a GitHub account: the provider prefix
/// followed by the decimal account id.
pub open spec fn spec_github_user_id(id: int) -> Seq<char> {
    "gh_"@ + spec_dec(id)
}

impl AuthedUser for AuthedGithubUser {
    /// `gh_` followed by the decimal GitHub account id.
    fn user_id(&self) -> (r: String)
        ensures
            r@ == spec_github_user_id(self.id as int),
    {
        let s = String::from_str("gh_");
        s.concat(i64_to_string(self.id).as_str())
    }

    fn name(&self) -> (r: String)
        ensures
            r@ == self.name@,
    {
        self.name.clone()
    }
}

} // verus!
