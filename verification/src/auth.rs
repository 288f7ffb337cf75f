use vstd::prelude::*;
use dashmap::DashMap;
use crate::ws::wire::fresh_user_id;

verus! {

/// What the cache of signed-in users holds: per user id the game joined.
pub type Logins = Map<u128, i32>;

/// The users that a cache of sign-ins holds, each with the game joined.
pub uninterp spec fn login_entries(map: DashMap<u128, i32>) -> Map<u128, i32>;

/// `DashMap::new`: a map that holds nothing.
#[verifier::external_body]
pub(crate) fn logins_new() -> (map: DashMap<u128, i32>)
    ensures
        login_entries(map) == Logins::empty(),
{
    DashMap::new()
}

/// The process-wide cache of signed-in users.
#[derive(Debug)]
pub struct AuthCache(pub DashMap<u128, i32>);

impl AuthCache {
    /// The users in this cache, each with the game joined.
    pub open spec fn view(&self) -> Map<u128, i32> {
        login_entries(self.0)
    }

    /// A cache without users.
    pub fn build() -> (cache: AuthCache)
        ensures
            cache@ == Logins::empty(),
    {
        AuthCache(logins_new())
    }
}

/// The identity bound to a connection.
#[derive(Clone, Debug)]
pub struct User {
    pub id: u128,
    pub game: i32,
    pub name: String,
}

impl User {
    /// A user with a fresh random id.
    pub fn with_name(game: &i32, name: &String) -> (user: User)
        ensures
            user.game == *game,
            user.name@ == name@,
    {
        User { id: fresh_user_id(), game: *game, name: name.clone() }
    }
}

} // verus!
