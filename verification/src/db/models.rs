use vstd::prelude::*;

verus! {

/// A stored game.
#[derive(Clone, Debug)]
pub struct Game {
    pub id: i32,
    pub name: String,
    pub state: i16,
    pub description: Option<String>,
}

/// A stored user.
#[derive(Clone, Debug)]
pub struct User {
    pub id: u128,
    pub name: String,
    /// Argon2 hash
    pub password: String,
}

/// A stored membership of a user in a game.
#[derive(Debug)]
pub struct UserGame {
    pub id: i32,
    pub user_id: u128,
    pub game_id: i32,
}

} // verus!
