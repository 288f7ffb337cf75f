use vstd::prelude::*;

verus! {

/// What the store knows of a game.
#[derive(Debug)]
pub struct Game {
    pub id: i32,
    pub name: String,
    pub description: String,
    pub pin: [u8; 6],
    pub host: u128,
    pub icon: String,
}

} // verus!
