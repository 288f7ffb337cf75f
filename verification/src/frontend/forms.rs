use vstd::prelude::*;

verus! {

/// The form that creates a game.
#[derive(Debug)]
pub struct GameForm {
    pub name: String,
    pub public: Option<String>,
    pub description: Option<String>,
    pub icon: String,
    pub pin: Option<String>,
}

/// The form that gives the pin of a game.
#[derive(Debug)]
pub struct GamePinForm {
    pub pin: String,
}

} // verus!
