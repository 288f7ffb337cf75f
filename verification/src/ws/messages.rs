use vstd::prelude::*;
use dashmap::DashMap;
use crate::graph::models::MOVE;

verus! {

/// A message between client, session and coordinator: an action code and
/// the data that goes with it.
///
/// Codes from the coordinator to the sessions of a game: 1 made a move, 2
/// needs to place a figure, 3 placed a figure, 4 disconnected, 5 game
/// started, 7 joined.
#[derive(Debug)]
pub struct SessionMessage {
    pub action: u8,
    pub data: DashMap<String, String>,
}

/// Asks for the name, the players and the phase of a game.
#[derive(Debug)]
pub struct QueryGameMessage {
    pub gid: i32,
}

/// Asks for the board state of a game.
#[derive(Debug)]
pub struct QueryMovesMessage {
    pub gid: i32,
}

/// Asks to start a game.
#[derive(Debug)]
pub struct StartGameMessage {
    pub gid: i32,
    pub uid: u128,
}

/// Asks to move a figure.
#[derive(Debug)]
pub struct MakeMoveMessage {
    /// user id from game session
    pub uid: u128,
    /// move to make
    pub action: MOVE,
    /// related game id
    pub gid: i32,
}

/// A session has been opened.
#[derive(Debug)]
pub struct Connect {
    /// the handle of the session
    pub addr: u64,
    pub uid: u128,
}

/// A session has ended.
#[derive(Debug)]
pub struct Disconnect {
    pub gid: i32,
    pub uid: u128,
    pub addr: u64,
}

/// A message from a session to its client.
#[derive(Clone, Debug)]
pub struct ServerMessage<G> {
    pub action: u8,
    pub data: G,
}

/// A message from a session to its client whose data are texts.
#[derive(Debug)]
pub struct SimpleServerMessage<'a> {
    pub action: u8,
    pub data: DashMap<&'a str, String>,
}

/// The code of the notice that a player has joined.
pub const ACTION_JOINED: u8 = 7;

/// The code of the notice that a player has left.
pub const ACTION_DISCONNECTED: u8 = 4;

/// The code of the notice that the game has started.
pub const ACTION_STARTED: u8 = 5;

} // verus!
