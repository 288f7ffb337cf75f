use vstd::prelude::*;
use vstd::string::*;
use std::collections::HashMap;
use crate::graph::graph::{base_vertices, Field, Graph};
use crate::graph::models::{pos, Figure, Pos, FIELD, LOCATION, MOVE};
use crate::graph::search::{blocked, reachable};
use crate::graph::topology::{base_form, named_position};
use crate::graph::state::{
    first_place, occupant_at, start_layout, GraphState, ResizableGraphState,
};
use crate::ws::errors::{ErrorView, WebsocketError};
use crate::ws::messages::{
    Connect, Disconnect, MakeMoveMessage, QueryGameMessage, QueryMovesMessage, SessionMessage,
    StartGameMessage, ACTION_DISCONNECTED, ACTION_JOINED, ACTION_STARTED,
};
use crate::ws::session::QueryGameResponse;
use crate::ws::payload::{text_entries, texts_insert, texts_new, Texts};
use crate::ws::wire::{user_id_text, uuid_text};

verus! {

/// The phase of a game that takes players and no moves.
pub const PHASE_LOBBY: u8 = 0;

/// The phase of a game that takes moves.
pub const PHASE_ACTIVE: u8 = 1;

/// What the coordinator keeps of one running game.
#[derive(Debug)]
pub struct Registry {
    /// the user who may start the game
    pub host: u128,
    /// `PHASE_LOBBY` or `PHASE_ACTIVE`
    pub phase: u8,
    /// where every figure stands
    pub board: GraphState,
    /// the handles of the connected sessions, in the order they joined
    pub sessions: Vec<u64>,
}

/// What the store says of a user who connects: the game joined, its host,
/// and the user's name.
#[derive(Debug)]
pub struct Membership {
    pub gid: i32,
    pub host: u128,
    pub username: String,
}

/// A message from the coordinator and the sessions that are to receive it.
#[derive(Debug)]
pub struct Outbound {
    pub recipients: Vec<u64>,
    pub message: SessionMessage,
}

/// The coordinator of all running games: for every game its sessions, its
/// phase and its board.
pub struct GameServer {
    graph: Graph,
    games: HashMap<i32, Registry>,
}

/// The running games of a coordinator, by their ids.
pub type Rooms = Map<i32, Registry>;

/// A registry is in order when it has a session, no session twice, and a
/// phase that exists.
pub open spec fn room_ok(room: Registry) -> bool {
    &&& room.sessions@.len() > 0
    &&& room.sessions@.no_duplicates()
    &&& (room.phase == PHASE_LOBBY || room.phase == PHASE_ACTIVE)
}

/// The sessions after `addr` has joined: as before where it is among them,
/// else with `addr` at the end.
pub open spec fn joined(sessions: Seq<u64>, addr: u64) -> Seq<u64> {
    if sessions.contains(addr) {
        sessions
    } else {
        sessions.push(addr)
    }
}

/// The text that announces a player: the id, a bar, the name.
pub open spec fn player_tag(uid: u128, username: Seq<char>) -> Seq<char> {
    uuid_text(uid) + "|"@ + username
}

/// Whether `handle` is among `handles`.
pub fn has_handle(handles: &Vec<u64>, handle: u64) -> (found: bool)
    ensures
        found == handles@.contains(handle),
{
    let mut i: usize = 0;
    while i < handles.len()
        invariant
            i <= handles.len(),
            forall|j: int| 0 <= j < i ==> handles@[j] != handle,
        decreases handles.len() - i,
    {
        if handles[i] == handle {
            return true;
        }
        i = i + 1;
    }
    false
}

/// A copy of `handles`.
pub fn copy_handles(handles: &Vec<u64>) -> (copy: Vec<u64>)
    ensures
        copy@ == handles@,
{
    let mut copy: Vec<u64> = Vec::new();
    let mut i: usize = 0;
    while i < handles.len()
        invariant
            i <= handles.len(),
            copy@ == handles@.take(i as int),
        decreases handles.len() - i,
    {
        copy.push(handles[i]);
        assert(copy@ =~= handles@.take(i + 1));
        i = i + 1;
    }
    assert(handles@.take(handles.len() as int) =~= handles@);
    copy
}

impl GameServer {
    /// The running games, each with its registry.
    pub closed spec fn view(&self) -> Map<i32, Registry> {
        self.games@
    }

    /// The vertices of the board graph that moves are validated on.
    pub closed spec fn board_graph(&self) -> Map<Pos, Field> {
        self.graph@
    }

    /// Every registry is in order, and the graph is that of the board.
    pub open spec fn wf(&self) -> bool {
        &&& self.board_graph() == base_vertices()
        &&& forall|gid: i32| self@.contains_key(gid) ==> room_ok(#[trigger] self@[gid])
    }

    /// The sessions of the game `gid`; none where no such game runs.
    pub open spec fn sessions_of(&self, gid: i32) -> Seq<u64> {
        if self@.contains_key(gid) {
            self@[gid].sessions@
        } else {
            Seq::empty()
        }
    }

    /// A coordinator without games.
    pub fn build() -> (server: GameServer)
        ensures
            server.wf(),
            server@ == Rooms::empty(),
    {
        GameServer { graph: Graph::construct_graph(), games: HashMap::new() }
    }

    /// The phase of the game `gid`, if it runs.
    pub fn phase(&self, gid: i32) -> (phase: Option<u8>)
        ensures
            phase == if self@.contains_key(gid) {
                Some(self@[gid].phase)
            } else {
                None
            },
    {
        broadcast use vstd::std_specs::hash::group_hash_axioms;

        match self.games.get(&gid) {
            Some(room) => Some(room.phase),
            None => None,
        }
    }

    /// The host of the game `gid`, if it runs.
    pub fn host(&self, gid: i32) -> (host: Option<u128>)
        ensures
            host == if self@.contains_key(gid) {
                Some(self@[gid].host)
            } else {
                None
            },
    {
        broadcast use vstd::std_specs::hash::group_hash_axioms;

        match self.games.get(&gid) {
            Some(room) => Some(room.host),
            None => None,
        }
    }

    /// The board of the game `gid`, if it runs.
    pub fn board(&self, gid: i32) -> (board: Option<GraphState>)
        ensures
            board == if self@.contains_key(gid) {
                Some(self@[gid].board)
            } else {
                None
            },
    {
        broadcast use vstd::std_specs::hash::group_hash_axioms;

        match self.games.get(&gid) {
            Some(room) => Some(room.board),
            None => None,
        }
    }

    /// The sessions of the game `gid`, in the order they joined.
    pub fn sessions(&self, gid: i32) -> (handles: Vec<u64>)
        ensures
            handles@ == self.sessions_of(gid),
    {
        broadcast use vstd::std_specs::hash::group_hash_axioms;

        match self.games.get(&gid) {
            Some(room) => copy_handles(&room.sessions),
            None => Vec::new(),
        }
    }

    /// The message `action` with `data`, addressed to every session of
    /// `game`.
    pub fn send_message(&self, game: &i32, action: u8, data: dashmap::DashMap<String, String>) -> (out:
        Outbound)
        ensures
            out.recipients@ == self.sessions_of(*game),
            out.message.action == action,
            out.message.data == data,
    {
        broadcast use vstd::std_specs::hash::group_hash_axioms;

        let recipients = match self.games.get(game) {
            Some(room) => copy_handles(&room.sessions),
            None => Vec::new(),
        };
        Outbound { recipients, message: SessionMessage { action, data } }
    }

    /// A session connects. A user who has joined no game is turned away
    /// with an authorization error, and nothing changes. Otherwise the
    /// session is among those of the user's game afterwards; a game without
    /// registry gets one, in the lobby phase, with the starting layout. All
    /// sessions of the game are told who joined.
    pub fn handle_connect(&mut self, msg: Connect, membership: Option<Membership>) -> (reply: Result<
        Outbound,
        WebsocketError,
    >)
        requires
            old(self).wf(),
        ensures
            final(self).wf(),
            final(self).board_graph() == old(self).board_graph(),
            match reply {
                Err(error) => {
                    &&& membership.is_none()
                    &&& error@ == ErrorView::Authorization
                    &&& final(self)@ == old(self)@
                },
                Ok(out) => {
                    &&& membership.is_some()
                    &&& final(self)@.dom() == old(self)@.dom().insert(membership.unwrap().gid)
                    &&& forall|gid: i32|
                        gid != membership.unwrap().gid && old(self)@.contains_key(gid)
                            ==> final(self)@[gid] == old(self)@[gid]
                    &&& final(self).sessions_of(membership.unwrap().gid) == joined(
                        old(self).sessions_of(membership.unwrap().gid),
                        msg.addr,
                    )
                    &&& old(self)@.contains_key(membership.unwrap().gid) ==> {
                        let before = old(self)@[membership.unwrap().gid];
                        let after = final(self)@[membership.unwrap().gid];
                        after.host == before.host && after.phase == before.phase && after.board
                            == before.board
                    }
                    &&& !old(self)@.contains_key(membership.unwrap().gid) ==> {
                        let after = final(self)@[membership.unwrap().gid];
                        after.host == membership.unwrap().host && after.phase == PHASE_LOBBY
                            && after.board@ == start_layout()
                    }
                    &&& out.recipients@ == final(self).sessions_of(membership.unwrap().gid)
                    &&& out.message.action == ACTION_JOINED
                    &&& text_entries(out.message.data) == Texts::empty().insert(
                        "player"@,
                        player_tag(msg.uid, membership.unwrap().username@),
                    )
                },
            },
    {
        broadcast use vstd::std_specs::hash::group_hash_axioms;

        let member = match membership {
            Some(member) => member,
            None => {
                return Err(WebsocketError::AuthorizationError());
            },
        };
        let gid = member.gid;
        // add to game
        let room = match self.games.remove(&gid) {
            Some(mut room) => {
                assert(room == old(self)@[gid]);
                assert(room_ok(room));
                if !has_handle(&room.sessions, msg.addr) {
                    let ghost before = room.sessions@;
                    room.sessions.push(msg.addr);
                    assert(room.sessions@.no_duplicates()) by {
                        assert forall|i: int, j: int|
                            0 <= i < room.sessions@.len() && 0 <= j < room.sessions@.len() && i
                                != j implies room.sessions@[i] != room.sessions@[j] by {
                            if i < before.len() {
                                assert(before[i] == room.sessions@[i]);
                                assert(before.contains(before[i]));
                            }
                            if j < before.len() {
                                assert(before[j] == room.sessions@[j]);
                                assert(before.contains(before[j]));
                            }
                        }
                    }
                }
                room
            },
            None => {
                let mut sessions: Vec<u64> = Vec::new();
                sessions.push(msg.addr);
                assert(sessions@ =~= Seq::<u64>::empty().push(msg.addr));
                Registry {
                    host: member.host,
                    phase: PHASE_LOBBY,
                    board: GraphState::empty(),
                    sessions,
                }
            },
        };
        let recipients = copy_handles(&room.sessions);
        self.games.insert(gid, room);
        assert(self@.dom() =~= old(self)@.dom().insert(gid));
        // compile data for message
        let mut tag = user_id_text(msg.uid);
        tag.append("|");
        tag.append(member.username.as_str());
        let mut data = texts_new();
        texts_insert(&mut data, String::from_str("player"), tag);
        // send message to everyone
        Ok(Outbound { recipients, message: SessionMessage { action: ACTION_JOINED, data } })
    }
}

/// What follows from a session's leaving: whether the game is over and the
/// store is to remove it, and the notice for the sessions that stay.
#[derive(Debug)]
pub struct Departure {
    pub remove_game: bool,
    pub notice: Option<Outbound>,
}

/// What the store knows of a game and its players.
#[derive(Debug)]
pub struct GameRecord {
    pub name: String,
    pub description: Option<String>,
    pub icon: String,
    pub pin: Option<Vec<i16>>,
    pub users: Vec<(u128, String)>,
    pub host: u128,
}

/// What the store answers when asked for a figure's latest move.
#[derive(Debug)]
pub enum LatestMove {
    /// the latest move of the figure
    Found(MOVE),
    /// the figure has not moved yet
    NotFound,
    /// the store failed
    Failed,
}

/// A `LatestMove` with its numbers as a sequence.
pub enum LatestView {
    Found(Seq<i16>, Figure),
    NotFound,
    Failed,
}

impl View for LatestMove {
    type V = LatestView;

    open spec fn view(&self) -> LatestView {
        match self {
            LatestMove::Found(record) => LatestView::Found(record.0@, record.1),
            LatestMove::NotFound => LatestView::NotFound,
            LatestMove::Failed => LatestView::Failed,
        }
    }
}

/// An accepted move: the record to persist, made of source, destination
/// and the moved figure, and the figure that stood on the destination.
#[derive(Debug)]
pub struct MoveDecision {
    pub record: MOVE,
    pub occupant: Figure,
}

/// An accepted move, positions as triples.
pub struct Verdict {
    pub src: Pos,
    pub dest: Pos,
    pub figure: Figure,
    pub occupant: Figure,
}

impl View for MoveDecision {
    type V = Verdict;

    open spec fn view(&self) -> Verdict {
        Verdict {
            src: triple_at(self.record.0@, 0),
            dest: triple_at(self.record.0@, 3),
            figure: self.record.1,
            occupant: self.occupant,
        }
    }
}

/// The position that three numbers of a record give, from `at` on.
pub open spec fn triple_at(numbers: Seq<i16>, at: int) -> Pos {
    (numbers[at] as int, numbers[at + 1] as int, numbers[at + 2] as int)
}

/// `after` is `before` without its entry `addr`.
pub open spec fn departed(before: Seq<u64>, after: Seq<u64>, addr: u64) -> bool {
    exists|i: int| 0 <= i < before.len() && before[i] == addr && after == before.remove(i)
}

/// Where a figure stands before its next move: where its latest move
/// ended, or, if it has not moved, where the starting layout has it.
pub open spec fn move_source(latest: LatestView, figure: Figure) -> Option<Pos> {
    match latest {
        LatestView::Found(numbers, _) => Some(triple_at(numbers, 3)),
        LatestView::NotFound => first_place(start_layout(), figure),
        LatestView::Failed => None,
    }
}

/// Whether the latest move of a figure ended on `dest`.
pub open spec fn repeats(latest: LatestView, dest: Pos) -> bool {
    match latest {
        LatestView::Found(numbers, _) => triple_at(numbers, 3) == dest,
        _ => false,
    }
}

/// What becomes of a request to move `figure` to the position that the
/// last three of `numbers` give, in the game `gid`.
///
/// The game must run and be active. A store that failed is an internal
/// error. A destination that the figure's latest move ended on is
/// rejected as repetitive. The source must name a vertex of the graph, and
/// the destination must be reachable from it on the game's board. A board
/// that does not have the figure on the source is an internal error.
pub open spec fn move_verdict(
    graph: Map<Pos, Field>,
    rooms: Map<i32, Registry>,
    gid: i32,
    numbers: Seq<i16>,
    figure: Figure,
    latest: LatestView,
) -> Result<Verdict, ErrorView> {
    let dest = triple_at(numbers, 3);
    if !rooms.contains_key(gid) {
        Err(ErrorView::Validation("Game not found. Out of sync GameServer?"@))
    } else if rooms[gid].phase != PHASE_ACTIVE {
        Err(ErrorView::Validation("Game has not started"@))
    } else if latest is Failed {
        Err(ErrorView::Internal("Potential Corrupted database!"@))
    } else if repeats(latest, dest) {
        Err(ErrorView::Validation("This move is repetitive"@))
    } else {
        match move_source(latest, figure) {
            None => Err(ErrorView::Validation("Unknown figure"@)),
            Some(src) => {
                let board = rooms[gid].board@;
                if !graph.contains_key(base_form(src)) {
                    Err(ErrorView::Internal("NoSuchVertex"@))
                } else if !reachable(base_form(src), base_form(dest), blocked(graph, board)) {
                    Err(ErrorView::Validation("This move isn't possible"@))
                } else if !holds(board, src, figure) {
                    Err(ErrorView::Internal("Board out of sync"@))
                } else {
                    Ok(Verdict { src, dest, figure, occupant: occupant_at(board, dest) })
                }
            },
        }
    }
}

/// The entry `entry` has `figure` on the position that `src` names.
pub open spec fn stands_on(entry: (Pos, Figure), src: Pos, figure: Figure) -> bool {
    entry.1 == figure && base_form(entry.0) == base_form(src)
}

/// Some entry of `board` has `figure` on the position that `src` names.
pub open spec fn holds(board: Seq<(Pos, Figure)>, src: Pos, figure: Figure) -> bool {
    exists|j: int| 0 <= j < board.len() && stands_on(#[trigger] board[j], src, figure)
}

/// `at` is the first entry of `board` that has `figure` on `src`.
pub open spec fn is_first(board: Seq<(Pos, Figure)>, src: Pos, figure: Figure, at: int) -> bool {
    &&& 0 <= at < board.len()
    &&& stands_on(board[at], src, figure)
    &&& forall|j: int| 0 <= j < at ==> !stands_on(#[trigger] board[j], src, figure)
}

/// The first entry of `board` that has `figure` on `src`.
pub fn find_entry(board: &GraphState, src: &FIELD, figure: Figure) -> (found: Option<usize>)
    ensures
        match found {
            Some(at) => is_first(board@, pos(*src), figure, at as int),
            None => forall|j: int|
                0 <= j < board@.len() ==> !stands_on(#[trigger] board@[j], pos(*src), figure),
        },
{
    let named = named_position(src);
    let mut i: usize = 0;
    while i < 35
        invariant
            i <= 35,
            pos(named) == base_form(pos(*src)),
            forall|j: int| 0 <= j < i ==> !stands_on(#[trigger] board@[j], pos(*src), figure),
        decreases 35 - i,
    {
        let cell: LOCATION = board.0[i];
        assert(board@[i as int] == (pos(cell.0), cell.1));
        if cell.1 == figure && crate::graph::models::same_field(&named_position(&cell.0), &named) {
            return Some(i);
        }
        i = i + 1;
    }
    None
}

/// The place of `handle` among `handles`.
pub fn find_handle(handles: &Vec<u64>, handle: u64) -> (found: Option<usize>)
    ensures
        match found {
            Some(at) => at < handles@.len() && handles@[at as int] == handle,
            None => !handles@.contains(handle),
        },
{
    let mut i: usize = 0;
    while i < handles.len()
        invariant
            i <= handles.len(),
            forall|j: int| 0 <= j < i ==> handles@[j] != handle,
        decreases handles.len() - i,
    {
        if handles[i] == handle {
            return Some(i);
        }
        i = i + 1;
    }
    None
}

/// Removing an entry from a row without duplicates leaves no duplicates,
/// and the entry is gone.
pub proof fn lemma_remove_distinct(row: Seq<u64>, at: int)
    requires
        row.no_duplicates(),
        0 <= at < row.len(),
    ensures
        row.remove(at).no_duplicates(),
        !row.remove(at).contains(row[at]),
        row.remove(at).len() == row.len() - 1,
{
    let rest = row.remove(at);
    assert forall|i: int| 0 <= i < rest.len() implies #[trigger] rest[i] == row[if i < at {
        i
    } else {
        i + 1
    }] by {}
    assert forall|i: int, j: int| 0 <= i < rest.len() && 0 <= j < rest.len() && i != j implies rest[i]
        != rest[j] by {
        let a = if i < at {
            i
        } else {
            i + 1
        };
        let b = if j < at {
            j
        } else {
            j + 1
        };
        assert(rest[i] == row[a]);
        assert(rest[j] == row[b]);
    }
    if rest.contains(row[at]) {
        let i = choose|i: int| 0 <= i < rest.len() && rest[i] == row[at];
        let a = if i < at {
            i
        } else {
            i + 1
        };
        assert(rest[i] == row[a]);
    }
}

impl GameServer {
    /// A session leaves. Where it was the last of its game, the game is
    /// over: its registry goes, and the store is to remove the game.
    /// Otherwise the sessions that stay are told who left. A session that
    /// the game does not know changes nothing.
    pub fn handle_disconnect(&mut self, msg: Disconnect) -> (out: Departure)
        requires
            old(self).wf(),
        ensures
            final(self).wf(),
            final(self).board_graph() == old(self).board_graph(),
            final(self)@.remove(msg.gid) == old(self)@.remove(msg.gid),
            !old(self).sessions_of(msg.gid).contains(msg.addr) ==> {
                &&& final(self)@ == old(self)@
                &&& !out.remove_game
                &&& out.notice.is_none()
            },
            old(self).sessions_of(msg.gid).contains(msg.addr) ==> {
                &&& departed(old(self).sessions_of(msg.gid), final(self).sessions_of(msg.gid), msg.addr)
                &&& out.remove_game == !final(self)@.contains_key(msg.gid)
                &&& out.remove_game == (old(self).sessions_of(msg.gid).len() == 1)
                &&& out.remove_game == out.notice.is_none()
            },
            final(self)@.contains_key(msg.gid) ==> {
                let before = old(self)@[msg.gid];
                let after = final(self)@[msg.gid];
                &&& old(self)@.contains_key(msg.gid)
                &&& after.host == before.host
                &&& after.phase == before.phase
                &&& after.board == before.board
            },
            match out.notice {
                Some(notice) => {
                    &&& notice.recipients@ == final(self).sessions_of(msg.gid)
                    &&& notice.message.action == ACTION_DISCONNECTED
                    &&& text_entries(notice.message.data) == Texts::empty().insert(
                        "player"@,
                        uuid_text(msg.uid),
                    )
                },
                None => true,
            },
    {
        broadcast use vstd::std_specs::hash::group_hash_axioms;

        // remove address
        let mut room = match self.games.remove(&msg.gid) {
            Some(room) => room,
            None => {
                assert(self@ =~= old(self)@);
                return Departure { remove_game: false, notice: None };
            },
        };
        assert(room == old(self)@[msg.gid]);
        assert(room_ok(room));
        let at = match find_handle(&room.sessions, msg.addr) {
            Some(at) => at,
            None => {
                self.games.insert(msg.gid, room);
                assert(self@ =~= old(self)@);
                return Departure { remove_game: false, notice: None };
            },
        };
        let ghost before = room.sessions@;
        proof {
            lemma_remove_distinct(before, at as int);
            assert(before.contains(msg.addr));
        }
        room.sessions.remove(at);
        // check if game is empty and if empty remove and cleanup internal storage
        if room.sessions.len() == 0 {
            assert(room.sessions@ =~= Seq::<u64>::empty());
            assert(self@.remove(msg.gid) =~= old(self)@.remove(msg.gid));
            return Departure { remove_game: true, notice: None };
        }
        let recipients = copy_handles(&room.sessions);
        self.games.insert(msg.gid, room);
        assert(self@.remove(msg.gid) =~= old(self)@.remove(msg.gid));
        // send notification
        let mut data = texts_new();
        texts_insert(&mut data, String::from_str("player"), user_id_text(msg.uid));
        Departure {
            remove_game: false,
            notice: Some(
                Outbound {
                    recipients,
                    message: SessionMessage { action: ACTION_DISCONNECTED, data },
                },
            ),
        }
    }

    /// The board of a game.
    pub fn handle_query_moves(&self, msg: QueryMovesMessage) -> (reply: Result<
        ResizableGraphState,
        WebsocketError,
    >)
        ensures
            match reply {
                Ok(state) => self@.contains_key(msg.gid) && state@ == self@[msg.gid].board@,
                Err(error) => !self@.contains_key(msg.gid) && error@ == ErrorView::Validation(
                    "Game not found. Out of sync GameServer?"@,
                ),
            },
    {
        broadcast use vstd::std_specs::hash::group_hash_axioms;

        match self.games.get(&msg.gid) {
            Some(room) => Ok(ResizableGraphState::from_state(&room.board)),
            None => Err(
                WebsocketError::ValidationError(
                    String::from_str("Game not found. Out of sync GameServer?"),
                ),
            ),
        }
    }

    /// The host starts a game: the game becomes active, and its sessions
    /// are told. Anyone else is turned away with an authorization error,
    /// and nothing changes.
    pub fn handle_start_game(&mut self, msg: StartGameMessage) -> (reply: Result<
        Outbound,
        WebsocketError,
    >)
        requires
            old(self).wf(),
        ensures
            final(self).wf(),
            final(self).board_graph() == old(self).board_graph(),
            final(self)@.dom() == old(self)@.dom(),
            forall|gid: i32|
                gid != msg.gid && old(self)@.contains_key(gid) ==> final(self)@[gid] == old(
                    self,
                )@[gid],
            match reply {
                Ok(out) => {
                    let before = old(self)@[msg.gid];
                    let after = final(self)@[msg.gid];
                    &&& old(self)@.contains_key(msg.gid)
                    &&& before.host == msg.uid
                    &&& after.phase == PHASE_ACTIVE
                    &&& after.host == before.host
                    &&& after.board == before.board
                    &&& after.sessions == before.sessions
                    &&& out.recipients@ == after.sessions@
                    &&& out.message.action == ACTION_STARTED
                    &&& text_entries(out.message.data) == Texts::empty()
                },
                Err(error) => {
                    &&& final(self)@ == old(self)@
                    &&& if old(self)@.contains_key(msg.gid) {
                        old(self)@[msg.gid].host != msg.uid && error@ == ErrorView::Authorization
                    } else {
                        error@ == ErrorView::Validation("Game not found. Out of sync GameServer?"@)
                    }
                },
            },
    {
        broadcast use vstd::std_specs::hash::group_hash_axioms;

        let mut room = match self.games.remove(&msg.gid) {
            Some(room) => room,
            None => {
                assert(self@ =~= old(self)@);
                return Err(
                    WebsocketError::ValidationError(
                        String::from_str("Game not found. Out of sync GameServer?"),
                    ),
                );
            },
        };
        assert(room == old(self)@[msg.gid]);
        // check if user is authorized
        if room.host != msg.uid {
            self.games.insert(msg.gid, room);
            assert(self@ =~= old(self)@);
            return Err(WebsocketError::AuthorizationError());
        }
        // update state
        room.phase = PHASE_ACTIVE;
        let recipients = copy_handles(&room.sessions);
        self.games.insert(msg.gid, room);
        assert(self@.dom() =~= old(self)@.dom());
        Ok(Outbound { recipients, message: SessionMessage { action: ACTION_STARTED, data: texts_new() } })
    }

    /// What a client is told of a game: what the store knows of it, and
    /// its phase.
    pub fn handle_query_game(&self, msg: QueryGameMessage, record: GameRecord) -> (reply: Result<
        QueryGameResponse,
        WebsocketError,
    >)
        ensures
            match reply {
                Ok(answer) => {
                    &&& self@.contains_key(msg.gid)
                    &&& answer.name == record.name
                    &&& answer.description@ == match record.description {
                        Some(text) => text@,
                        None => Seq::empty(),
                    }
                    &&& answer.icon == record.icon
                    &&& answer.players == record.users
                    &&& answer.state == self@[msg.gid].phase
                    &&& answer.host == record.host
                    &&& answer.pin@ == match record.pin {
                        Some(digits) => digits@,
                        None => Seq::empty(),
                    }
                },
                Err(error) => !self@.contains_key(msg.gid) && error@ == ErrorView::Validation(
                    "Game not found. Out of sync GameServer?"@,
                ),
            },
    {
        broadcast use vstd::std_specs::hash::group_hash_axioms;

        let game_state = match self.games.get(&msg.gid) {
            Some(room) => room.phase,
            None => {
                return Err(
                    WebsocketError::ValidationError(
                        String::from_str("Game not found. Out of sync GameServer?"),
                    ),
                );
            },
        };
        let description = match record.description {
            Some(text) => text,
            None => String::new(),
        };
        let pin = match record.pin {
            Some(digits) => digits,
            None => Vec::new(),
        };
        Ok(
            QueryGameResponse {
                name: record.name,
                description,
                icon: record.icon,
                players: record.users,
                state: game_state,
                host: record.host,
                pin,
            },
        )
    }

    /// Decides a request to move a figure; `latest` is what the store holds
    /// as the figure's latest move. Nothing changes: an accepted move is
    /// first persisted and then applied with `apply_move`.
    pub fn handle_make_move(&self, msg: &MakeMoveMessage, latest: &LatestMove) -> (reply: Result<
        MoveDecision,
        WebsocketError,
    >)
        ensures
            match reply {
                Ok(decision) => Ok(decision@),
                Err(error) => Err(error@),
            } == move_verdict(
                self.board_graph(),
                self@,
                msg.gid,
                msg.action.0@,
                msg.action.1,
                latest@,
            ),
    {
        broadcast use vstd::std_specs::hash::group_hash_axioms;

        let room = match self.games.get(&msg.gid) {
            Some(room) => room,
            None => {
                return Err(
                    WebsocketError::ValidationError(
                        String::from_str("Game not found. Out of sync GameServer?"),
                    ),
                );
            },
        };
        if room.phase != PHASE_ACTIVE {
            return Err(WebsocketError::ValidationError(String::from_str("Game has not started")));
        }
        let dest: FIELD = [msg.action.0[3], msg.action.0[4], msg.action.0[5]];
        let figure: Figure = msg.action.1;
        // fetch starting point (the store is the trusted source)
        let src: FIELD = match latest {
            LatestMove::Found(record) => {
                let last_dest: FIELD = [record.0[3], record.0[4], record.0[5]];
                // ensure move isn't directly repetitive
                if crate::graph::models::same_field(&dest, &last_dest) {
                    return Err(
                        WebsocketError::ValidationError(String::from_str("This move is repetitive")),
                    );
                }
                last_dest
            },
            // no move was made: fall back to the starting layout
            LatestMove::NotFound => {
                let layout = GraphState::empty();
                match layout.place_of(figure) {
                    Some(place) => place,
                    None => {
                        return Err(
                            WebsocketError::ValidationError(String::from_str("Unknown figure")),
                        );
                    },
                }
            },
            LatestMove::Failed => {
                return Err(
                    WebsocketError::InternalError(String::from_str("Potential Corrupted database!")),
                );
            },
        };
        // validate move
        match self.graph.validate(&src, &dest, &room.board) {
            Err(error) => Err(WebsocketError::InternalError(error.text())),
            Ok((false, _)) => Err(
                WebsocketError::ValidationError(String::from_str("This move isn't possible")),
            ),
            Ok((true, occupant)) => match find_entry(&room.board, &src, figure) {
                None => Err(WebsocketError::InternalError(String::from_str("Board out of sync"))),
                Some(at) => {
                    assert(stands_on(room.board@[at as int], pos(src), figure));
                    Ok(
                        MoveDecision {
                            record: ([src[0], src[1], src[2], dest[0], dest[1], dest[2]], figure),
                            occupant,
                        },
                    )
                },
            },
        }
    }

    /// Puts the figure of an accepted move on its destination: the first
    /// entry of the game's board that has the figure on the move's source
    /// gets the destination. Tells whether there was such an entry; if not,
    /// nothing changes.
    pub fn apply_move(&mut self, gid: i32, decision: &MoveDecision) -> (moved: bool)
        requires
            old(self).wf(),
        ensures
            final(self).wf(),
            final(self).board_graph() == old(self).board_graph(),
            final(self)@.dom() == old(self)@.dom(),
            forall|other: i32|
                other != gid && old(self)@.contains_key(other) ==> final(self)@[other] == old(
                    self,
                )@[other],
            moved == (old(self)@.contains_key(gid) && holds(
                old(self)@[gid].board@,
                decision@.src,
                decision@.figure,
            )),
            !moved ==> final(self)@ == old(self)@,
            moved ==> {
                let before = old(self)@[gid];
                let after = final(self)@[gid];
                &&& old(self)@.contains_key(gid)
                &&& after.host == before.host
                &&& after.phase == before.phase
                &&& after.sessions == before.sessions
                &&& exists|at: int|
                    is_first(before.board@, decision@.src, decision@.figure, at) && after.board@
                        == before.board@.update(at, (decision@.dest, decision@.figure))
            },
    {
        broadcast use vstd::std_specs::hash::group_hash_axioms;

        let mut room = match self.games.remove(&gid) {
            Some(room) => room,
            None => {
                assert(self@ =~= old(self)@);
                return false;
            },
        };
        assert(room == old(self)@[gid]);
        let src: FIELD = [decision.record.0[0], decision.record.0[1], decision.record.0[2]];
        let dest: FIELD = [decision.record.0[3], decision.record.0[4], decision.record.0[5]];
        let figure: Figure = decision.record.1;
        let ghost before = room.board@;
        match find_entry(&room.board, &src, figure) {
            Some(at) => {
                let mut cells: [LOCATION; 35] = room.board.0;
                cells[at] = (dest, figure);
                room.board = GraphState(cells);
                assert(room.board@ =~= before.update(
                    at as int,
                    (decision@.dest, decision@.figure),
                ));
                assert(pos(src) == decision@.src);
                assert(is_first(before, decision@.src, decision@.figure, at as int));
                self.games.insert(gid, room);
                assert(self@.dom() =~= old(self)@.dom());
                return true;
            },
            None => {},
        }
        self.games.insert(gid, room);
        assert(self@ =~= old(self)@);
        false
    }
}

/// A repeated request is rejected: where a request to move a figure was
/// accepted and its record is the figure's latest move, the same request is
/// rejected as repetitive in every state in which the game still runs and is
/// active.
pub proof fn law_repeated_move_rejected(
    graph: Map<Pos, Field>,
    rooms: Map<i32, Registry>,
    later_graph: Map<Pos, Field>,
    later_rooms: Map<i32, Registry>,
    gid: i32,
    numbers: Seq<i16>,
    figure: Figure,
    latest: LatestView,
    record: Seq<i16>,
)
    requires
        move_verdict(graph, rooms, gid, numbers, figure, latest) is Ok,
        triple_at(record, 3) == move_verdict(graph, rooms, gid, numbers, figure, latest)->Ok_0.dest,
        later_rooms.contains_key(gid),
        later_rooms[gid].phase == PHASE_ACTIVE,
    ensures
        move_verdict(
            later_graph,
            later_rooms,
            gid,
            numbers,
            figure,
            LatestView::Found(record, figure),
        ) matches Err(error) && error == ErrorView::Validation("This move is repetitive"@),
{
}

} // verus!
