use dashmap::DashMap;
use pentagame::graph::models::NO_FIGURE;
use pentagame::graph::state::GraphState;
use pentagame::ws::actor::{
    GameRecord, GameServer, LatestMove, Membership, MoveDecision, PHASE_ACTIVE, PHASE_LOBBY,
};
use pentagame::ws::errors::WebsocketError;
use pentagame::ws::messages::{
    Connect, Disconnect, MakeMoveMessage, QueryGameMessage, QueryMovesMessage, StartGameMessage,
};

const HOST: u128 = 0x11111111_2222_3333_4444_555555555555;
const GUEST: u128 = 0x0a0b0c0d_0e0f_1011_1213_141516171819;
const GAME: i32 = 7;

fn member(gid: i32, name: &str) -> Option<Membership> {
    Some(Membership { gid, host: HOST, username: name.to_string() })
}

/// A coordinator with the game `GAME`, its host on session 1 and a guest on
/// session 2.
fn lobby() -> GameServer {
    let mut server = GameServer::build();
    server.handle_connect(Connect { addr: 1, uid: HOST }, member(GAME, "anna")).unwrap();
    server.handle_connect(Connect { addr: 2, uid: GUEST }, member(GAME, "ben")).unwrap();
    server
}

fn running() -> GameServer {
    let mut server = lobby();
    server.handle_start_game(StartGameMessage { gid: GAME, uid: HOST }).unwrap();
    server
}

fn request(figure: u8, dest: [i16; 3]) -> MakeMoveMessage {
    MakeMoveMessage { uid: GUEST, action: ([0, 0, 0, dest[0], dest[1], dest[2]], figure), gid: GAME }
}

fn validation(reply: Result<MoveDecision, WebsocketError>) -> String {
    match reply {
        Err(WebsocketError::ValidationError(reason)) => reason,
        other => panic!("expected a validation error, got {:?}", other),
    }
}

#[test]
fn a_new_coordinator_runs_no_game() {
    let server = GameServer::build();
    assert_eq!(server.phase(GAME), None);
    assert_eq!(server.host(GAME), None);
    assert!(server.board(GAME).is_none());
    assert!(server.sessions(GAME).is_empty());
}

#[test]
fn first_connect_creates_the_registry_in_the_lobby() {
    let mut server = GameServer::build();
    let out = server.handle_connect(Connect { addr: 1, uid: HOST }, member(GAME, "anna")).unwrap();
    assert_eq!(server.phase(GAME), Some(PHASE_LOBBY));
    assert_eq!(server.host(GAME), Some(HOST));
    assert_eq!(server.sessions(GAME), vec![1]);
    assert_eq!(server.board(GAME).unwrap().0, GraphState::empty().0);
    assert_eq!(out.recipients, vec![1]);
    assert_eq!(out.message.action, 7);
    assert_eq!(out.message.data.len(), 1);
    assert_eq!(
        *out.message.data.get("player").unwrap(),
        "11111111-2222-3333-4444-555555555555|anna"
    );
}

#[test]
fn second_connect_joins_and_tells_everyone() {
    let mut server = GameServer::build();
    server.handle_connect(Connect { addr: 1, uid: HOST }, member(GAME, "anna")).unwrap();
    let out = server.handle_connect(Connect { addr: 2, uid: GUEST }, member(GAME, "ben")).unwrap();
    assert_eq!(server.sessions(GAME), vec![1, 2]);
    assert_eq!(out.recipients, vec![1, 2]);
    assert_eq!(
        *out.message.data.get("player").unwrap(),
        "0a0b0c0d-0e0f-1011-1213-141516171819|ben"
    );
    // the host that the first connect recorded stays
    assert_eq!(server.host(GAME), Some(HOST));
}

#[test]
fn connecting_twice_does_not_register_twice() {
    let mut server = lobby();
    let out = server.handle_connect(Connect { addr: 2, uid: GUEST }, member(GAME, "ben")).unwrap();
    assert_eq!(server.sessions(GAME), vec![1, 2]);
    assert_eq!(out.recipients, vec![1, 2]);
}

#[test]
fn connect_without_a_game_is_not_authorized() {
    let mut server = lobby();
    let reply = server.handle_connect(Connect { addr: 9, uid: 99 }, None);
    assert!(matches!(reply, Err(WebsocketError::AuthorizationError())));
    assert_eq!(server.sessions(GAME), vec![1, 2]);
}

#[test]
fn games_are_independent() {
    let mut server = lobby();
    server.handle_connect(Connect { addr: 5, uid: 50 }, member(8, "cleo")).unwrap();
    assert_eq!(server.sessions(GAME), vec![1, 2]);
    assert_eq!(server.sessions(8), vec![5]);
    server.handle_start_game(StartGameMessage { gid: GAME, uid: HOST }).unwrap();
    assert_eq!(server.phase(GAME), Some(PHASE_ACTIVE));
    assert_eq!(server.phase(8), Some(PHASE_LOBBY));
}

#[test]
fn start_game_from_a_non_host_is_refused_and_the_phase_stays_lobby() {
    let mut server = lobby();
    let reply = server.handle_start_game(StartGameMessage { gid: GAME, uid: GUEST });
    assert!(matches!(reply, Err(WebsocketError::AuthorizationError())));
    assert_eq!(server.phase(GAME), Some(PHASE_LOBBY));
    assert_eq!(server.sessions(GAME), vec![1, 2]);
}

#[test]
fn start_game_from_the_host_activates_the_game() {
    let mut server = lobby();
    let out = server.handle_start_game(StartGameMessage { gid: GAME, uid: HOST }).unwrap();
    assert_eq!(server.phase(GAME), Some(PHASE_ACTIVE));
    assert_eq!(out.recipients, vec![1, 2]);
    assert_eq!(out.message.action, 5);
    assert!(out.message.data.is_empty());
}

#[test]
fn start_game_of_an_unknown_game_is_a_validation_error() {
    let mut server = lobby();
    match server.handle_start_game(StartGameMessage { gid: 99, uid: HOST }) {
        Err(WebsocketError::ValidationError(reason)) => {
            assert_eq!(reason, "Game not found. Out of sync GameServer?")
        }
        other => panic!("unexpected {:?}", other),
    }
}

#[test]
fn disconnect_tells_those_who_stay() {
    let mut server = lobby();
    let out = server.handle_disconnect(Disconnect { gid: GAME, uid: GUEST, addr: 2 });
    assert!(!out.remove_game);
    let notice = out.notice.unwrap();
    assert_eq!(notice.recipients, vec![1]);
    assert_eq!(notice.message.action, 4);
    assert_eq!(
        *notice.message.data.get("player").unwrap(),
        "0a0b0c0d-0e0f-1011-1213-141516171819"
    );
    assert_eq!(server.sessions(GAME), vec![1]);
    assert_eq!(server.phase(GAME), Some(PHASE_LOBBY));
}

#[test]
fn last_disconnect_tears_the_game_down_once() {
    let mut server = running();
    let first = server.handle_disconnect(Disconnect { gid: GAME, uid: HOST, addr: 1 });
    assert!(!first.remove_game);
    let last = server.handle_disconnect(Disconnect { gid: GAME, uid: GUEST, addr: 2 });
    assert!(last.remove_game);
    assert!(last.notice.is_none());
    assert_eq!(server.phase(GAME), None);
    assert!(server.sessions(GAME).is_empty());
    // the same session leaving again removes nothing
    let again = server.handle_disconnect(Disconnect { gid: GAME, uid: GUEST, addr: 2 });
    assert!(!again.remove_game);
    assert!(again.notice.is_none());
}

#[test]
fn disconnect_of_an_unknown_session_changes_nothing() {
    let mut server = lobby();
    let out = server.handle_disconnect(Disconnect { gid: GAME, uid: 5, addr: 77 });
    assert!(!out.remove_game);
    assert!(out.notice.is_none());
    assert_eq!(server.sessions(GAME), vec![1, 2]);
    let out = server.handle_disconnect(Disconnect { gid: 1234, uid: 5, addr: 1 });
    assert!(!out.remove_game);
    assert!(out.notice.is_none());
}

#[test]
fn a_game_starts_anew_after_teardown() {
    let mut server = running();
    server.handle_disconnect(Disconnect { gid: GAME, uid: HOST, addr: 1 });
    server.handle_disconnect(Disconnect { gid: GAME, uid: GUEST, addr: 2 });
    server.handle_connect(Connect { addr: 3, uid: GUEST }, member(GAME, "ben")).unwrap();
    assert_eq!(server.phase(GAME), Some(PHASE_LOBBY));
    assert_eq!(server.sessions(GAME), vec![3]);
}

#[test]
fn send_message_addresses_the_sessions_of_the_game() {
    let server = lobby();
    let data = DashMap::new();
    data.insert("user".to_string(), "ben".to_string());
    let out = server.send_message(&GAME, 1, data);
    assert_eq!(out.recipients, vec![1, 2]);
    assert_eq!(out.message.action, 1);
    assert_eq!(*out.message.data.get("user").unwrap(), "ben");
    let none = server.send_message(&99, 1, DashMap::new());
    assert!(none.recipients.is_empty());
}

#[test]
fn query_moves_gives_the_board() {
    let server = lobby();
    let state = server.handle_query_moves(QueryMovesMessage { gid: GAME }).unwrap();
    assert_eq!(state.locations, GraphState::empty().0.to_vec());
    assert!(matches!(
        server.handle_query_moves(QueryMovesMessage { gid: 99 }),
        Err(WebsocketError::ValidationError(_))
    ));
}

fn record() -> GameRecord {
    GameRecord {
        name: "friday".to_string(),
        description: None,
        icon: "star".to_string(),
        pin: None,
        users: vec![(HOST, "anna".to_string()), (GUEST, "ben".to_string())],
        host: HOST,
    }
}

#[test]
fn query_game_fills_in_what_the_store_left_out() {
    let server = running();
    let answer = server.handle_query_game(QueryGameMessage { gid: GAME }, record()).unwrap();
    assert_eq!(answer.name, "friday");
    assert_eq!(answer.description, "");
    assert_eq!(answer.icon, "star");
    assert_eq!(answer.players.len(), 2);
    assert_eq!(answer.players[1], (GUEST, "ben".to_string()));
    assert_eq!(answer.state, PHASE_ACTIVE);
    assert_eq!(answer.host, HOST);
    assert!(answer.pin.is_empty());
}

#[test]
fn query_game_keeps_description_and_pin() {
    let server = lobby();
    let mut given = record();
    given.description = Some("weekly".to_string());
    given.pin = Some(vec![1, 2, 3, 4, 5, 6, 7, 8]);
    let answer = server.handle_query_game(QueryGameMessage { gid: GAME }, given).unwrap();
    assert_eq!(answer.description, "weekly");
    assert_eq!(answer.pin, vec![1, 2, 3, 4, 5, 6, 7, 8]);
    assert_eq!(answer.state, PHASE_LOBBY);
    assert!(matches!(
        server.handle_query_game(QueryGameMessage { gid: 99 }, record()),
        Err(WebsocketError::ValidationError(_))
    ));
}

#[test]
fn a_move_in_the_lobby_is_rejected() {
    let server = lobby();
    let reply = server.handle_make_move(&request(1, [6, 1, 5]), &LatestMove::NotFound);
    assert_eq!(validation(reply), "Game has not started");
}

#[test]
fn a_move_in_an_unknown_game_is_rejected() {
    let server = running();
    let mut msg = request(1, [6, 1, 5]);
    msg.gid = 99;
    let reply = server.handle_make_move(&msg, &LatestMove::NotFound);
    assert_eq!(validation(reply), "Game not found. Out of sync GameServer?");
}

#[test]
fn a_first_move_starts_from_the_starting_layout() {
    let server = running();
    let decision = server.handle_make_move(&request(1, [6, 1, 5]), &LatestMove::NotFound).unwrap();
    assert_eq!(decision.record, ([5, 0, 0, 6, 1, 5], 1));
    assert_eq!(decision.occupant, NO_FIGURE);
}

#[test]
fn a_repeated_move_is_rejected_on_the_second_attempt() {
    let mut server = running();
    let msg = request(1, [6, 1, 5]);
    let decision = server.handle_make_move(&msg, &LatestMove::NotFound).unwrap();
    assert!(server.apply_move(GAME, &decision));
    let latest = LatestMove::Found(decision.record);
    assert_eq!(validation(server.handle_make_move(&msg, &latest)), "This move is repetitive");
}

#[test]
fn an_accepted_move_changes_the_board_only_when_applied() {
    let mut server = running();
    let decision = server.handle_make_move(&request(1, [6, 1, 5]), &LatestMove::NotFound).unwrap();
    assert_eq!(server.board(GAME).unwrap().0, GraphState::empty().0);
    assert!(server.apply_move(GAME, &decision));
    let board = server.board(GAME).unwrap();
    // figure 1 has moved, the others have not
    assert_eq!(board.0[0], ([6, 1, 5], 1));
    assert_eq!(board.0[5], ([5, 0, 0], 6));
    for slot in 1..35 {
        assert_eq!(board.0[slot], GraphState::empty().0[slot]);
    }
}

#[test]
fn applying_a_move_that_fits_no_entry_changes_nothing() {
    let mut server = running();
    let stray = MoveDecision { record: ([3, 3, 3, 6, 1, 5], 1), occupant: NO_FIGURE };
    assert!(!server.apply_move(GAME, &stray));
    assert_eq!(server.board(GAME).unwrap().0, GraphState::empty().0);
    let fine = MoveDecision { record: ([5, 0, 0, 6, 1, 5], 1), occupant: NO_FIGURE };
    assert!(!server.apply_move(99, &fine));
}

#[test]
fn a_rejected_move_leaves_the_board_as_it_is() {
    let server = running();
    let reply = server.handle_make_move(&request(1, [5, 9, 0]), &LatestMove::NotFound);
    assert_eq!(validation(reply), "This move isn't possible");
    assert_eq!(server.board(GAME).unwrap().0, GraphState::empty().0);
}

#[test]
fn a_move_of_an_unknown_figure_is_rejected() {
    let server = running();
    let reply = server.handle_make_move(&request(77, [6, 1, 5]), &LatestMove::NotFound);
    assert_eq!(validation(reply), "Unknown figure");
    let reply = server.handle_make_move(&request(0, [6, 1, 5]), &LatestMove::NotFound);
    assert_eq!(validation(reply), "Unknown figure");
}

fn internal(reply: Result<MoveDecision, WebsocketError>) -> String {
    match reply {
        Err(WebsocketError::InternalError(reason)) => reason,
        other => panic!("expected an internal error, got {:?}", other),
    }
}

#[test]
fn a_failed_store_is_an_internal_error() {
    let server = running();
    let reply = server.handle_make_move(&request(1, [6, 1, 5]), &LatestMove::Failed);
    assert_eq!(internal(reply), "Potential Corrupted database!");
}

#[test]
fn a_move_from_a_position_that_is_no_vertex_is_an_internal_error() {
    let server = running();
    // the figure's latest move ended on a lane stop
    let latest = LatestMove::Found(([5, 0, 0, 6, 1, 5], 1));
    assert_eq!(internal(server.handle_make_move(&request(1, [6, 2, 5]), &latest)), "NoSuchVertex");
    // a gray stopper is off the board
    let reply = server.handle_make_move(&request(31, [6, 1, 5]), &LatestMove::NotFound);
    assert_eq!(internal(reply), "NoSuchVertex");
}

#[test]
fn a_later_move_starts_where_the_latest_ended() {
    let mut server = running();
    let earlier = MoveDecision { record: ([5, 0, 0, 7, 0, 0], 1), occupant: NO_FIGURE };
    assert!(server.apply_move(GAME, &earlier));
    let latest = LatestMove::Found(earlier.record);
    let decision = server.handle_make_move(&request(1, [7, 1, 6]), &latest).unwrap();
    assert_eq!(decision.record, ([7, 0, 0, 7, 1, 6], 1));
    assert_eq!(decision.occupant, NO_FIGURE);
    assert!(server.apply_move(GAME, &decision));
    assert_eq!(server.board(GAME).unwrap().0[0], ([7, 1, 6], 1));
}

#[test]
fn a_board_that_does_not_have_the_figure_on_the_source_is_out_of_sync() {
    let server = running();
    // the store says that figure 1 stands on junction 7, the board has it on junction 5
    let latest = LatestMove::Found(([5, 0, 0, 7, 0, 0], 1));
    let reply = server.handle_make_move(&request(1, [7, 1, 6]), &latest);
    assert_eq!(internal(reply), "Board out of sync");
}

#[test]
fn every_player_piece_moves_under_its_own_id() {
    let mut server = running();
    // figure 6 is the first piece of the second player; it starts on junction 5 too
    let decision = server.handle_make_move(&request(6, [6, 1, 5]), &LatestMove::NotFound).unwrap();
    assert_eq!(decision.record, ([5, 0, 0, 6, 1, 5], 6));
    assert!(server.apply_move(GAME, &decision));
    let board = server.board(GAME).unwrap();
    assert_eq!(board.0[5], ([6, 1, 5], 6));
    assert_eq!(board.0[0], ([5, 0, 0], 1));
}

#[test]
fn a_move_onto_a_figure_reports_it() {
    let server = running();
    // along the lane between junction 5 and corner 1; the corner holds the black stopper 27
    let decision = server.handle_make_move(&request(1, [1, 0, 0]), &LatestMove::NotFound).unwrap();
    assert_eq!(decision.record, ([5, 0, 0, 1, 0, 0], 1));
    assert_eq!(decision.occupant, 27);
}

#[test]
fn a_move_through_an_occupied_base_point_is_rejected() {
    let server = running();
    let reply = server.handle_make_move(&request(1, [7, 1, 6]), &LatestMove::NotFound);
    assert_eq!(validation(reply), "This move isn't possible");
}
