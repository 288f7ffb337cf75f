use dashmap::DashMap;
use pentagame::auth::User;
use pentagame::graph::state::{GraphState, ResizableGraphState};
use pentagame::ws::errors::WebsocketError;
use pentagame::ws::messages::SessionMessage;
use pentagame::ws::session::{
    frame_notice, notice_json, Command, Frame, QueryGameResponse, Reply, Request, WsGameSession,
    CLIENT_TIMEOUT, HEARTBEAT_INTERVAL,
};

const UID: u128 = 42;
const UNIMPLEMENTED: &str = "{\"code\":65535,\"message\":\"Unimplemented: The action you tried to use is either implemented/ supported at them moment\"}";
const UNAUTHORIZED: &str = "{\"code\":3,\"message\":\"MessageError: Seems like you weren't allowed to perform this action\"}";
const FORMAT: &str = "{\"code\":1,\"message\":\"MessageError: Seems like your message couldn't be loaded from JSON\"}";

fn session() -> WsGameSession {
    let user = User { id: UID, game: 7, name: "ben".to_string() };
    WsGameSession::new(user, 7, 3, 100)
}

fn message(action: u8, pairs: &[(&str, &str)]) -> Frame {
    let data = DashMap::new();
    for (key, value) in pairs {
        data.insert(key.to_string(), value.to_string());
    }
    Frame::Text(Some(SessionMessage { action, data }))
}

fn only_text(commands: Vec<Command>) -> String {
    assert_eq!(commands.len(), 1);
    match commands.into_iter().next().unwrap() {
        Command::Text(text) => text,
        other => panic!("expected a text, got {:?}", other),
    }
}

fn is_leave(command: &Command) -> bool {
    match command {
        Command::Ask(Request::Disconnect(msg)) => msg.gid == 7 && msg.uid == UID && msg.addr == 3,
        _ => false,
    }
}

#[test]
fn heartbeat_constants() {
    assert_eq!(HEARTBEAT_INTERVAL, 5);
    assert_eq!(CLIENT_TIMEOUT, 30);
}

#[test]
fn a_new_session_registers_with_the_coordinator() {
    let session = session();
    assert_eq!(session.hb, 100);
    assert!(!session.stopped);
    let commands = session.started();
    assert_eq!(commands.len(), 1);
    match &commands[0] {
        Command::Ask(Request::Connect(msg)) => {
            assert_eq!(msg.addr, 3);
            assert_eq!(msg.uid, UID);
        }
        other => panic!("unexpected {:?}", other),
    }
}

#[test]
fn heartbeat_within_the_timeout_sends_a_probe() {
    let mut session = session();
    let commands = session.hb(130);
    assert!(matches!(commands.as_slice(), [Command::Ping]));
    assert!(!session.stopped);
    // a clock reading before the last sign of life counts as no time passed
    let commands = session.hb(50);
    assert!(matches!(commands.as_slice(), [Command::Ping]));
}

#[test]
fn heartbeat_after_the_timeout_disconnects_and_ignores_later_data() {
    let mut session = session();
    let commands = session.hb(131);
    assert_eq!(commands.len(), 2);
    assert!(is_leave(&commands[0]));
    assert!(matches!(commands[1], Command::Stop));
    assert!(session.stopped);
    // the client sends more data: nothing happens
    assert!(session.handle(message(1, &[]), 132).is_empty());
    assert!(session.handle(Frame::Ping(vec![1]), 133).is_empty());
    assert_eq!(session.hb, 100);
    assert!(session.hb(134).is_empty());
    assert!(session.move_reply(Reply::Delivered(Ok(true))).is_empty());
}

#[test]
fn a_probe_is_a_sign_of_life() {
    let mut session = session();
    let commands = session.handle(Frame::Ping(vec![7, 8]), 120);
    assert_eq!(commands.len(), 1);
    assert!(matches!(&commands[0], Command::Pong(payload) if payload == &vec![7, 8]));
    assert_eq!(session.hb, 120);
    assert!(session.handle(Frame::Pong, 140).is_empty());
    assert_eq!(session.hb, 140);
    assert!(matches!(session.hb(170).as_slice(), [Command::Ping]));
}

#[test]
fn a_text_is_no_sign_of_life() {
    let mut session = session();
    session.handle(message(1, &[]), 125);
    assert_eq!(session.hb, 100);
}

#[test]
fn malformed_text_gets_the_format_error_and_the_connection_stays() {
    let mut session = session();
    assert_eq!(only_text(session.handle(Frame::Text(None), 101)), FORMAT);
    assert!(!session.stopped);
}

#[test]
fn action_0_asks_for_the_board() {
    let mut session = session();
    let commands = session.handle(message(0, &[("all", "true")]), 101);
    assert_eq!(commands.len(), 1);
    assert!(matches!(&commands[0], Command::Ask(Request::QueryMoves(msg)) if msg.gid == 7));
}

#[test]
fn action_0_without_the_key_all_is_answered() {
    let mut session = session();
    let text = only_text(session.handle(message(0, &[]), 101));
    assert_eq!(text, "{\"action\":255,\"data\":\"Missing data key: 'all'\"}");
}

#[test]
fn action_1_asks_for_the_game() {
    let mut session = session();
    let commands = session.handle(message(1, &[]), 101);
    assert_eq!(commands.len(), 1);
    assert!(matches!(&commands[0], Command::Ask(Request::QueryGame(msg)) if msg.gid == 7));
}

#[test]
fn action_2_asks_for_a_move() {
    let mut session = session();
    let commands =
        session.handle(message(2, &[("figure", "1"), ("move", "[5,0,0,6,1,5]")]), 101);
    assert_eq!(commands.len(), 1);
    match &commands[0] {
        Command::Ask(Request::MakeMove(msg)) => {
            assert_eq!(msg.uid, UID);
            assert_eq!(msg.gid, 7);
            assert_eq!(msg.action, ([5, 0, 0, 6, 1, 5], 1));
        }
        other => panic!("unexpected {:?}", other),
    }
}

#[test]
fn action_2_with_bad_fields_is_answered() {
    let mut session = session();
    let text = only_text(session.handle(message(2, &[("move", "[5,0,0,6,1,5]")]), 101));
    assert_eq!(text, "Failed to load message due to invalid content");
    assert!(!session.stopped);
}

#[test]
fn action_5_asks_to_start_the_game() {
    let mut session = session();
    let commands = session.handle(message(5, &[("message", "go")]), 101);
    assert_eq!(commands.len(), 1);
    assert!(matches!(
        &commands[0],
        Command::Ask(Request::StartGame(msg)) if msg.gid == 7 && msg.uid == UID
    ));
}

#[test]
fn other_actions_are_not_implemented() {
    for action in [3u8, 4, 6, 7, 200] {
        let mut session = session();
        assert_eq!(only_text(session.handle(message(action, &[]), 101)), UNIMPLEMENTED);
        assert!(!session.stopped);
    }
}

#[test]
fn binary_frames_are_not_implemented() {
    let mut session = session();
    assert_eq!(only_text(session.handle(Frame::Binary, 101)), UNIMPLEMENTED);
    assert!(session.handle(Frame::Nop, 101).is_empty());
    assert!(!session.stopped);
}

#[test]
fn a_close_frame_ends_the_session() {
    let mut session = session();
    let commands = session.handle(Frame::Close, 101);
    assert_eq!(commands.len(), 3);
    assert!(matches!(commands[0], Command::Close));
    assert!(is_leave(&commands[1]));
    assert!(matches!(commands[2], Command::Stop));
    assert!(session.stopped);
}

#[test]
fn a_continuation_frame_ends_the_session() {
    let mut session = session();
    let commands = session.handle(Frame::Continuation, 101);
    assert_eq!(commands.len(), 3);
    assert!(matches!(&commands[0], Command::Text(text) if text == UNIMPLEMENTED));
    assert!(is_leave(&commands[1]));
    assert!(matches!(commands[2], Command::Stop));
    assert!(session.stopped);
}

#[test]
fn a_broken_connection_stops_the_session() {
    let mut session = session();
    assert!(matches!(session.handle(Frame::Broken, 101).as_slice(), [Command::Stop]));
    assert!(session.stopped);
}

#[test]
fn stopping_tells_the_coordinator() {
    let mut session = session();
    let request = session.stopping();
    assert!(is_leave(&Command::Ask(request)));
    assert!(session.stopped);
    let mut session = self::session();
    let commands = session.stop();
    assert_eq!(commands.len(), 2);
    assert!(is_leave(&commands[0]));
    assert!(matches!(commands[1], Command::Stop));
}

#[test]
fn a_refused_registration_is_told_to_the_client() {
    let mut session = session();
    assert!(session.connected(Reply::Delivered(Ok(()))).is_empty());
    let refused = Reply::Delivered(Err(WebsocketError::AuthorizationError()));
    assert_eq!(only_text(session.connected(refused)), UNAUTHORIZED);
    assert!(!session.stopped);
    // a store that failed is told as what it is
    let failed = Reply::Delivered(Err(WebsocketError::InternalError("no user".to_string())));
    assert_eq!(
        only_text(session.connected(failed)),
        "{\"code\":0,\"message\":\"Internal Error: no user\"}"
    );
    assert!(!session.stopped);
}

#[test]
fn an_unreachable_coordinator_ends_the_session() {
    let mut session = session();
    assert!(matches!(session.connected(Reply::Unreachable).as_slice(), [Command::Stop]));
    assert!(session.stopped);
    let mut session = self::session();
    assert!(matches!(session.moves_reply(Reply::Unreachable).as_slice(), [Command::Stop]));
    let mut session = self::session();
    assert!(matches!(session.game_reply(Reply::Unreachable).as_slice(), [Command::Stop]));
    let mut session = self::session();
    assert!(matches!(session.move_reply(Reply::Unreachable).as_slice(), [Command::Stop]));
    let mut session = self::session();
    let commands = session.start_reply(Reply::Unreachable);
    assert_eq!(commands.len(), 2);
    assert!(is_leave(&commands[0]));
    assert!(matches!(commands[1], Command::Stop));
    assert!(session.stopped);
}

#[test]
fn the_board_is_passed_on() {
    let mut session = session();
    let board = ResizableGraphState::from(GraphState::empty());
    let commands = session.moves_reply(Reply::Delivered(Ok(board)));
    assert_eq!(commands.len(), 1);
    match &commands[0] {
        Command::Moves(message) => {
            assert_eq!(message.action, 0);
            assert_eq!(message.data.locations.len(), 35);
        }
        other => panic!("unexpected {:?}", other),
    }
    let failed = Reply::Delivered(Err(WebsocketError::InternalError("db".to_string())));
    assert_eq!(
        only_text(session.moves_reply(failed)),
        "Internal Error: Database Error or Gameserver Crashed"
    );
}

#[test]
fn the_game_is_passed_on() {
    let mut session = session();
    let answer = QueryGameResponse {
        name: "friday".to_string(),
        description: "".to_string(),
        icon: "star".to_string(),
        players: vec![(UID, "ben".to_string())],
        state: 1,
        host: UID,
        pin: vec![],
    };
    let commands = session.game_reply(Reply::Delivered(Ok(answer)));
    assert_eq!(commands.len(), 1);
    match &commands[0] {
        Command::Game(message) => {
            assert_eq!(message.action, 1);
            assert_eq!(message.data.name, "friday");
            assert_eq!(message.data.state, 1);
        }
        other => panic!("unexpected {:?}", other),
    }
    let missing = Reply::Delivered(Err(WebsocketError::ValidationError("gone".to_string())));
    assert_eq!(
        only_text(session.game_reply(missing)),
        "{\"code\":2,\"message\":\"ValidationError: gone\"}"
    );
    assert!(!session.stopped);
}

#[test]
fn a_rejected_move_is_told_and_the_connection_stays() {
    let mut session = session();
    let rejected =
        Reply::Delivered(Err(WebsocketError::ValidationError("This move isn't possible".into())));
    assert_eq!(
        only_text(session.move_reply(rejected)),
        "{\"code\":2,\"message\":\"ValidationError: This move isn't possible\"}"
    );
    assert!(!session.stopped);
    assert_eq!(only_text(session.move_reply(Reply::Delivered(Ok(true)))), UNIMPLEMENTED);
}

#[test]
fn a_refused_start_is_told_to_the_client() {
    let mut session = session();
    assert!(session.start_reply(Reply::Delivered(Ok(()))).is_empty());
    let refused = Reply::Delivered(Err(WebsocketError::AuthorizationError()));
    assert_eq!(only_text(session.start_reply(refused)), UNAUTHORIZED);
    assert!(!session.stopped);
}

#[test]
fn notice_json_escapes_its_text() {
    assert_eq!(notice_json(0, "a\"b"), "{\"action\":0,\"data\":\"a\\\"b\"}");
    assert_eq!(notice_json(17, ""), "{\"action\":17,\"data\":\"\"}");
}

#[test]
fn a_message_from_the_coordinator_is_forwarded_as_it_is() {
    let mut session = session();
    let text = "{\"action\":7,\"data\":{\"player\":\"x|ben\"}}".to_string();
    assert_eq!(only_text(session.forward(text.clone())), text);
    session.stop();
    assert!(session.forward(text).is_empty());
}

#[test]
fn a_notice_is_framed_around_its_literal() {
    assert_eq!(frame_notice(255, Some("\"x\"".to_string())), "{\"action\":255,\"data\":\"x\"}");
    assert_eq!(frame_notice(0, Some("[1,2]".to_string())), "{\"action\":0,\"data\":[1,2]}");
    assert_eq!(frame_notice(7, None), "{\"action\":7,\"data\":null}");
}
