use vstd::prelude::*;
use vstd::string::*;
use crate::auth::User;
use crate::graph::models::{move_of_data, Figure, Move};
use crate::graph::state::ResizableGraphState;
use crate::ws::errors::{
    decimal, decimal_text, error_code, error_frame, error_note, error_title,
    message_format_error, unimplemented_error, ErrorMessage, ErrorView, WebsocketError,
};
use crate::ws::messages::{
    Connect, Disconnect, MakeMoveMessage, QueryGameMessage, QueryMovesMessage, ServerMessage,
    SessionMessage, StartGameMessage,
};
use crate::ws::payload::{text_entries, texts_contains};
use crate::ws::wire::{json_string, quote_json};

verus! {

/// How often a liveness probe is sent, in seconds.
pub const HEARTBEAT_INTERVAL: u64 = 5;

/// How long a client may stay silent before the session ends, in seconds.
pub const CLIENT_TIMEOUT: u64 = 30;

/// The answer to a query for a game: what the store knows of it, and its
/// phase.
#[derive(Debug)]
pub struct QueryGameResponse {
    pub name: String,
    pub description: String,
    pub icon: String,
    pub players: Vec<(u128, String)>,
    pub state: u8,
    pub host: u128,
    pub pin: Vec<i16>,
}

/// The state of one connection.
#[derive(Debug)]
pub struct WsGameSession {
    /// When the client last gave a sign of life, in seconds of a clock that
    /// never runs backwards.
    pub hb: u64,
    /// joined game
    pub game: i32,
    /// the handle under which the coordinator knows this session
    pub addr: u64,
    /// bound identity
    pub user: User,
    /// whether the session has ended
    pub stopped: bool,
}

/// What arrives on a connection.
#[derive(Debug)]
pub enum Frame {
    /// the connection broke the protocol
    Broken,
    Ping(Vec<u8>),
    Pong,
    /// a text; `None` where it is no message in JSON
    Text(Option<SessionMessage>),
    Binary,
    Close,
    Continuation,
    Nop,
}

/// A request from a session to the coordinator.
#[derive(Debug)]
pub enum Request {
    Connect(Connect),
    Disconnect(Disconnect),
    QueryMoves(QueryMovesMessage),
    QueryGame(QueryGameMessage),
    MakeMove(MakeMoveMessage),
    StartGame(StartGameMessage),
}

/// A `Request`, the numbers of a move as a sequence.
pub enum RequestView {
    Connect { addr: u64, uid: u128 },
    Disconnect { gid: i32, uid: u128, addr: u64 },
    QueryMoves { gid: i32 },
    QueryGame { gid: i32 },
    MakeMove { uid: u128, numbers: Seq<i16>, figure: Figure, gid: i32 },
    StartGame { gid: i32, uid: u128 },
}

impl View for Request {
    type V = RequestView;

    open spec fn view(&self) -> RequestView {
        match self {
            Request::Connect(msg) => RequestView::Connect { addr: msg.addr, uid: msg.uid },
            Request::Disconnect(msg) => RequestView::Disconnect {
                gid: msg.gid,
                uid: msg.uid,
                addr: msg.addr,
            },
            Request::QueryMoves(msg) => RequestView::QueryMoves { gid: msg.gid },
            Request::QueryGame(msg) => RequestView::QueryGame { gid: msg.gid },
            Request::MakeMove(msg) => RequestView::MakeMove {
                uid: msg.uid,
                numbers: msg.action.0@,
                figure: msg.action.1,
                gid: msg.gid,
            },
            Request::StartGame(msg) => RequestView::StartGame { gid: msg.gid, uid: msg.uid },
        }
    }
}

/// What a session asks of the connection and of the coordinator.
#[derive(Debug)]
pub enum Command {
    /// answer a probe with its payload
    Pong(Vec<u8>),
    /// send a liveness probe
    Ping,
    /// send a text to the client
    Text(String),
    /// send the board to the client
    Moves(ServerMessage<ResizableGraphState>),
    /// send a game's description to the client
    Game(ServerMessage<QueryGameResponse>),
    /// send a request to the coordinator
    Ask(Request),
    /// close the connection
    Close,
    /// end the session
    Stop,
}

/// A `Command`, its texts as sequences.
pub enum CommandView {
    Pong(Seq<u8>),
    Ping,
    Text(Seq<char>),
    Moves(ServerMessage<ResizableGraphState>),
    Game(ServerMessage<QueryGameResponse>),
    Ask(RequestView),
    Close,
    Stop,
}

impl View for Command {
    type V = CommandView;

    open spec fn view(&self) -> CommandView {
        match self {
            Command::Pong(payload) => CommandView::Pong(payload@),
            Command::Ping => CommandView::Ping,
            Command::Text(text) => CommandView::Text(text@),
            Command::Moves(message) => CommandView::Moves(*message),
            Command::Game(message) => CommandView::Game(*message),
            Command::Ask(request) => CommandView::Ask(request@),
            Command::Close => CommandView::Close,
            Command::Stop => CommandView::Stop,
        }
    }
}

/// What the coordinator answered, or that it could not be reached.
#[derive(Debug)]
pub enum Reply<T> {
    Delivered(Result<T, WebsocketError>),
    Unreachable,
}

/// The commands `s`, their texts as sequences.
pub open spec fn views(s: Seq<Command>) -> Seq<CommandView> {
    s.map_values(|command: Command| command@)
}

/// The JSON object with the members `action` and `data`, the data given as
/// a JSON literal; `null` stands where there is none.
pub open spec fn notice_frame_of(action: u8, literal: Option<Seq<char>>) -> Seq<char> {
    let data = match literal {
        Some(literal) => literal,
        None => "null"@,
    };
    "{\"action\":"@ + decimal_text(action as nat) + ",\"data\":"@ + data + "}"@
}

/// The JSON object with the members `action` and `data`, the data a text. A
/// text that cannot be written as a JSON string is given as `null`.
pub open spec fn notice_frame(action: u8, text: Seq<char>) -> Seq<char> {
    notice_frame_of(action, json_string(text))
}

/// The text that a client receives for an error.
pub open spec fn error_text(error: ErrorView) -> Seq<char> {
    error_frame(error_code(error), error_note(error))
}

/// The request that tells the coordinator that a session has ended.
pub open spec fn leave_request(game: i32, uid: u128, addr: u64) -> CommandView {
    CommandView::Ask(RequestView::Disconnect { gid: game, uid, addr })
}

/// What a session does with a message from its client, by action code: 0
/// asks for the board, 1 for the game, 2 makes a move, 5 starts the game.
/// Every other code is answered as not implemented.
pub open spec fn dispatch(
    game: i32,
    uid: u128,
    action: u8,
    data: Map<Seq<char>, Seq<char>>,
) -> Seq<CommandView> {
    if action == 0 {
        if data.contains_key("all"@) {
            seq![CommandView::Ask(RequestView::QueryMoves { gid: game })]
        } else {
            seq![CommandView::Text(notice_frame(255, "Missing data key: 'all'"@))]
        }
    } else if action == 1 {
        seq![CommandView::Ask(RequestView::QueryGame { gid: game })]
    } else if action == 2 {
        match move_of_data(data) {
            Ok(parsed) => seq![
                CommandView::Ask(
                    RequestView::MakeMove { uid, numbers: parsed.0, figure: parsed.1, gid: game },
                ),
            ],
            Err(error) => seq![CommandView::Text(error_title(error))],
        }
    } else if action == 5 {
        seq![CommandView::Ask(RequestView::StartGame { gid: game, uid })]
    } else {
        seq![CommandView::Text(error_text(ErrorView::Unimplemented))]
    }
}

/// Whether a session that receives `frame` ends.
pub open spec fn ends_session(frame: Frame) -> bool {
    frame is Broken || frame is Close || frame is Continuation
}

/// What a session that has not ended does with a frame.
pub open spec fn frame_commands(game: i32, uid: u128, addr: u64, frame: Frame) -> Seq<CommandView> {
    match frame {
        Frame::Broken => seq![CommandView::Stop],
        Frame::Ping(payload) => seq![CommandView::Pong(payload@)],
        Frame::Pong => seq![],
        Frame::Text(None) => seq![CommandView::Text(error_text(ErrorView::MessageFormat))],
        Frame::Text(Some(message)) => dispatch(
            game,
            uid,
            message.action,
            text_entries(message.data),
        ),
        Frame::Binary => seq![CommandView::Text(error_text(ErrorView::Unimplemented))],
        Frame::Close => seq![CommandView::Close, leave_request(game, uid, addr), CommandView::Stop],
        Frame::Continuation => seq![
            CommandView::Text(error_text(ErrorView::Unimplemented)),
            leave_request(game, uid, addr),
            CommandView::Stop,
        ],
        Frame::Nop => seq![],
    }
}

/// The time between two readings of the clock; nothing where the later
/// reading is the earlier one.
pub open spec fn elapsed(since: u64, now: u64) -> int {
    if now >= since {
        now - since
    } else {
        0
    }
}

/// The JSON object with the members `action` and `data`; `literal` is the
/// data as a JSON literal.
pub fn frame_notice(action: u8, literal: Option<String>) -> (out: String)
    ensures
        out@ == notice_frame_of(
            action,
            match literal {
                Some(text) => Some(text@),
                None => None,
            },
        ),
{
    let mut out = String::from_str("{\"action\":");
    let code = decimal(action as u64);
    out.append(code.as_str());
    out.append(",\"data\":");
    match literal {
        Some(text) => {
            out.append(text.as_str());
        },
        None => {
            out.append("null");
        },
    }
    out.append("}");
    out
}

/// The JSON object with the members `action` and `data`, the data a text.
pub fn notice_json(action: u8, text: &str) -> (out: String)
    ensures
        out@ == notice_frame(action, text@),
{
    let literal = match quote_json(text) {
        Ok(literal) => Some(literal),
        Err(_) => None,
    };
    frame_notice(action, literal)
}

impl WsGameSession {
    /// A session for `user` in the game `game`, known to the coordinator as
    /// `addr`, opened at the time `now`.
    pub fn new(user: User, game: i32, addr: u64, now: u64) -> (session: WsGameSession)
        ensures
            session.hb == now,
            session.game == game,
            session.addr == addr,
            session.user == user,
            !session.stopped,
    {
        WsGameSession { hb: now, game, addr, user, stopped: false }
    }

    /// The request that tells the coordinator that this session has ended.
    pub fn leave(&self) -> (request: Request)
        ensures
            CommandView::Ask(request@) == leave_request(self.game, self.user.id, self.addr),
    {
        Request::Disconnect(Disconnect { gid: self.game, uid: self.user.id, addr: self.addr })
    }

    /// The session starts: it registers with the coordinator.
    pub fn started(&self) -> (commands: Vec<Command>)
        ensures
            views(commands@) == seq![
                CommandView::Ask(RequestView::Connect { addr: self.addr, uid: self.user.id }),
            ],
    {
        let mut commands: Vec<Command> = Vec::new();
        commands.push(Command::Ask(Request::Connect(Connect { addr: self.addr, uid: self.user.id })));
        assert(views(commands@) =~= seq![
            CommandView::Ask(RequestView::Connect { addr: self.addr, uid: self.user.id }),
        ]);
        commands
    }

    /// The session is about to stop: the coordinator is told.
    pub fn stopping(&mut self) -> (request: Request)
        ensures
            CommandView::Ask(request@) == leave_request(
                old(self).game,
                old(self).user.id,
                old(self).addr,
            ),
            final(self).stopped,
            final(self).hb == old(self).hb,
            final(self).game == old(self).game,
            final(self).addr == old(self).addr,
            final(self).user == old(self).user,
    {
        self.stopped = true;
        self.leave()
    }

    /// Ends the session: the coordinator is told, then the session stops.
    pub fn stop(&mut self) -> (commands: Vec<Command>)
        ensures
            views(commands@) == seq![
                leave_request(old(self).game, old(self).user.id, old(self).addr),
                CommandView::Stop,
            ],
            final(self).stopped,
            final(self).hb == old(self).hb,
            final(self).game == old(self).game,
            final(self).addr == old(self).addr,
            final(self).user == old(self).user,
    {
        let mut commands: Vec<Command> = Vec::new();
        commands.push(Command::Ask(self.leave()));
        commands.push(Command::Stop);
        self.stopped = true;
        assert(views(commands@) =~= seq![
            leave_request(old(self).game, old(self).user.id, old(self).addr),
            CommandView::Stop,
        ]);
        commands
    }

    /// The heartbeat at the time `now`. A client that has been silent for
    /// longer than `CLIENT_TIMEOUT` loses its session: the coordinator is
    /// told and the session stops. Otherwise a probe is sent. A session that
    /// has ended does nothing.
    pub fn hb(&mut self, now: u64) -> (commands: Vec<Command>)
        ensures
            final(self).hb == old(self).hb,
            final(self).game == old(self).game,
            final(self).addr == old(self).addr,
            final(self).user == old(self).user,
            final(self).stopped == (old(self).stopped || elapsed(old(self).hb, now)
                > CLIENT_TIMEOUT),
            views(commands@) == if old(self).stopped {
                seq![]
            } else if elapsed(old(self).hb, now) > CLIENT_TIMEOUT {
                seq![
                    leave_request(old(self).game, old(self).user.id, old(self).addr),
                    CommandView::Stop,
                ]
            } else {
                seq![CommandView::Ping]
            },
    {
        if self.stopped {
            let commands: Vec<Command> = Vec::new();
            assert(views(commands@) =~= seq![]);
            return commands;
        }
        let silent: u64 = if now >= self.hb {
            now - self.hb
        } else {
            0
        };
        // check client heartbeats
        if silent > CLIENT_TIMEOUT {
            // notify game server, stop, and don't try to send a ping
            return self.stop();
        }
        let mut commands: Vec<Command> = Vec::new();
        commands.push(Command::Ping);
        assert(views(commands@) =~= seq![CommandView::Ping]);
        commands
    }

    /// What the session does with a message from its client.
    pub fn dispatch_message(&self, message: SessionMessage) -> (commands: Vec<Command>)
        ensures
            views(commands@) == dispatch(
                self.game,
                self.user.id,
                message.action,
                text_entries(message.data),
            ),
    {
        let mut commands: Vec<Command> = Vec::new();
        let ghost expected = dispatch(
            self.game,
            self.user.id,
            message.action,
            text_entries(message.data),
        );
        if message.action == 0 {
            // fetch latest move
            if texts_contains(&message.data, "all") {
                commands.push(Command::Ask(Request::QueryMoves(QueryMovesMessage { gid: self.game })));
            } else {
                commands.push(Command::Text(notice_json(u8::MAX, "Missing data key: 'all'")));
            }
        } else if message.action == 1 {
            commands.push(Command::Ask(Request::QueryGame(QueryGameMessage { gid: self.game })));
        } else if message.action == 2 {
            match Move::from_action(message.data) {
                Ok(parsed_move) => {
                    commands.push(
                        Command::Ask(
                            Request::MakeMove(
                                MakeMoveMessage {
                                    action: parsed_move.0,
                                    gid: self.game,
                                    uid: self.user.id,
                                },
                            ),
                        ),
                    );
                },
                Err(e) => {
                    commands.push(Command::Text(e.to_string()));
                },
            }
        } else if message.action == 5 {
            commands.push(
                Command::Ask(
                    Request::StartGame(StartGameMessage { gid: self.game, uid: self.user.id }),
                ),
            );
        } else {
            commands.push(Command::Text(unimplemented_error()));
        }
        assert(views(commands@) =~= expected);
        commands
    }

    /// What the session does with a frame that arrives at the time `now`.
    /// A probe or its answer is a sign of life. A session that has ended
    /// does nothing.
    pub fn handle(&mut self, frame: Frame, now: u64) -> (commands: Vec<Command>)
        ensures
            final(self).game == old(self).game,
            final(self).addr == old(self).addr,
            final(self).user == old(self).user,
            final(self).stopped == (old(self).stopped || ends_session(frame)),
            final(self).hb == if !old(self).stopped && (frame is Ping || frame is Pong) {
                now
            } else {
                old(self).hb
            },
            views(commands@) == if old(self).stopped {
                seq![]
            } else {
                frame_commands(old(self).game, old(self).user.id, old(self).addr, frame)
            },
    {
        let mut commands: Vec<Command> = Vec::new();
        if self.stopped {
            assert(views(commands@) =~= seq![]);
            return commands;
        }
        let ghost expected = frame_commands(self.game, self.user.id, self.addr, frame);
        match frame {
            Frame::Broken => {
                self.stopped = true;
                commands.push(Command::Stop);
            },
            Frame::Ping(payload) => {
                self.hb = now;
                commands.push(Command::Pong(payload));
            },
            Frame::Pong => {
                self.hb = now;
            },
            Frame::Text(Some(message)) => {
                return self.dispatch_message(message);
            },
            Frame::Text(None) => {
                commands.push(Command::Text(message_format_error()));
            },
            Frame::Binary => {
                commands.push(Command::Text(unimplemented_error()));
            },
            Frame::Close => {
                commands.push(Command::Close);
                commands.push(Command::Ask(self.leave()));
                commands.push(Command::Stop);
                self.stopped = true;
            },
            Frame::Continuation => {
                commands.push(Command::Text(unimplemented_error()));
                commands.push(Command::Ask(self.leave()));
                commands.push(Command::Stop);
                self.stopped = true;
            },
            Frame::Nop => {},
        }
        assert(views(commands@) =~= expected);
        commands
    }
}

/// What a session does when the coordinator cannot be reached: it stops.
pub open spec fn unreachable_commands() -> Seq<CommandView> {
    seq![CommandView::Stop]
}

impl WsGameSession {
    /// The single command `command`, or nothing for a session that has
    /// ended; a session that gives `Stop` has ended afterwards.
    fn answer(&mut self, command: Command) -> (commands: Vec<Command>)
        ensures
            final(self).hb == old(self).hb,
            final(self).game == old(self).game,
            final(self).addr == old(self).addr,
            final(self).user == old(self).user,
            final(self).stopped == (old(self).stopped || command is Stop),
            views(commands@) == if old(self).stopped {
                seq![]
            } else {
                seq![command@]
            },
    {
        let mut commands: Vec<Command> = Vec::new();
        if self.stopped {
            assert(views(commands@) =~= seq![]);
            return commands;
        }
        if let Command::Stop = command {
            self.stopped = true;
        }
        commands.push(command);
        assert(views(commands@) =~= seq![command@]);
        commands
    }

    /// A message from the coordinator, already written as text: it goes to
    /// the client as it is.
    pub fn forward(&mut self, text: String) -> (commands: Vec<Command>)
        ensures
            *final(self) == *old(self),
            views(commands@) == if old(self).stopped {
                seq![]
            } else {
                seq![CommandView::Text(text@)]
            },
    {
        self.answer(Command::Text(text))
    }

    /// The coordinator's answer to the registration. A user whom the
    /// coordinator turns away is told why: the unauthorized reply for a
    /// user without a game, the error's own text for any other error. The
    /// connection stays open. A coordinator that cannot be reached ends the
    /// session.
    pub fn connected(&mut self, reply: Reply<()>) -> (commands: Vec<Command>)
        ensures
            final(self).hb == old(self).hb,
            final(self).game == old(self).game,
            final(self).addr == old(self).addr,
            final(self).user == old(self).user,
            final(self).stopped == (old(self).stopped || reply is Unreachable),
            views(commands@) == if old(self).stopped {
                seq![]
            } else {
                match reply {
                    Reply::Delivered(Ok(_)) => seq![],
                    Reply::Delivered(Err(error)) => seq![CommandView::Text(error_text(error@))],
                    Reply::Unreachable => unreachable_commands(),
                }
            },
    {
        match reply {
            Reply::Delivered(Ok(_)) => {
                let commands: Vec<Command> = Vec::new();
                assert(views(commands@) =~= seq![]);
                commands
            },
            Reply::Delivered(Err(error)) => self.answer(Command::Text(ErrorMessage::text(error))),
            Reply::Unreachable => self.answer(Command::Stop),
        }
    }

    /// The coordinator's answer to a query for the board.
    pub fn moves_reply(&mut self, reply: Reply<ResizableGraphState>) -> (commands: Vec<Command>)
        ensures
            final(self).hb == old(self).hb,
            final(self).game == old(self).game,
            final(self).addr == old(self).addr,
            final(self).user == old(self).user,
            final(self).stopped == (old(self).stopped || reply is Unreachable),
            views(commands@) == if old(self).stopped {
                seq![]
            } else {
                match reply {
                    Reply::Delivered(Ok(data)) => seq![
                        CommandView::Moves(ServerMessage { action: 0, data }),
                    ],
                    Reply::Delivered(Err(_)) => seq![
                        CommandView::Text(
                            "Internal Error: Database Error or Gameserver Crashed"@,
                        ),
                    ],
                    Reply::Unreachable => unreachable_commands(),
                }
            },
    {
        match reply {
            Reply::Delivered(Ok(data)) => self.answer(
                Command::Moves(ServerMessage { action: 0, data }),
            ),
            Reply::Delivered(Err(_)) => self.answer(
                Command::Text(
                    String::from_str("Internal Error: Database Error or Gameserver Crashed"),
                ),
            ),
            Reply::Unreachable => self.answer(Command::Stop),
        }
    }

    /// The coordinator's answer to a query for the game.
    pub fn game_reply(&mut self, reply: Reply<QueryGameResponse>) -> (commands: Vec<Command>)
        ensures
            final(self).hb == old(self).hb,
            final(self).game == old(self).game,
            final(self).addr == old(self).addr,
            final(self).user == old(self).user,
            final(self).stopped == (old(self).stopped || reply is Unreachable),
            views(commands@) == if old(self).stopped {
                seq![]
            } else {
                match reply {
                    Reply::Delivered(Ok(data)) => seq![
                        CommandView::Game(ServerMessage { action: 1, data }),
                    ],
                    Reply::Delivered(Err(error)) => seq![CommandView::Text(error_text(error@))],
                    Reply::Unreachable => unreachable_commands(),
                }
            },
    {
        match reply {
            Reply::Delivered(Ok(data)) => self.answer(
                Command::Game(ServerMessage { action: 1, data }),
            ),
            Reply::Delivered(Err(error)) => self.answer(Command::Text(ErrorMessage::text(error))),
            Reply::Unreachable => self.answer(Command::Stop),
        }
    }

    /// The coordinator's answer to a move. No notice of an accepted move is
    /// defined yet: the client is told that the action is not implemented.
    pub fn move_reply(&mut self, reply: Reply<bool>) -> (commands: Vec<Command>)
        ensures
            final(self).hb == old(self).hb,
            final(self).game == old(self).game,
            final(self).addr == old(self).addr,
            final(self).user == old(self).user,
            final(self).stopped == (old(self).stopped || reply is Unreachable),
            views(commands@) == if old(self).stopped {
                seq![]
            } else {
                match reply {
                    Reply::Delivered(Ok(_)) => seq![
                        CommandView::Text(error_text(ErrorView::Unimplemented)),
                    ],
                    Reply::Delivered(Err(error)) => seq![CommandView::Text(error_text(error@))],
                    Reply::Unreachable => unreachable_commands(),
                }
            },
    {
        match reply {
            Reply::Delivered(Ok(_)) => self.answer(Command::Text(unimplemented_error())),
            Reply::Delivered(Err(error)) => self.answer(Command::Text(ErrorMessage::text(error))),
            Reply::Unreachable => self.answer(Command::Stop),
        }
    }

    /// The coordinator's answer to a request to start the game. The
    /// coordinator tells all sessions of a start; a refusal is told to this
    /// client only.
    pub fn start_reply(&mut self, reply: Reply<()>) -> (commands: Vec<Command>)
        ensures
            final(self).hb == old(self).hb,
            final(self).game == old(self).game,
            final(self).addr == old(self).addr,
            final(self).user == old(self).user,
            final(self).stopped == (old(self).stopped || reply is Unreachable),
            views(commands@) == if old(self).stopped {
                seq![]
            } else {
                match reply {
                    Reply::Delivered(Ok(_)) => seq![],
                    Reply::Delivered(Err(error)) => seq![CommandView::Text(error_text(error@))],
                    Reply::Unreachable => seq![
                        leave_request(old(self).game, old(self).user.id, old(self).addr),
                        CommandView::Stop,
                    ],
                }
            },
    {
        match reply {
            Reply::Delivered(Ok(_)) => {
                let commands: Vec<Command> = Vec::new();
                assert(views(commands@) =~= seq![]);
                commands
            },
            Reply::Delivered(Err(error)) => self.answer(Command::Text(ErrorMessage::text(error))),
            Reply::Unreachable => {
                if self.stopped {
                    let commands: Vec<Command> = Vec::new();
                    assert(views(commands@) =~= seq![]);
                    commands
                } else {
                    self.stop()
                }
            },
        }
    }
}

} // verus!
