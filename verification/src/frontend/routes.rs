use vstd::prelude::*;
use vstd::string::*;
use rand::seq::SliceRandom;
use crate::ws::errors::{decimal, decimal_text};

verus! {

/// The answer to an action: 0 success, 1 failure, 2 invalid, 3
/// unauthorized, and a description.
#[derive(Debug)]
pub struct ActionStatus {
    pub code: i8,
    pub description: String,
}

/// The answer to a query: a code as in `ActionStatus`, and the data.
#[derive(Debug)]
pub struct QueryResult {
    pub code: i8,
    pub data: (u32, String, String, bool),
}

/// What is to be done for a user who asks to join a game.
#[derive(Debug, Clone, Copy, PartialEq, Eq, Structural)]
pub enum JoinStep {
    /// the game has a pin: ask for it
    AskPin,
    /// the user is in another game: leave it, then join
    Switch,
    /// the user is in this game already
    Stay,
    /// the user is in no game: join
    Join,
}

/// The decimal text of a number, with a minus sign where it is negative.
pub open spec fn signed_text(number: int) -> Seq<char> {
    if number < 0 {
        "-"@ + decimal_text((-number) as nat)
    } else {
        decimal_text(number as nat)
    }
}

/// The text of a pin: its numbers, one after the other.
pub open spec fn pin_text(pin: Seq<i16>) -> Seq<char>
    decreases pin.len(),
{
    if pin.len() == 0 {
        Seq::empty()
    } else {
        pin_text(pin.drop_last()) + signed_text(pin.last() as int)
    }
}

/// Whether a game is to be listed: the box is ticked, or the form has none.
pub fn is_public(public: &Option<String>) -> (listed: bool)
    ensures
        listed == match public {
            Some(content) => content@ == "on"@,
            None => true,
        },
{
    match public {
        Some(content) => {
            let on = String::from_str("on");
            *content == on
        },
        None => true,
    }
}

/// Whether a pin is to be generated for a new game: the field says `false`.
pub fn wants_pin(pin: &Option<String>) -> (wanted: bool)
    ensures
        wanted == match pin {
            Some(value) => value@ == "false"@,
            None => false,
        },
{
    match pin {
        Some(value) => {
            let marker = String::from_str("false");
            *value == marker
        },
        None => false,
    }
}

/// The text of `number`.
pub fn signed(number: i16) -> (text: String)
    ensures
        text@ == signed_text(number as int),
{
    if number < 0 {
        let size: u64 = (-(number as i64)) as u64;
        String::from_str("-").concat(decimal(size).as_str())
    } else {
        decimal(number as u64)
    }
}

/// The text of a pin.
pub fn stringify_pin(pin: &Vec<i16>) -> (text: String)
    ensures
        text@ == pin_text(pin@),
{
    let mut stringified = String::new();
    let mut i: usize = 0;
    while i < pin.len()
        invariant
            i <= pin.len(),
            stringified@ == pin_text(pin@.take(i as int)),
        decreases pin.len() - i,
    {
        proof {
            assert(pin@.take(i + 1).drop_last() =~= pin@.take(i as int));
        }
        let number = signed(pin[i]);
        stringified.append(number.as_str());
        i = i + 1;
    }
    assert(pin@.take(pin.len() as int) =~= pin@);
    stringified
}

/// Whether the pin that a user gave opens a game: the game has none, or the
/// text is that of the game's pin.
pub fn pin_accepted(pin: &Option<Vec<i16>>, given: &String) -> (accepted: bool)
    ensures
        accepted == match pin {
            Some(pin) => given@ == pin_text(pin@),
            None => true,
        },
{
    match pin {
        Some(pin) => {
            let stringified = stringify_pin(pin);
            *given == stringified
        },
        None => true,
    }
}

/// What is to be done for a user who asks to join the game `gid`, is in the
/// game `current`, and has not given a pin yet.
pub fn join_step(current: Option<i32>, gid: i32, has_pin: bool) -> (step: JoinStep)
    ensures
        step == match current {
            Some(joined) => if joined == gid {
                JoinStep::Stay
            } else if has_pin {
                JoinStep::AskPin
            } else {
                JoinStep::Switch
            },
            None => if has_pin {
                JoinStep::AskPin
            } else {
                JoinStep::Join
            },
        },
{
    match current {
        Some(current_game_id) => {
            if current_game_id != gid {
                // another game: a game with a pin asks for it first
                if has_pin {
                    JoinStep::AskPin
                } else {
                    JoinStep::Switch
                }
            } else {
                JoinStep::Stay
            }
        },
        None => {
            if has_pin {
                JoinStep::AskPin
            } else {
                JoinStep::Join
            }
        },
    }
}

/// Whether a user who is in the game already sees the board as its host.
pub fn plays_as_host(host: u128, uid: u128) -> (is_host: bool)
    ensures
        is_host == (host == uid),
{
    host == uid
}

/// `SliceRandom::choose` with the thread's generator: one of the ten
/// choices, picked at random.
#[verifier::external_body]
pub(crate) fn pick(choices: &[i16; 10]) -> (picked: Option<i16>)
    ensures
        match picked {
            Some(digit) => exists|i: int| 0 <= i <= 9 && choices@[i] == digit,
            None => false,
        },
{
    choices.choose(&mut rand::thread_rng()).copied()
}

/// A pin: eight numbers from 0 to 9.
pub open spec fn is_pin(pin: Seq<i16>) -> bool {
    pin.len() == 8 && forall|i: int| 0 <= i < pin.len() ==> 0 <= #[trigger] pin[i] <= 9
}

/// A pin made of `draws`, the first eight numbers of it.
pub fn pin_of_draws(draws: &Vec<i16>) -> (pin: Option<Vec<i16>>)
    ensures
        match pin {
            Some(pin) => is_pin(pin@) && pin@ == draws@.take(8),
            None => !(draws@.len() >= 8 && is_pin(draws@.take(8))),
        },
{
    if draws.len() < 8 {
        return None;
    }
    let mut pin: Vec<i16> = Vec::new();
    let mut i: usize = 0;
    while i < 8
        invariant
            i <= 8,
            draws@.len() >= 8,
            pin@ == draws@.take(i as int),
            forall|j: int| 0 <= j < i ==> 0 <= #[trigger] draws@[j] <= 9,
        decreases 8 - i,
    {
        let digit = draws[i];
        if digit < 0 || digit > 9 {
            assert(draws@.take(8)[i as int] == digit);
            return None;
        }
        pin.push(digit);
        assert(pin@ =~= draws@.take(i + 1));
        i = i + 1;
    }
    Some(pin)
}

/// The pin of a new game: a random pin where the form asks for one, else
/// none.
pub fn new_pin(pin: &Option<String>) -> (made: Option<Vec<i16>>)
    ensures
        made.is_some() == match pin {
            Some(value) => value@ == "false"@,
            None => false,
        },
        made.is_some() ==> is_pin(made.unwrap()@),
{
    if !wants_pin(pin) {
        return None;
    }
    // all possible values for pin
    let choices: [i16; 10] = [0, 1, 2, 3, 4, 5, 6, 7, 8, 9];
    let mut draws: Vec<i16> = Vec::new();
    let mut i: usize = 0;
    while i < 8
        invariant
            i <= 8,
            draws@.len() == i,
            choices@ == seq![0i16, 1, 2, 3, 4, 5, 6, 7, 8, 9],
            forall|j: int| 0 <= j < i ==> 0 <= #[trigger] draws@[j] <= 9,
        decreases 8 - i,
    {
        let digit = match pick(&choices) {
            Some(digit) => digit,
            None => 0,
        };
        draws.push(digit);
        i = i + 1;
    }
    assert(draws@.take(8) =~= draws@);
    pin_of_draws(&draws)
}

} // verus!
