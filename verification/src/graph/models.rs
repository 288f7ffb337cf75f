use vstd::prelude::*;
use vstd::string::*;
use dashmap::DashMap;
use crate::ws::errors::{ErrorView, WebsocketError};
use crate::ws::payload::{text_entries, texts_get};
use crate::ws::wire::{json_move, parse_json_move};

verus! {

/// A figure id. Player pieces, black stoppers and gray stoppers share one
/// numbering.
pub type Figure = u8;

/// A move record: source position, destination position, and a figure.
pub type MOVE = ([i16; 6], Figure);

/// A board position: `[anchor, step, toward]`.
pub type FIELD = [i16; 3];

/// A figure's place on the board.
pub type LOCATION = ([i16; 3], Figure);

/// The figure value that stands for "no figure".
pub const NO_FIGURE: Figure = 255;

/// A position as a triple of mathematical integers.
pub type Pos = (int, int, int);

/// The triple that a stored position denotes.
pub open spec fn pos(field: FIELD) -> Pos {
    (field[0] as int, field[1] as int, field[2] as int)
}

/// Whether two stored positions are the same position.
pub fn same_field(a: &FIELD, b: &FIELD) -> (same: bool)
    ensures
        same == (pos(*a) == pos(*b)),
{
    a[0] == b[0] && a[1] == b[1] && a[2] == b[2]
}

/// A move as it travels between a session and the coordinator.
#[derive(Debug)]
pub struct Move(pub MOVE);

/// A move with all the steps that a figure takes.
#[derive(Debug)]
pub struct EMove {
    pub figure: String,
    pub player: u128,
    pub source: FIELD,
    pub steps: Vec<FIELD>,
}

/// An ASCII digit.
pub open spec fn is_digit(c: char) -> bool {
    '0' <= c <= '9'
}

/// Every character of `s` is a digit.
pub open spec fn all_digits(s: Seq<char>) -> bool {
    forall|i: int| 0 <= i < s.len() ==> is_digit(#[trigger] s[i])
}

/// The value of a digit; 0 for any other character.
pub open spec fn digit_value(c: char) -> nat {
    if is_digit(c) {
        (c as nat - '0' as nat) as nat
    } else {
        0
    }
}

/// The number that the digits `s` write in base ten.
pub open spec fn number_of(s: Seq<char>) -> nat
    decreases s.len(),
{
    if s.len() == 0 {
        0
    } else {
        number_of(s.drop_last()) * 10 + digit_value(s.last())
    }
}

/// The figure that a text names: an optional `+`, then one or more digits
/// that write a number up to 255.
pub open spec fn figure_of_text(s: Seq<char>) -> Option<Figure> {
    let digits = if s.len() > 0 && s[0] == '+' {
        s.drop_first()
    } else {
        s
    };
    if digits.len() > 0 && all_digits(digits) && number_of(digits) <= 255 {
        Some(number_of(digits) as u8)
    } else {
        None
    }
}

/// The move that the fields of a request give, or why they give none. The
/// field `figure` is looked at first; `numbers` is what the field `move`
/// holds as JSON.
pub open spec fn move_of_fields(
    figure: Option<Seq<char>>,
    numbers: Option<Option<Seq<i16>>>,
) -> Result<(Seq<i16>, Figure), ErrorView> {
    match figure {
        None => Err(ErrorView::Validation("Missing field figure"@)),
        Some(text) => match figure_of_text(text) {
            None => Err(ErrorView::Validation("Value for field figure doesn't fit into u8"@)),
            Some(id) => match numbers {
                None => Err(ErrorView::Validation("Missing field move"@)),
                Some(None) => Err(
                    ErrorView::Validation("Value for field move doesn't fit into [i16; 6]"@),
                ),
                Some(Some(parsed)) => Ok((parsed, id)),
            },
        },
    }
}

/// What a data map holds under `key`.
pub open spec fn field_of(data: Map<Seq<char>, Seq<char>>, key: Seq<char>) -> Option<Seq<char>> {
    if data.contains_key(key) {
        Some(data[key])
    } else {
        None
    }
}

/// The move that the data of a request gives, or why it gives none.
pub open spec fn move_of_data(data: Map<Seq<char>, Seq<char>>) -> Result<
    (Seq<i16>, Figure),
    ErrorView,
> {
    move_of_fields(
        field_of(data, "figure"@),
        match field_of(data, "move"@) {
            Some(text) => Some(json_move(text)),
            None => None,
        },
    )
}

/// The number of a longer row of digits is no smaller than that of its
/// beginning.
pub proof fn lemma_number_grows(s: Seq<char>, upto: int)
    requires
        0 <= upto <= s.len(),
    ensures
        number_of(s.take(upto)) <= number_of(s),
    decreases s.len() - upto,
{
    if upto == s.len() {
        assert(s.take(upto) =~= s);
    } else {
        lemma_number_grows(s, upto + 1);
        assert(s.take(upto + 1).drop_last() =~= s.take(upto));
        let front = number_of(s.take(upto));
        assert(number_of(s.take(upto + 1)) >= front * 10);
    }
}

/// The figure that `text` names.
pub fn parse_figure(text: &str) -> (figure: Option<Figure>)
    ensures
        figure == figure_of_text(text@),
{
    let length = text.unicode_len();
    if length == 0 {
        return None;
    }
    let start: usize = if text.get_char(0) == '+' {
        1
    } else {
        0
    };
    let ghost digits = if start == 1 {
        text@.drop_first()
    } else {
        text@
    };
    if start == length {
        return None;
    }
    assert(digits =~= text@.subrange(start as int, length as int));
    let mut value: u16 = 0;
    let mut i: usize = start;
    while i < length
        invariant
            start <= i <= length,
            length == text@.len(),
            start <= 1,
            digits == text@.subrange(start as int, length as int),
            digits == if text@.len() > 0 && text@[0] == '+' {
                text@.drop_first()
            } else {
                text@
            },
            all_digits(digits.take(i - start)),
            value == number_of(digits.take(i - start)),
            value <= 255,
        decreases length - i,
    {
        let c = text.get_char(i);
        proof {
            assert(digits[i - start] == c);
            assert(digits.take(i - start + 1).drop_last() =~= digits.take(i - start));
            assert(digits.take(i - start + 1).last() == c);
        }
        if !(c >= '0' && c <= '9') {
            assert(!is_digit(digits[i - start]));
            return None;
        }
        let d: u16 = (c as u32 - '0' as u32) as u16;
        value = value * 10 + d;
        if value > 255 {
            proof {
                lemma_number_grows(digits, i - start + 1);
            }
            return None;
        }
        i = i + 1;
    }
    assert(digits.take(length - start) =~= digits);
    Some(value as u8)
}

impl Move {
    /// The numbers and the figure of this move.
    pub open spec fn view(&self) -> (Seq<i16>, Figure) {
        (self.0.0@, self.0.1)
    }

    /// The move that the fields of a request give: `figure` is the text of
    /// the field of that name, `numbers` what the field `move` was read as.
    pub fn from_fields(figure: Option<String>, numbers: Option<Option<[i16; 6]>>) -> (made: Result<
        Move,
        WebsocketError,
    >)
        ensures
            match made {
                Ok(action) => Ok(action@),
                Err(error) => Err(error@),
            } == move_of_fields(
                match figure {
                    Some(text) => Some(text@),
                    None => None,
                },
                match numbers {
                    Some(Some(parsed)) => Some(Some(parsed@)),
                    Some(None) => Some(None),
                    None => None,
                },
            ),
    {
        let id: Figure = match figure {
            Some(raw_id) => match parse_figure(raw_id.as_str()) {
                Some(id) => id,
                None => {
                    return Err(
                        WebsocketError::ValidationError(
                            String::from_str("Value for field figure doesn't fit into u8"),
                        ),
                    );
                },
            },
            None => {
                return Err(WebsocketError::ValidationError(String::from_str("Missing field figure")));
            },
        };
        let action: [i16; 6] = match numbers {
            Some(Some(parsed_move)) => parsed_move,
            Some(None) => {
                return Err(
                    WebsocketError::ValidationError(
                        String::from_str("Value for field move doesn't fit into [i16; 6]"),
                    ),
                );
            },
            None => {
                return Err(WebsocketError::ValidationError(String::from_str("Missing field move")));
            },
        };
        Ok(Move((action, id)))
    }

    /// The move that the data of a request gives.
    pub fn from_action(data: DashMap<String, String>) -> (made: Result<Move, WebsocketError>)
        ensures
            match made {
                Ok(action) => Ok(action@),
                Err(error) => Err(error@),
            } == move_of_data(text_entries(data)),
    {
        let figure = texts_get(&data, "figure");
        let numbers = match texts_get(&data, "move") {
            Some(raw_move) => match parse_json_move(raw_move.as_str()) {
                Ok(parsed_move) => Some(Some(parsed_move)),
                Err(_) => Some(None),
            },
            None => None,
        };
        Move::from_fields(figure, numbers)
    }
}

} // verus!
