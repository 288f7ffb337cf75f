use dashmap::DashMap;
use pentagame::auth::{AuthCache, User};
use pentagame::graph::models::{parse_figure, Move};
use pentagame::ws::errors::{
    decimal, frame_error, message_format_error, unauthorized_error, unimplemented_error, ErrorMessage,
    WebsocketError,
};

fn data(pairs: &[(&str, &str)]) -> DashMap<String, String> {
    let map = DashMap::new();
    for (key, value) in pairs {
        map.insert(key.to_string(), value.to_string());
    }
    map
}

fn reason(made: Result<Move, WebsocketError>) -> String {
    match made {
        Err(WebsocketError::ValidationError(reason)) => reason,
        other => panic!("expected a validation error, got {:?}", other),
    }
}

#[test]
fn decimal_texts() {
    assert_eq!(decimal(0), "0");
    assert_eq!(decimal(9), "9");
    assert_eq!(decimal(10), "10");
    assert_eq!(decimal(8080), "8080");
    assert_eq!(decimal(65535), "65535");
    assert_eq!(decimal(u64::MAX), "18446744073709551615");
}

#[test]
fn error_texts_for_every_variant() {
    assert_eq!(
        ErrorMessage::text(WebsocketError::InternalError("disk".to_string())),
        "{\"code\":0,\"message\":\"Internal Error: disk\"}"
    );
    assert_eq!(
        ErrorMessage::text(WebsocketError::MessageFormatError()),
        "{\"code\":1,\"message\":\"MessageError: Seems like your message couldn't be loaded from JSON\"}"
    );
    assert_eq!(
        ErrorMessage::text(WebsocketError::ValidationError("Missing field move".to_string())),
        "{\"code\":2,\"message\":\"ValidationError: Missing field move\"}"
    );
    assert_eq!(
        ErrorMessage::text(WebsocketError::AuthorizationError()),
        "{\"code\":3,\"message\":\"MessageError: Seems like you weren't allowed to perform this action\"}"
    );
    assert_eq!(
        ErrorMessage::text(WebsocketError::UnimplementedError()),
        "{\"code\":65535,\"message\":\"Unimplemented: The action you tried to use is either implemented/ supported at them moment\"}"
    );
}

#[test]
fn error_texts_are_valid_json() {
    let text = ErrorMessage::text(WebsocketError::InternalError("a \"quoted\"\nline".to_string()));
    let value: serde_json::Value = serde_json::from_str(&text).unwrap();
    assert_eq!(value["code"], 0);
    assert_eq!(value["message"], "Internal Error: a \"quoted\"\nline");
}

#[test]
fn error_message_as_json() {
    let message = ErrorMessage { code: 400, message: "tab\there" };
    assert_eq!(message.json(), "{\"code\":400,\"message\":\"tab\\there\"}");
}

#[test]
fn fixed_replies() {
    assert_eq!(message_format_error(), ErrorMessage::text(WebsocketError::MessageFormatError()));
    assert_eq!(unimplemented_error(), ErrorMessage::text(WebsocketError::UnimplementedError()));
    assert_eq!(unauthorized_error(), ErrorMessage::text(WebsocketError::AuthorizationError()));
}

#[test]
fn error_titles_and_status() {
    let internal = WebsocketError::InternalError("x".to_string());
    assert_eq!(internal.to_string(), "Internal Error");
    assert_eq!(internal.status_code(), 500);
    let validation = WebsocketError::ValidationError("x".to_string());
    assert_eq!(validation.to_string(), "Failed to load message due to invalid content");
    assert_eq!(validation.status_code(), 400);
    assert_eq!(
        WebsocketError::MessageFormatError().to_string(),
        "Failed to load message from JSON"
    );
    assert_eq!(WebsocketError::MessageFormatError().status_code(), 500);
    assert_eq!(WebsocketError::UnimplementedError().to_string(), "Unimplemented feature");
    assert_eq!(WebsocketError::UnimplementedError().status_code(), 500);
    assert_eq!(
        WebsocketError::AuthorizationError().to_string(),
        "You don't have the required permissions to perform this action"
    );
    assert_eq!(WebsocketError::AuthorizationError().status_code(), 500);
}

#[test]
fn figures_are_read_as_std_reads_them() {
    for text in ["0", "1", "35", "255", "+7", "007", "0000000000000000000255", "+0"] {
        assert_eq!(parse_figure(text), text.parse::<u8>().ok(), "{}", text);
        assert!(parse_figure(text).is_some());
    }
    for text in [
        "", "+", "-1", "-0", "256", "999", "1000000000000000000000", "12a", "a12", " 1", "1 ",
        "++1", "1+", "1_0", "٣", "1.0",
    ] {
        assert_eq!(parse_figure(text), text.parse::<u8>().ok(), "{}", text);
        assert!(parse_figure(text).is_none());
    }
    assert_eq!(parse_figure("35"), Some(35));
    assert_eq!(parse_figure("+255"), Some(255));
}

#[test]
fn a_move_from_its_fields() {
    let made = Move::from_action(data(&[("figure", "3"), ("move", "[5,0,0,6,1,5]")])).unwrap();
    assert_eq!(made.0, ([5, 0, 0, 6, 1, 5], 3));
    let spaced =
        Move::from_action(data(&[("figure", "+12"), ("move", " [ -1, -1, -1, 0, 0, 32767 ] ")]));
    assert_eq!(spaced.unwrap().0, ([-1, -1, -1, 0, 0, 32767], 12));
}

#[test]
fn a_move_with_a_missing_or_bad_field() {
    assert_eq!(reason(Move::from_action(data(&[]))), "Missing field figure");
    assert_eq!(
        reason(Move::from_action(data(&[("move", "[5,0,0,6,1,5]")]))),
        "Missing field figure"
    );
    assert_eq!(
        reason(Move::from_action(data(&[("figure", "300"), ("move", "[5,0,0,6,1,5]")]))),
        "Value for field figure doesn't fit into u8"
    );
    assert_eq!(reason(Move::from_action(data(&[("figure", "3")]))), "Missing field move");
    for bad in ["[5,0,0,6,1]", "[5,0,0,6,1,5,9]", "[5,0,0,6,1,40000]", "5,0,0,6,1,5", "{}", ""] {
        assert_eq!(
            reason(Move::from_action(data(&[("figure", "3"), ("move", bad)]))),
            "Value for field move doesn't fit into [i16; 6]"
        );
    }
    // the figure is looked at first
    assert_eq!(
        reason(Move::from_action(data(&[("figure", "x"), ("move", "bad")]))),
        "Value for field figure doesn't fit into u8"
    );
}

#[test]
fn a_move_from_parts() {
    let made = Move::from_fields(Some("9".to_string()), Some(Some([1, 2, 3, 4, 5, 6]))).unwrap();
    assert_eq!(made.0, ([1, 2, 3, 4, 5, 6], 9));
    assert_eq!(reason(Move::from_fields(None, None)), "Missing field figure");
    assert_eq!(reason(Move::from_fields(Some("9".to_string()), None)), "Missing field move");
    assert_eq!(
        reason(Move::from_fields(Some("9".to_string()), Some(None))),
        "Value for field move doesn't fit into [i16; 6]"
    );
}

#[test]
fn users_get_distinct_random_ids() {
    let name = "anna".to_string();
    let first = User::with_name(&7, &name);
    let second = User::with_name(&7, &name);
    assert_eq!(first.game, 7);
    assert_eq!(first.name, "anna");
    assert_ne!(first.id, second.id);
    // version 4, variant 1
    assert_eq!((first.id >> 76) & 0xf, 4);
}

#[test]
fn a_new_cache_is_empty() {
    let cache = AuthCache::build();
    assert!(cache.0.is_empty());
}

#[test]
fn an_error_is_framed_around_its_literal() {
    assert_eq!(frame_error(3, Some("\"no\"".to_string())), "{\"code\":3,\"message\":\"no\"}");
    assert_eq!(frame_error(65535, Some("\"\"".to_string())), "{\"code\":65535,\"message\":\"\"}");
    assert_eq!(frame_error(0, None), "{\"code\":0,\"message\":null}");
}

#[test]
fn a_text_that_is_no_json_is_a_message_format_error() {
    let error = serde_json::from_str::<u8>("not json").unwrap_err();
    assert!(matches!(WebsocketError::from(error), WebsocketError::MessageFormatError()));
}
