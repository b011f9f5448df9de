//! Tests of event type validation and its error reasons.

use indigauge::{validate_event_type, validate_event_type_compile_time, ValidationError};

#[test]
fn validates_event_type() {
    assert!(validate_event_type("game.start").is_ok());
    assert!(validate_event_type("game").is_err());
    assert!(validate_event_type(".start").is_err());
    assert!(validate_event_type("game.").is_err());
    assert!(validate_event_type("game..start").is_err());
}

#[test]
fn validation_reports_distinct_reasons() {
    assert_eq!(validate_event_type("ab"), Err(ValidationError::TooShort));
    assert_eq!(validate_event_type(""), Err(ValidationError::TooShort));
    assert_eq!(validate_event_type("1.b"), Err(ValidationError::BadCharacter));
    assert_eq!(validate_event_type("ga me"), Err(ValidationError::BadCharacter));
    assert_eq!(validate_event_type("game..start"), Err(ValidationError::MultipleDots));
    assert_eq!(validate_event_type("a.b.c"), Err(ValidationError::MultipleDots));
    assert_eq!(validate_event_type("game"), Err(ValidationError::MissingDot));
    assert_eq!(validate_event_type(".start"), Err(ValidationError::DotAtEdge));
    assert_eq!(validate_event_type("game."), Err(ValidationError::DotAtEdge));
}

#[test]
fn validation_scan_order_picks_first_offense() {
    // a bad character before the second dot wins
    assert_eq!(validate_event_type("a b..c"), Err(ValidationError::BadCharacter));
    // a second dot before any bad character wins
    assert_eq!(validate_event_type("a..b c"), Err(ValidationError::MultipleDots));
    // an edge dot is only reported after a clean scan
    assert_eq!(validate_event_type(".ab c"), Err(ValidationError::BadCharacter));
}

#[test]
fn validation_messages_are_stable() {
    assert_eq!(
        ValidationError::TooShort.message(),
        "Invalid event type: too short (expected 'a.b')"
    );
    assert_eq!(
        ValidationError::MultipleDots.message(),
        "Invalid event type: multiple '.' found"
    );
}

#[test]
fn compile_time_validation_passes_valid_literals_through() {
    assert_eq!(validate_event_type_compile_time("game.start"), "game.start");
    assert_eq!(validate_event_type_compile_time("UI.Click"), "UI.Click");
}
