//! The widget helpers: suggestion-list navigation and the field
//! description builders.

use reactive_inputs::field::{InputTextState, InputTextType};
use reactive_inputs::widgets::{
    accepted_suggestion, next_selection, suggestion_list_size, NavKey,
};

#[test]
fn arrow_down_stops_at_the_last_entry() {
    assert_eq!(next_selection(0, 3, NavKey::ArrowDown), 1);
    assert_eq!(next_selection(1, 3, NavKey::ArrowDown), 2);
    assert_eq!(next_selection(2, 3, NavKey::ArrowDown), 2);
    assert_eq!(next_selection(0, 0, NavKey::ArrowDown), 0);
}

#[test]
fn arrow_up_stops_at_the_first_entry() {
    assert_eq!(next_selection(2, 3, NavKey::ArrowUp), 1);
    assert_eq!(next_selection(1, 3, NavKey::ArrowUp), 0);
    assert_eq!(next_selection(0, 3, NavKey::ArrowUp), 0);
}

#[test]
fn enter_keeps_the_selection_and_picks_the_entry() {
    assert_eq!(next_selection(1, 3, NavKey::Enter), 1);
    let suggestions = vec![
        String::from("first street"),
        String::from("second street"),
        String::from("third street"),
    ];
    assert_eq!(accepted_suggestion(&suggestions, 1), "second street");
}

#[test]
fn suggestion_window_shows_at_most_five() {
    assert_eq!(suggestion_list_size(0), 0);
    assert_eq!(suggestion_list_size(3), 3);
    assert_eq!(suggestion_list_size(5), 5);
    assert_eq!(suggestion_list_size(12), 5);
}

#[test]
fn input_text_state_builders() {
    let state = InputTextState::new("First name")
        .with_input_type(InputTextType::Outline)
        .with_required(true)
        .with_disabled(false)
        .with_value("Ada");
    assert_eq!(state.label, "First name");
    assert_eq!(state.value, "Ada");
    assert!(state.required);
    assert!(!state.disabled);
    assert_eq!(state.input_type, InputTextType::Outline);

    let relabeled = state.with_label("Family name");
    assert_eq!(relabeled.label, "Family name");
    assert_eq!(relabeled.value, "Ada");
}

#[test]
fn input_text_state_defaults() {
    let state = InputTextState::default();
    assert_eq!(state.label, "");
    assert_eq!(state.value, "");
    assert!(!state.required);
    assert!(!state.disabled);
    assert_eq!(state.input_type, InputTextType::Underline);
}
