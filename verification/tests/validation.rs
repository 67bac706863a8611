//! The field validation engine: the tri-state machine, the password
//! ladder, and the e-mail rule.

use reactive_inputs::form::Form;
use reactive_inputs::validate::{
    input_accepted, FieldValidationState, FieldValidator, PasswordValidationLevel, ValidationRule,
};

const REQUIRED_MSG: &str = "This field is required";
const EMAIL_MSG: &str = "Please enter a valid email address.";

fn invalid(msg: &str) -> FieldValidationState {
    FieldValidationState::Invalid(String::from(msg))
}

#[test]
fn required_field_value_sequence() {
    // "" -> "a" -> "" yields Pristine -> Invalid -> Valid -> Invalid.
    let mut field = FieldValidator::new(true, Vec::new());
    let verdicts: Vec<bool> = Vec::new();
    assert_eq!(field.state, FieldValidationState::Pristine);
    field.on_value_change("", &verdicts);
    assert_eq!(field.state, invalid(REQUIRED_MSG));
    field.on_value_change("a", &verdicts);
    assert_eq!(field.state, FieldValidationState::Valid);
    field.on_value_change("", &verdicts);
    assert_eq!(field.state, invalid(REQUIRED_MSG));
}

#[test]
fn blur_forces_required_message_on_untouched_field() {
    let mut field = FieldValidator::new(true, Vec::new());
    field.on_blur("");
    assert_eq!(field.state, invalid(REQUIRED_MSG));

    let mut optional = FieldValidator::new(false, Vec::new());
    optional.on_blur("");
    assert_eq!(optional.state, FieldValidationState::Pristine);
}

#[test]
fn optional_field_with_no_rules_is_always_valid_once_touched() {
    let mut field = FieldValidator::new(false, Vec::new());
    let verdicts: Vec<bool> = Vec::new();
    field.on_value_change("", &verdicts);
    assert_eq!(field.state, FieldValidationState::Valid);
    field.on_value_change("anything", &verdicts);
    assert_eq!(field.state, FieldValidationState::Valid);
}

#[test]
fn password_ladder_steps() {
    // "abc12345" has no uppercase letter and no special character, so
    // it fails every built-in level; with an uppercase letter added,
    // the weak level passes and the medium level still wants the
    // special character.
    assert!(!PasswordValidationLevel::Weak.validate("abc12345", false));
    assert!(!PasswordValidationLevel::Medium.validate("abc12345", false));
    assert!(PasswordValidationLevel::Weak.validate("Abc12345", false));
    assert!(!PasswordValidationLevel::Medium.validate("Abc12345", false));
    // Medium passes, Strong fails on length 8 < 12.
    assert!(PasswordValidationLevel::Medium.validate("Abc!2345", false));
    assert!(!PasswordValidationLevel::Strong.validate("Abc!2345", false));
    // Long enough for Strong.
    assert!(PasswordValidationLevel::Strong.validate("Abc!234567890", false));
}

#[test]
fn password_ladder_is_cumulative() {
    // Every Strong-accepted value is Medium-accepted, every
    // Medium-accepted value is Weak-accepted.
    for candidate in ["Abc!234567890", "Abc!2345", "abc12345", "xY3?aaaaaaaa"] {
        if PasswordValidationLevel::Strong.validate(candidate, false) {
            assert!(PasswordValidationLevel::Medium.validate(candidate, false));
        }
        if PasswordValidationLevel::Medium.validate(candidate, false) {
            assert!(PasswordValidationLevel::Weak.validate(candidate, false));
        }
    }
}

#[test]
fn password_character_classes() {
    assert!(PasswordValidationLevel::contains_lowercase("ABCdEF"));
    assert!(!PasswordValidationLevel::contains_lowercase("ABCDEF"));
    assert!(PasswordValidationLevel::contains_lowercase("STRA\u{df}E"));
    assert!(PasswordValidationLevel::contains_uppercase("abcDef"));
    assert!(!PasswordValidationLevel::contains_uppercase("abcdef"));
    assert!(PasswordValidationLevel::contains_number("abc1"));
    assert!(!PasswordValidationLevel::contains_number("abc"));
    assert!(PasswordValidationLevel::is_minmal_len_or_more("abcdefgh", 8));
    assert!(!PasswordValidationLevel::is_minmal_len_or_more("abcdefg", 8));
}

#[test]
fn every_special_character_is_detected() {
    for c in [
        '!', '\'', '"', '@', '#', '$', '%', '-', '_', '~', '+', '=', '?', ',', '.', '/', ':',
        ';', '`', '&', '^', '|', '*',
    ] {
        assert!(PasswordValidationLevel::is_special_character(c), "missed {c}");
        let candidate = format!("aaaa{c}");
        assert!(PasswordValidationLevel::contains_special_character(&candidate));
    }
    assert!(!PasswordValidationLevel::is_special_character('a'));
    assert!(!PasswordValidationLevel::contains_special_character("abc123XYZ"));
}

#[test]
fn custom_password_rule_uses_the_outside_verdict() {
    let custom = PasswordValidationLevel::Custom(String::from("Too guessable."));
    assert!(custom.validate("anything", true));
    assert!(!custom.validate("anything", false));
    assert_eq!(custom.display_message(), "Too guessable.");
}

#[test]
fn password_failure_messages() {
    assert!(PasswordValidationLevel::Weak
        .display_message()
        .starts_with("The password must be at least 8 characters long"));
    assert!(PasswordValidationLevel::Strong
        .display_message()
        .starts_with("The password must be at least 12 characters long"));
}

#[test]
fn email_rule_accepts_and_rejects() {
    let rules = vec![ValidationRule::EmailFormat];
    let mut field = FieldValidator::new(false, rules);
    let verdicts = vec![false];
    field.on_value_change("someone@example.com", &verdicts);
    assert_eq!(field.state, FieldValidationState::Valid);
    field.on_value_change("not-an-email", &verdicts);
    assert_eq!(field.state, invalid(EMAIL_MSG));
    field.on_value_change("user@sub.example.org", &verdicts);
    assert_eq!(field.state, FieldValidationState::Valid);
    field.on_value_change("a@b", &verdicts);
    assert_eq!(field.state, FieldValidationState::Valid);
    field.on_value_change("@nodomain", &verdicts);
    assert_eq!(field.state, invalid(EMAIL_MSG));
}

#[test]
fn first_failing_rule_in_the_chain_decides() {
    let rules = vec![
        ValidationRule::Predicate(String::from("first message")),
        ValidationRule::Predicate(String::from("second message")),
    ];
    let mut field = FieldValidator::new(false, rules);
    field.on_value_change("x", &vec![false, false]);
    assert_eq!(field.state, invalid("first message"));
    field.on_value_change("x", &vec![true, false]);
    assert_eq!(field.state, invalid("second message"));
    field.on_value_change("x", &vec![true, true]);
    assert_eq!(field.state, FieldValidationState::Valid);
}

#[test]
fn required_check_precedes_the_rule_chain() {
    let rules = vec![ValidationRule::Predicate(String::from("predicate failed"))];
    let mut field = FieldValidator::new(true, rules);
    field.on_value_change("", &vec![false]);
    assert_eq!(field.state, invalid(REQUIRED_MSG));
}

#[test]
fn input_interception_point() {
    assert!(input_accepted(None));
    assert!(input_accepted(Some(true)));
    assert!(!input_accepted(Some(false)));
}

#[test]
fn form_runs_the_transition_on_set() {
    let mut form = Form::new();
    let verdicts: Vec<bool> = Vec::new();
    let k = form.add_field(true, Vec::new(), String::new(), false, &verdicts);
    assert_eq!(*form.field_state(k), FieldValidationState::Pristine);
    form.set_value(k, String::from("a"), &verdicts);
    assert_eq!(*form.field_state(k), FieldValidationState::Valid);
    assert_eq!(form.value(k), "a");
    form.set_value(k, String::new(), &verdicts);
    assert_eq!(*form.field_state(k), invalid(REQUIRED_MSG));
}

#[test]
fn form_fire_immediately_runs_once_at_registration() {
    let mut form = Form::new();
    let verdicts: Vec<bool> = Vec::new();
    let k = form.add_field(true, Vec::new(), String::new(), true, &verdicts);
    // The callback ran exactly once, synchronously, against the
    // initial (empty) value.
    assert_eq!(*form.field_state(k), invalid(REQUIRED_MSG));
}

#[test]
fn cancelled_field_is_not_notified() {
    let mut form = Form::new();
    let verdicts: Vec<bool> = Vec::new();
    let k = form.add_field(true, Vec::new(), String::from("ok"), false, &verdicts);
    form.cancel_field(k);
    form.set_value(k, String::new(), &verdicts);
    // The value changed, but the cancelled watcher never ran.
    assert_eq!(form.value(k), "");
    assert_eq!(*form.field_state(k), FieldValidationState::Pristine);
}

#[test]
fn form_blur_forces_required_invalid() {
    let mut form = Form::new();
    let verdicts: Vec<bool> = Vec::new();
    let k = form.add_field(true, Vec::new(), String::new(), false, &verdicts);
    form.blur_field(k);
    assert_eq!(*form.field_state(k), invalid(REQUIRED_MSG));
}

#[test]
fn independent_fields_do_not_disturb_each_other() {
    let mut form = Form::new();
    let verdicts: Vec<bool> = Vec::new();
    let a = form.add_field(true, Vec::new(), String::new(), false, &verdicts);
    let b = form.add_field(false, Vec::new(), String::from("stay"), false, &verdicts);
    form.set_value(a, String::from("touched"), &verdicts);
    assert_eq!(*form.field_state(a), FieldValidationState::Valid);
    assert_eq!(*form.field_state(b), FieldValidationState::Pristine);
    assert_eq!(form.value(b), "stay");
}

#[test]
fn email_input_value_validates() {
    assert!(reactive_inputs::validate::EmailInput::new("user@example.com").validate());
    assert!(!reactive_inputs::validate::EmailInput::new("user example.com").validate());
    assert!(!reactive_inputs::validate::EmailInput::new("").validate());
}
