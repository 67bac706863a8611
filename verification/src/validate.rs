//! The per-field validation engine: a tri-state machine per input
//! field, driven by value-change and blur events.
//!
//! Rules whose verdict only an outside predicate can give (a custom
//! password rule, a caller-supplied change predicate) are evaluated by
//! the caller; the engine takes the verdicts as arguments, one per
//! rule, and the transition is verified for every combination of them.

use vstd::prelude::*;
use vstd::string::StrSliceExecFns;
use vstd::string::StringExecFns;

verus! {

/// Whether the character has the Unicode `Lowercase` property, as
/// `char::is_lowercase` reports it.
pub uninterp spec fn lowercase_char(c: char) -> bool;

/// Whether the character has the Unicode `Uppercase` property, as
/// `char::is_uppercase` reports it.
pub uninterp spec fn uppercase_char(c: char) -> bool;

/// Whether the character is numeric in the Unicode sense, as
/// `char::is_numeric` reports it.
pub uninterp spec fn numeric_char(c: char) -> bool;

/// Whether the string passes the HTML5 e-mail shape check (local part,
/// `@`, domain), as the `validator` crate reports it.
pub uninterp spec fn email_accepted(s: Seq<char>) -> bool;

/// Relies on `char::is_lowercase`: the Unicode `Lowercase` property, a
/// function of the character alone.
#[verifier::external_body]
fn char_is_lowercase(c: char) -> (r: bool)
    ensures
        r == lowercase_char(c),
{
    c.is_lowercase()
}

/// Relies on `char::is_uppercase`: the Unicode `Uppercase` property, a
/// function of the character alone.
#[verifier::external_body]
fn char_is_uppercase(c: char) -> (r: bool)
    ensures
        r == uppercase_char(c),
{
    c.is_uppercase()
}

/// Relies on `char::is_numeric`: the Unicode numeric property, a
/// function of the character alone.
#[verifier::external_body]
fn char_is_numeric(c: char) -> (r: bool)
    ensures
        r == numeric_char(c),
{
    c.is_numeric()
}

/// Relies on `validator::ValidateEmail::validate_email` for `&str`:
/// the HTML5 e-mail shape check, a function of the characters alone;
/// its source rejects the empty string outright.
#[verifier::external_body]
fn email_format_check(s: &str) -> (r: bool)
    ensures
        r == email_accepted(s@),
        s@.len() == 0 ==> !r,
{
    validator::ValidateEmail::validate_email(&s)
}

/// The fixed special-character set of the password ladder.
pub open spec fn special_char(c: char) -> bool {
    ||| c == '!'
    ||| c == '\''
    ||| c == '"'
    ||| c == '@'
    ||| c == '#'
    ||| c == '$'
    ||| c == '%'
    ||| c == '-'
    ||| c == '_'
    ||| c == '~'
    ||| c == '+'
    ||| c == '='
    ||| c == '?'
    ||| c == ','
    ||| c == '.'
    ||| c == '/'
    ||| c == ':'
    ||| c == ';'
    ||| c == '`'
    ||| c == '&'
    ||| c == '^'
    ||| c == '|'
    ||| c == '*'
}

pub open spec fn has_lowercase(v: Seq<char>) -> bool {
    exists|i: int| 0 <= i < v.len() && lowercase_char(#[trigger] v[i])
}

pub open spec fn has_uppercase(v: Seq<char>) -> bool {
    exists|i: int| 0 <= i < v.len() && uppercase_char(#[trigger] v[i])
}

pub open spec fn has_numeric(v: Seq<char>) -> bool {
    exists|i: int| 0 <= i < v.len() && numeric_char(#[trigger] v[i])
}

pub open spec fn has_special(v: Seq<char>) -> bool {
    exists|i: int| 0 <= i < v.len() && special_char(#[trigger] v[i])
}

/// The weak ladder step: minimum length, one lowercase and one
/// uppercase letter.
pub open spec fn weak_ok(v: Seq<char>, min_len: int) -> bool {
    v.len() >= min_len && has_lowercase(v) && has_uppercase(v)
}

/// The medium ladder step: everything the weak step asks, plus one
/// numeric and one special character.
pub open spec fn medium_ok(v: Seq<char>, min_len: int) -> bool {
    weak_ok(v, min_len) && has_numeric(v) && has_special(v)
}

/// The level of validation for a password field. The ladder is
/// cumulative: each level re-uses the previous level's checks.
#[derive(Clone, Debug, PartialEq, Eq)]
pub enum PasswordValidationLevel {
    /// At least 8 characters, one lowercase and one uppercase letter.
    Weak,
    /// `Weak`, plus one number and one special character.
    Medium,
    /// `Medium`, with the minimum length raised to 12.
    Strong,
    /// An outside predicate is authoritative; holds the failure
    /// message. The caller evaluates the predicate and passes the
    /// verdict in.
    Custom(String),
}

/// What a password level accepts; `custom_verdict` is the outside
/// predicate's answer, consulted only by `Custom`.
pub open spec fn password_ok(
    level: PasswordValidationLevel,
    v: Seq<char>,
    custom_verdict: bool,
) -> bool {
    match level {
        PasswordValidationLevel::Weak => weak_ok(v, 8),
        PasswordValidationLevel::Medium => medium_ok(v, 8),
        PasswordValidationLevel::Strong => medium_ok(v, 12),
        PasswordValidationLevel::Custom(_) => custom_verdict,
    }
}

/// The failure message a password level reports.
pub open spec fn password_message(level: PasswordValidationLevel) -> Seq<char> {
    match level {
        PasswordValidationLevel::Weak => "The password must be at least 8 characters long, and contain at least one lowercase letter, one uppercase letter."@,
        PasswordValidationLevel::Medium => "The password must be at least 8 characters long, and contain at least one lowercase letter, one uppercase letter, one number and one special character [ !\"'@#$%^&-_=+/?.,:;`&^|* ]."@,
        PasswordValidationLevel::Strong => "The password must be at least 12 characters long, and contain at least one lowercase letter, one uppercase letter, one number and one special character [ !\"'@#$%^&-_=+/?.,:;`&^|* ]."@,
        PasswordValidationLevel::Custom(m) => m@,
    }
}

impl PasswordValidationLevel {
    /// Evaluates the level against a value. `custom_verdict` is the
    /// caller-evaluated answer of a `Custom` predicate; the built-in
    /// levels ignore it.
    pub fn validate(&self, val: &str, custom_verdict: bool) -> (r: bool)
        ensures
            r == password_ok(*self, val@, custom_verdict),
    {
        match self {
            PasswordValidationLevel::Weak => Self::password_is_week(val, 8),
            PasswordValidationLevel::Medium => Self::password_is_medium(val, 8),
            PasswordValidationLevel::Strong => Self::password_is_strong(val, 12),
            PasswordValidationLevel::Custom(_) => custom_verdict,
        }
    }

    /// The message shown when the level rejects a value.
    pub fn display_message(&self) -> (m: String)
        ensures
            m@ == password_message(*self),
    {
        match self {
            PasswordValidationLevel::Weak => String::from_str(
                "The password must be at least 8 characters long, and contain at least one lowercase letter, one uppercase letter.",
            ),
            PasswordValidationLevel::Medium => String::from_str(
                "The password must be at least 8 characters long, and contain at least one lowercase letter, one uppercase letter, one number and one special character [ !\"'@#$%^&-_=+/?.,:;`&^|* ].",
            ),
            PasswordValidationLevel::Strong => String::from_str(
                "The password must be at least 12 characters long, and contain at least one lowercase letter, one uppercase letter, one number and one special character [ !\"'@#$%^&-_=+/?.,:;`&^|* ].",
            ),
            PasswordValidationLevel::Custom(message) => message.clone(),
        }
    }

    pub fn password_is_week(val: &str, len: usize) -> (r: bool)
        ensures
            r == weak_ok(val@, len as int),
    {
        if !Self::is_minmal_len_or_more(val, len) {
            return false;
        } else if !Self::contains_lowercase(val) {
            return false;
        } else if !Self::contains_uppercase(val) {
            return false;
        }
        true
    }

    pub fn password_is_medium(val: &str, len: usize) -> (r: bool)
        ensures
            r == medium_ok(val@, len as int),
    {
        if !Self::password_is_week(val, len) {
            return false;
        } else if !Self::contains_number(val) {
            return false;
        } else if !Self::contains_special_character(val) {
            return false;
        }
        true
    }

    pub fn password_is_strong(val: &str, len: usize) -> (r: bool)
        ensures
            r == medium_ok(val@, len as int),
    {
        if !Self::password_is_medium(val, len) {
            return false;
        }
        true
    }

    pub fn is_minmal_len_or_more(val: &str, len: usize) -> (r: bool)
        ensures
            r == (val@.len() >= len),
    {
        if val.unicode_len() < len {
            return false;
        }
        true
    }

    pub fn contains_lowercase(val: &str) -> (r: bool)
        ensures
            r == has_lowercase(val@),
    {
        let n = val.unicode_len();
        let mut i: usize = 0;
        while i < n
            invariant
                n == val@.len(),
                i <= n,
                forall|j: int| 0 <= j < i ==> !lowercase_char(#[trigger] val@[j]),
            decreases n - i,
        {
            if char_is_lowercase(val.get_char(i)) {
                return true;
            }
            i += 1;
        }
        false
    }

    pub fn contains_uppercase(val: &str) -> (r: bool)
        ensures
            r == has_uppercase(val@),
    {
        let n = val.unicode_len();
        let mut i: usize = 0;
        while i < n
            invariant
                n == val@.len(),
                i <= n,
                forall|j: int| 0 <= j < i ==> !uppercase_char(#[trigger] val@[j]),
            decreases n - i,
        {
            if char_is_uppercase(val.get_char(i)) {
                return true;
            }
            i += 1;
        }
        false
    }

    pub fn contains_number(val: &str) -> (r: bool)
        ensures
            r == has_numeric(val@),
    {
        let n = val.unicode_len();
        let mut i: usize = 0;
        while i < n
            invariant
                n == val@.len(),
                i <= n,
                forall|j: int| 0 <= j < i ==> !numeric_char(#[trigger] val@[j]),
            decreases n - i,
        {
            if char_is_numeric(val.get_char(i)) {
                return true;
            }
            i += 1;
        }
        false
    }

    pub fn contains_special_character(val: &str) -> (r: bool)
        ensures
            r == has_special(val@),
    {
        let n = val.unicode_len();
        let mut i: usize = 0;
        while i < n
            invariant
                n == val@.len(),
                i <= n,
                forall|j: int| 0 <= j < i ==> !special_char(#[trigger] val@[j]),
            decreases n - i,
        {
            if Self::is_special_character(val.get_char(i)) {
                return true;
            }
            i += 1;
        }
        false
    }

    pub fn is_special_character(c: char) -> (r: bool)
        ensures
            r == special_char(c),
    {
        c == '!' || c == '\'' || c == '"' || c == '@' || c == '#' || c == '$' || c == '%' || c
            == '-' || c == '_' || c == '~' || c == '+' || c == '=' || c == '?' || c == ',' || c
            == '.' || c == '/' || c == ':' || c == ';' || c == '`' || c == '&' || c == '^' || c
            == '|' || c == '*'
    }
}

/// The value of an e-mail input; its view is the character sequence.
#[derive(Clone, Debug, PartialEq, Eq)]
pub struct EmailInput {
    email: String,
}

impl View for EmailInput {
    type V = Seq<char>;

    closed spec fn view(&self) -> Seq<char> {
        self.email@
    }
}

impl EmailInput {
    pub fn new(email: &str) -> (e: Self)
        ensures
            e@ == email@,
    {
        EmailInput { email: String::from_str(email) }
    }

    /// Whether the value has the shape of an e-mail address.
    pub fn validate(&self) -> (r: bool)
        ensures
            r == email_accepted(self@),
    {
        email_format_check(self.email.as_str())
    }
}

/// One rule of a field's ordered rule chain.
#[derive(Clone, Debug, PartialEq, Eq)]
pub enum ValidationRule {
    /// A caller-supplied change predicate is authoritative; holds the
    /// failure message. The caller evaluates it and passes the verdict
    /// in.
    Predicate(String),
    /// One step of the password ladder.
    Password(PasswordValidationLevel),
    /// The value must have the shape of an e-mail address.
    EmailFormat,
}

impl ValidationRule {
    /// Whether the rule accepts the value; `verdict` is the outside
    /// answer for a `Predicate` or `Custom` rule, ignored otherwise.
    pub open spec fn spec_passes(&self, v: Seq<char>, verdict: bool) -> bool {
        match self {
            ValidationRule::Predicate(_) => verdict,
            ValidationRule::Password(level) => password_ok(*level, v, verdict),
            ValidationRule::EmailFormat => email_accepted(v),
        }
    }

    /// The failure message the rule reports.
    pub open spec fn spec_message(&self) -> Seq<char> {
        match self {
            ValidationRule::Predicate(m) => m@,
            ValidationRule::Password(level) => password_message(*level),
            ValidationRule::EmailFormat => "Please enter a valid email address."@,
        }
    }

    pub fn passes(&self, val: &str, verdict: bool) -> (r: bool)
        ensures
            r == self.spec_passes(val@, verdict),
    {
        match self {
            ValidationRule::Predicate(_) => verdict,
            ValidationRule::Password(level) => level.validate(val, verdict),
            ValidationRule::EmailFormat => email_format_check(val),
        }
    }

    pub fn message(&self) -> (m: String)
        ensures
            m@ == self.spec_message(),
    {
        match self {
            ValidationRule::Predicate(m) => m.clone(),
            ValidationRule::Password(level) => level.display_message(),
            ValidationRule::EmailFormat => String::from_str("Please enter a valid email address."),
        }
    }
}

/// One state of a field's validation machine. Only the validation
/// engine moves it; the rendering layer just reads it.
#[derive(Clone, Debug, PartialEq, Eq)]
pub enum FieldValidationState {
    Pristine,
    Valid,
    Invalid(String),
}

/// Abstract value of a [`FieldValidationState`].
pub enum FieldStateModel {
    Pristine,
    Valid,
    Invalid(Seq<char>),
}

impl View for FieldValidationState {
    type V = FieldStateModel;

    open spec fn view(&self) -> FieldStateModel {
        match self {
            FieldValidationState::Pristine => FieldStateModel::Pristine,
            FieldValidationState::Valid => FieldStateModel::Valid,
            FieldValidationState::Invalid(m) => FieldStateModel::Invalid(m@),
        }
    }
}

/// The message of the required-field failure.
pub open spec fn required_message() -> Seq<char> {
    "This field is required"@
}

/// The first rule of the chain that rejects the value, if any;
/// `verdicts` pairs with `rules` index for index.
pub open spec fn first_failing_from(
    rules: Seq<ValidationRule>,
    v: Seq<char>,
    verdicts: Seq<bool>,
    i: int,
) -> Option<int>
    decreases rules.len() - i,
    when 0 <= i <= rules.len()
{
    if i >= rules.len() {
        None
    } else if !rules[i].spec_passes(v, verdicts[i]) {
        Some(i)
    } else {
        first_failing_from(rules, v, verdicts, i + 1)
    }
}

pub open spec fn first_failing(
    rules: Seq<ValidationRule>,
    v: Seq<char>,
    verdicts: Seq<bool>,
) -> Option<int> {
    first_failing_from(rules, v, verdicts, 0)
}

/// The state a value change moves a field to: an empty required field
/// is invalid with the fixed message, otherwise the first failing rule
/// decides, otherwise the field is valid.
pub open spec fn spec_transition(
    required: bool,
    rules: Seq<ValidationRule>,
    v: Seq<char>,
    verdicts: Seq<bool>,
) -> FieldStateModel {
    if required && v.len() == 0 {
        FieldStateModel::Invalid(required_message())
    } else {
        match first_failing(rules, v, verdicts) {
            Some(i) => FieldStateModel::Invalid(rules[i].spec_message()),
            None => FieldStateModel::Valid,
        }
    }
}

/// The validation machine of one field: the `required` flag, the
/// ordered rule chain, and the current state, `Pristine` at creation.
#[derive(Clone, Debug, PartialEq, Eq)]
pub struct FieldValidator {
    pub required: bool,
    pub rules: Vec<ValidationRule>,
    pub state: FieldValidationState,
}

impl FieldValidator {
    pub fn new(required: bool, rules: Vec<ValidationRule>) -> (f: Self)
        ensures
            f.required == required,
            f.rules@ == rules@,
            f.state@ is Pristine,
    {
        FieldValidator { required, rules, state: FieldValidationState::Pristine }
    }

    /// The transition a change of the field's observable value drives,
    /// via the watch on that cell. `verdicts[i]` is the outside answer
    /// for rule `i` where that rule needs one.
    pub fn on_value_change(&mut self, value: &str, verdicts: &Vec<bool>)
        requires
            verdicts@.len() == old(self).rules@.len(),
        ensures
            final(self).required == old(self).required,
            final(self).rules@ == old(self).rules@,
            final(self).state@ == spec_transition(
                old(self).required,
                old(self).rules@,
                value@,
                verdicts@,
            ),
    {
        if self.required && value.unicode_len() == 0 {
            self.state = FieldValidationState::Invalid(
                String::from_str("This field is required"),
            );
            return;
        }
        let n = self.rules.len();
        let mut i: usize = 0;
        while i < n
            invariant
                self.required == old(self).required,
                self.rules@ == old(self).rules@,
                self.state == old(self).state,
                !(old(self).required && value@.len() == 0),
                n == self.rules@.len(),
                verdicts@.len() == n,
                i <= n,
                first_failing(self.rules@, value@, verdicts@) == first_failing_from(
                    self.rules@,
                    value@,
                    verdicts@,
                    i as int,
                ),
            decreases n - i,
        {
            if !self.rules[i].passes(value, verdicts[i]) {
                let message = self.rules[i].message();
                self.state = FieldValidationState::Invalid(message);
                return;
            }
            i += 1;
        }
        self.state = FieldValidationState::Valid;
    }

    /// The one transition not driven by a value watch: on a blur-like
    /// event, an empty required field is forced invalid even if its
    /// value never changed since creation.
    pub fn on_blur(&mut self, value: &str)
        ensures
            final(self).required == old(self).required,
            final(self).rules@ == old(self).rules@,
            old(self).required && value@.len() == 0 ==> final(self).state@
                == FieldStateModel::Invalid(required_message()),
            !(old(self).required && value@.len() == 0) ==> *final(self) == *old(self),
    {
        if self.required && value.unicode_len() == 0 {
            self.state = FieldValidationState::Invalid(
                String::from_str("This field is required"),
            );
        }
    }
}

/// The earlier interception point of a text field: an optional input
/// predicate may reject a keystroke outright, before the value is
/// accepted into the field's observable at all. `verdict` is the
/// caller-evaluated answer of that predicate, absent when the field
/// has none; a missing predicate accepts everything.
pub fn input_accepted(verdict: Option<bool>) -> (r: bool)
    ensures
        r == (verdict is None || verdict == Some(true)),
{
    match verdict {
        Option::None => true,
        Option::Some(ok) => ok,
    }
}

/// An empty rule chain on a field that is not required accepts every
/// value: once touched, the field is always valid.
pub proof fn lemma_no_rules_always_valid(v: Seq<char>, verdicts: Seq<bool>)
    requires
        verdicts.len() == 0,
    ensures
        spec_transition(false, Seq::empty(), v, verdicts) == FieldStateModel::Valid,
{
}

/// Passing a stricter ladder step implies passing the looser one: a
/// medium-accepted value is weak-accepted.
pub proof fn lemma_medium_implies_weak(v: Seq<char>, min_len: int)
    requires
        medium_ok(v, min_len),
    ensures
        weak_ok(v, min_len),
{
}

/// A strong-accepted value is medium-accepted: the strong step only
/// raises the minimum length.
pub proof fn lemma_strong_implies_medium(v: Seq<char>)
    requires
        password_ok(PasswordValidationLevel::Strong, v, false),
    ensures
        password_ok(PasswordValidationLevel::Medium, v, false),
{
}

} // verus!
