//! Style options of the widget set, and the small pieces of widget
//! behaviour that are plain logic: the suggestion-list keyboard
//! navigation of the address input and the size of its visible
//! window. The rendering layer turns these options into markup.

use vstd::prelude::*;

verus! {

#[derive(Clone, Copy, PartialEq, Eq, Structural)]
pub enum AddressInputStyle {
    Underline,
    Outline,
    Search,
    Rounded,
}

#[derive(Clone, Copy, PartialEq, Eq, Structural)]
pub enum TextInputStyle {
    Underline,
    Outline,
    Rounded,
}

#[derive(Clone, Copy, PartialEq, Eq, Structural)]
pub enum EmailInputStyle {
    Underline,
    Outline,
    Rounded,
}

#[derive(Clone, Copy, PartialEq, Eq, Structural)]
pub enum PasswordInputStyle {
    Underline,
    Outline,
    Rounded,
}

#[derive(Clone, Copy, PartialEq, Eq, Structural)]
pub enum ButtonStyle {
    Outline,
    Solid,
    Text,
}

#[derive(Clone, Copy, PartialEq, Eq, Structural)]
pub enum ButtonRoundness {
    Plain,
    Rounded,
    Circle,
}

#[derive(Clone, Copy, Debug, PartialEq, Eq, Structural)]
pub enum ButtonColor {
    Primary,
    Secondary,
    Error,
    Success,
    Plain,
}

#[derive(Clone, Copy, PartialEq, Eq, Structural)]
pub enum ButtonSize {
    Small,
    Medium,
    Large,
    FullSize,
}

#[derive(Clone, Copy, PartialEq, Eq, Structural)]
pub enum ButtonAnimation {
    Fill,
    Push,
    Float,
}

#[derive(Clone, Copy, PartialEq, Eq, Structural)]
pub enum FormBoxStyle {
    SimpleLogin,
}

#[derive(Clone, Copy, PartialEq, Eq, Structural)]
pub enum Padding {
    Plain,
    Small,
    Medium,
    Large,
}

#[derive(Clone, Copy, PartialEq, Eq, Structural)]
pub enum Level {
    Dp1,
    Dp2,
    Dp3,
    Dp4,
    Dp5,
    Dp6,
    Dp7,
}

#[derive(Clone, Copy, PartialEq, Eq, Structural)]
pub enum LinkStyle {
    Underline,
    Text,
    Button,
}

#[derive(Clone, Copy, PartialEq, Eq, Structural)]
pub enum LinkColor {
    Primary,
    Secondary,
    Error,
    Success,
    Plain,
}

#[derive(Clone, Copy, PartialEq, Eq, Structural)]
pub enum LinkSize {
    Small,
    Medium,
    Large,
}

#[derive(Clone, Copy, PartialEq, Eq, Structural)]
pub enum LinkAnimation {
    Underline,
    Fill,
    Plain,
}

#[derive(Clone, Copy, PartialEq, Eq, Structural)]
pub enum LinkTarget {
    Blank,
    Current,
}

#[derive(Clone, Copy, PartialEq, Eq, Structural)]
pub enum Direction {
    Row,
    Column,
    RowReverse,
    ColumnReverse,
}

#[derive(Clone, Copy, PartialEq, Eq, Structural)]
pub enum Gap {
    Plain,
    Small,
    Medium,
    Large,
}

#[derive(Clone, Copy, PartialEq, Eq, Structural)]
pub enum DisplayStrategy {
    Center,
    SpaceBetween,
    SpaceAround,
    SpaceEvenly,
    Start,
    End,
}

#[derive(Clone, Copy, PartialEq, Eq, Structural)]
pub enum PopupSize {
    Content,
    Small,
    Medium,
    Large,
    Full,
}

#[derive(Clone, Copy, PartialEq, Eq, Structural)]
pub enum PopupPosition {
    TopLeft,
    TopCenter,
    TopRight,
    BottomLeft,
    BottomCenter,
    BottomRight,
    CenterLeft,
    CenterRight,
    Center,
    Relative,
}

/// A key press the suggestion list of the address input reacts to.
#[derive(Clone, Copy, PartialEq, Eq, Structural)]
pub enum NavKey {
    ArrowDown,
    ArrowUp,
    Enter,
}

/// Where the highlighted suggestion moves on a key press: down stops
/// at the last entry, up stops at the first, and the accepting key
/// leaves it in place.
pub fn next_selection(selected: usize, len: usize, key: NavKey) -> (r: usize)
    ensures
        key is ArrowDown ==> r == (if selected + 1 < len {
            selected + 1
        } else {
            selected as int
        }),
        key is ArrowUp ==> r == (if selected > 0 {
            selected - 1
        } else {
            selected as int
        }),
        key is Enter ==> r == selected,
{
    match key {
        NavKey::ArrowDown => {
            if len > 0 && selected < len - 1 {
                selected + 1
            } else {
                selected
            }
        },
        NavKey::ArrowUp => {
            if selected > 0 {
                selected - 1
            } else {
                selected
            }
        },
        NavKey::Enter => selected,
    }
}

/// The suggestion accepted on the accepting key: the highlighted
/// entry, when the highlight is in range.
pub fn accepted_suggestion(suggestions: &Vec<String>, selected: usize) -> (r: &String)
    requires
        selected < suggestions@.len(),
    ensures
        r@ == suggestions@[selected as int]@,
{
    &suggestions[selected]
}

/// How many suggestions the list shows at once: all of them, up to
/// five.
pub fn suggestion_list_size(len: usize) -> (r: usize)
    ensures
        r == (if len < 5 {
            len as int
        } else {
            5int
        }),
{
    if len < 5 {
        len
    } else {
        5
    }
}

} // verus!
