//! Low-level input events, their mathematical model, and the parsing of
//! button and toggle-state identifiers.

use vstd::prelude::*;
use vstd::string::StrSliceExecFns;

verus! {

/// A mouse button. Unrecognized button strings fall back to `Left`; this
/// permissive default is a documented contract, not an error path.
#[derive(Clone, Copy, Debug, PartialEq, Eq, Structural)]
pub enum Button {
    Left,
    Right,
    Middle,
}

/// A requested key or button state, parsed strictly from `"down"` / `"up"`;
/// anything else is an invalid argument.
#[derive(Clone, Copy, Debug, PartialEq, Eq, Structural)]
pub enum ToggleState {
    Down,
    Up,
}

/// One command for the input backend, or a pacing pause. A plan is an ordered
/// sequence of these; the unverified shell executes them in order.
#[derive(Debug, PartialEq, Eq)]
pub enum InputAction {
    /// Move the pointer to an absolute position.
    MoveTo(i32, i32),
    MouseDown(Button),
    MouseUp(Button),
    /// One press-and-release of a button.
    Click(Button),
    ScrollX(i32),
    ScrollY(i32),
    KeyDown(char),
    KeyUp(char),
    /// One press-and-release of a key.
    KeyClick(char),
    /// Send a single character as text input.
    SendChar(char),
    /// Send a whole string as one text-input call.
    SendSequence(String),
    /// Pause for the given number of milliseconds.
    Sleep(u64),
}

/// The model of one action, over unbounded integers and character sequences.
pub enum ActionModel {
    MoveTo(int, int),
    MouseDown(Button),
    MouseUp(Button),
    Click(Button),
    ScrollX(int),
    ScrollY(int),
    KeyDown(char),
    KeyUp(char),
    KeyClick(char),
    SendChar(char),
    SendSequence(Seq<char>),
    Sleep(int),
}

impl View for InputAction {
    type V = ActionModel;

    open spec fn view(&self) -> ActionModel {
        match self {
            InputAction::MoveTo(x, y) => ActionModel::MoveTo(*x as int, *y as int),
            InputAction::MouseDown(b) => ActionModel::MouseDown(*b),
            InputAction::MouseUp(b) => ActionModel::MouseUp(*b),
            InputAction::Click(b) => ActionModel::Click(*b),
            InputAction::ScrollX(d) => ActionModel::ScrollX(*d as int),
            InputAction::ScrollY(d) => ActionModel::ScrollY(*d as int),
            InputAction::KeyDown(c) => ActionModel::KeyDown(*c),
            InputAction::KeyUp(c) => ActionModel::KeyUp(*c),
            InputAction::KeyClick(c) => ActionModel::KeyClick(*c),
            InputAction::SendChar(c) => ActionModel::SendChar(*c),
            InputAction::SendSequence(s) => ActionModel::SendSequence(s@),
            InputAction::Sleep(ms) => ActionModel::Sleep(*ms as int),
        }
    }
}

/// The model of a whole plan.
pub open spec fn actions_view(s: Seq<InputAction>) -> Seq<ActionModel> {
    s.map_values(|a: InputAction| a@)
}

/// The view of an optional identifier string.
pub open spec fn opt_view(s: Option<String>) -> Option<Seq<char>> {
    match s {
        Option::Some(t) => Option::Some(t@),
        Option::None => Option::None,
    }
}

/// The button named by an optional identifier string; everything but
/// `"right"` and `"middle"` means `Left`.
pub open spec fn button_of(s: Option<Seq<char>>) -> Button {
    match s {
        Option::Some(t) => {
            if t == "right"@ {
                Button::Right
            } else if t == "middle"@ {
                Button::Middle
            } else {
                Button::Left
            }
        },
        Option::None => Button::Left,
    }
}

/// The toggle state named by an optional identifier string; only `"down"`
/// and `"up"` name one.
pub open spec fn toggle_of(s: Option<Seq<char>>) -> Option<ToggleState> {
    match s {
        Option::Some(t) => {
            if t == "down"@ {
                Option::Some(ToggleState::Down)
            } else if t == "up"@ {
                Option::Some(ToggleState::Up)
            } else {
                Option::None
            }
        },
        Option::None => Option::None,
    }
}

/// The first character of a key identifier, `'\0'` when it is empty. Only
/// this character of an identifier is ever dispatched to the backend.
pub open spec fn first_char(s: Seq<char>) -> char {
    if s.len() == 0 {
        '\0'
    } else {
        s[0]
    }
}

/// Whether a string's characters equal those of a literal.
fn string_is(s: &String, lit: &str) -> (r: bool)
    ensures
        r == (s@ == lit@),
{
    let other = lit.to_owned();
    *s == other
}

/// Parses an optional button identifier, with the permissive `Left` default.
pub fn parse_button(s: &Option<String>) -> (b: Button)
    ensures
        b == button_of(opt_view(*s)),
{
    match s {
        Option::Some(t) => {
            if string_is(t, "right") {
                Button::Right
            } else if string_is(t, "middle") {
                Button::Middle
            } else {
                Button::Left
            }
        },
        Option::None => Button::Left,
    }
}

/// Parses an optional toggle-state identifier; `None` marks an invalid
/// argument.
pub fn parse_toggle(s: &Option<String>) -> (t: Option<ToggleState>)
    ensures
        t == toggle_of(opt_view(*s)),
{
    match s {
        Option::Some(t) => {
            if string_is(t, "down") {
                Option::Some(ToggleState::Down)
            } else if string_is(t, "up") {
                Option::Some(ToggleState::Up)
            } else {
                Option::None
            }
        },
        Option::None => Option::None,
    }
}

/// The first character of a key identifier, `'\0'` when it is empty.
pub fn first_char_of(s: &String) -> (c: char)
    ensures
        c == first_char(s@),
{
    if s.as_str().unicode_len() == 0 {
        '\0'
    } else {
        s.as_str().get_char(0)
    }
}

/// The pointer position after a plan runs, starting from `start`: the
/// position set by the last `MoveTo`, or `start` when there is none.
pub open spec fn pointer_after(plan: Seq<ActionModel>, start: (int, int)) -> (int, int)
    decreases plan.len(),
{
    if plan.len() == 0 {
        start
    } else {
        match plan.last() {
            ActionModel::MoveTo(x, y) => (x, y),
            _ => pointer_after(plan.drop_last(), start),
        }
    }
}

/// How many backend pointer moves a plan performs.
pub open spec fn move_count(plan: Seq<ActionModel>) -> nat
    decreases plan.len(),
{
    if plan.len() == 0 {
        0
    } else {
        move_count(plan.drop_last()) + (match plan.last() {
            ActionModel::MoveTo(x, y) => 1nat,
            _ => 0nat,
        })
    }
}

/// How many single-character text sends a plan performs.
pub open spec fn send_char_count(plan: Seq<ActionModel>) -> nat
    decreases plan.len(),
{
    if plan.len() == 0 {
        0
    } else {
        send_char_count(plan.drop_last()) + (match plan.last() {
            ActionModel::SendChar(c) => 1nat,
            _ => 0nat,
        })
    }
}

/// How a plan index splits into a pair position and a slot inside the pair.
pub proof fn lemma_div2_facts(k: int)
    requires
        0 <= k,
    ensures
        k == 2 * (k / 2) + k % 2,
        0 <= k % 2 < 2,
{
    vstd::arithmetic::div_mod::lemma_fundamental_div_mod(k, 2);
    vstd::arithmetic::div_mod::lemma_mod_division_less_than_divisor(k, 2);
}

/// Replays a plan's effect on the pointer position: the executable twin of
/// [`pointer_after`], for running plans against a simulated backend.
pub fn apply_actions(plan: &Vec<InputAction>, start_x: i32, start_y: i32) -> (pos: (i32, i32))
    ensures
        (pos.0 as int, pos.1 as int) == pointer_after(
            actions_view(plan@),
            (start_x as int, start_y as int),
        ),
{
    let mut x = start_x;
    let mut y = start_y;
    let ghost start = (start_x as int, start_y as int);
    let mut i: usize = 0;
    while i < plan.len()
        invariant
            i <= plan.len(),
            (x as int, y as int) == pointer_after(actions_view(plan@.take(i as int)), start),
        decreases plan.len() - i,
    {
        match &plan[i] {
            InputAction::MoveTo(nx, ny) => {
                x = *nx;
                y = *ny;
            },
            _ => {},
        }
        proof {
            let pre = actions_view(plan@.take(i as int));
            let post = actions_view(plan@.take(i + 1));
            assert(post =~= pre.push(plan@[i as int]@));
            assert(post.drop_last() =~= pre);
        }
        i = i + 1;
    }
    proof {
        assert(plan@.take(plan@.len() as int) =~= plan@);
    }
    (x, y)
}

} // verus!
