//! The top-level automation session: pacing state and the translation of
//! every high-level command into an ordered backend action plan.

use vstd::prelude::*;
use vstd::string::StrSliceExecFns;
use crate::actions::{
    actions_view, button_of, opt_view, parse_button, parse_toggle, toggle_of, ActionModel, Button,
    InputAction, ToggleState,
};
use crate::buffer::{in_bounds, pixel_offset, PixelBuffer};
use crate::color::color_hex;
use crate::errors::{InvalidInput, RobotError};
use crate::keyboard::{
    opt_mods_view, plan_key_tap, plan_key_toggle, plan_typed_chars, tap_plan, toggle_plan,
};
use crate::motion::{lerp, plan_smooth_move, spec_steps};

verus! {

/// The plan of a plain mouse move: one absolute move, then the mouse pause.
pub open spec fn move_plan(x: int, y: int, delay: int) -> Seq<ActionModel> {
    seq![ActionModel::MoveTo(x, y), ActionModel::Sleep(delay)]
}

/// The plan of a drag: button down where the pointer stands, a move to the
/// target, button up, then the mouse pause.
pub open spec fn drag_plan(x: int, y: int, b: Button, delay: int) -> Seq<ActionModel> {
    seq![
        ActionModel::MouseDown(b),
        ActionModel::MoveTo(x, y),
        ActionModel::MouseUp(b),
        ActionModel::Sleep(delay),
    ]
}

/// The plan of a click: one click, for a double click a second one after a
/// fixed ten-millisecond pause, then the mouse pause.
pub open spec fn click_plan(b: Button, double: bool, delay: int) -> Seq<ActionModel> {
    if double {
        seq![
            ActionModel::Click(b),
            ActionModel::Sleep(10),
            ActionModel::Click(b),
            ActionModel::Sleep(delay),
        ]
    } else {
        seq![ActionModel::Click(b), ActionModel::Sleep(delay)]
    }
}

/// The plan of a mouse toggle: the button pressed or released per the
/// requested state, then the mouse pause.
pub open spec fn mouse_toggle_plan(st: ToggleState, b: Button, delay: int) -> Seq<ActionModel> {
    seq![
        match st {
            ToggleState::Down => ActionModel::MouseDown(b),
            ToggleState::Up => ActionModel::MouseUp(b),
        },
        ActionModel::Sleep(delay),
    ]
}

/// The plan of a scroll: the two independent deltas, then the mouse pause.
pub open spec fn scroll_plan(x: int, y: int, delay: int) -> Seq<ActionModel> {
    seq![ActionModel::ScrollX(x), ActionModel::ScrollY(y), ActionModel::Sleep(delay)]
}

/// The smooth-move speed actually used: the caller's, or three.
pub open spec fn speed_or_default(speed: Option<u64>) -> int {
    match speed {
        Option::Some(s) => s as int,
        Option::None => 3,
    }
}

/// Whether a double click was requested; an omitted flag means a single
/// click.
pub open spec fn double_requested(double: Option<bool>) -> bool {
    match double {
        Option::Some(b) => b,
        Option::None => false,
    }
}

/// One automation session. It owns the configurable pacing state; the
/// unverified shell owns the OS backends and executes the returned plans,
/// sleeping wherever a plan says so.
pub struct RobotJS {
    /// Milliseconds of pause after each mouse command or smooth-move step.
    pub mouse_delay: u64,
    /// Milliseconds of pause after each keyboard command.
    pub keyboard_delay: u64,
}

impl RobotJS {
    /// A fresh session: both pacing delays start at ten milliseconds.
    pub fn new() -> (r: Self)
        ensures
            r.mouse_delay == 10,
            r.keyboard_delay == 10,
    {
        RobotJS { mouse_delay: 10, keyboard_delay: 10 }
    }

    /// Screen metrics are refreshed by the capture backend on every call;
    /// nothing is cached here, so this is a successful no-op.
    pub fn update_screen_metrics(&self) -> (r: i32)
        ensures
            r == 1,
    {
        1
    }

    /// Plans a plain move of the pointer to `(x, y)`.
    pub fn move_mouse(&self, x: i32, y: i32) -> (plan: Vec<InputAction>)
        ensures
            actions_view(plan@) == move_plan(x as int, y as int, self.mouse_delay as int),
    {
        let mut out: Vec<InputAction> = Vec::new();
        out.push(InputAction::MoveTo(x, y));
        out.push(InputAction::Sleep(self.mouse_delay));
        proof {
            assert(actions_view(out@) =~= move_plan(x as int, y as int, self.mouse_delay as int));
        }
        out
    }

    /// Plans a drag to `(x, y)` with the named button; unrecognized button
    /// strings fall back to the left button.
    pub fn drag_mouse(&self, x: i32, y: i32, button: Option<String>) -> (plan: Vec<InputAction>)
        ensures
            actions_view(plan@) == drag_plan(
                x as int,
                y as int,
                button_of(opt_view(button)),
                self.mouse_delay as int,
            ),
    {
        let b = parse_button(&button);
        let mut out: Vec<InputAction> = Vec::new();
        out.push(InputAction::MouseDown(b));
        out.push(InputAction::MoveTo(x, y));
        out.push(InputAction::MouseUp(b));
        out.push(InputAction::Sleep(self.mouse_delay));
        proof {
            assert(actions_view(out@) =~= drag_plan(
                x as int,
                y as int,
                button_of(opt_view(button)),
                self.mouse_delay as int,
            ));
        }
        out
    }

    /// Plans a smooth move from the current pointer position
    /// `(start_x, start_y)` to `(x, y)`: `floor(distance / speed)`
    /// interpolated moves, each followed by the mouse pause, then the
    /// unconditional snap to the target. A zero step count leaves only the
    /// snap; no division by the step count is attempted then.
    pub fn move_mouse_smooth(
        &self,
        x: i32,
        y: i32,
        start_x: i32,
        start_y: i32,
        speed: Option<u64>,
    ) -> (plan: Vec<InputAction>)
        requires
            speed matches Option::Some(s) ==> s >= 1,
        ensures
            ({
                let steps = spec_steps(
                    start_x as int,
                    start_y as int,
                    x as int,
                    y as int,
                    speed_or_default(speed),
                );
                &&& plan@.len() == 2 * steps + 1
                &&& forall|k: int|
                    0 <= k < plan@.len() ==> (#[trigger] plan@[k])@ == (if k == 2 * steps {
                        ActionModel::MoveTo(x as int, y as int)
                    } else if k % 2 == 0 {
                        ActionModel::MoveTo(
                            lerp(start_x as int, x as int, k / 2 + 1, steps),
                            lerp(start_y as int, y as int, k / 2 + 1, steps),
                        )
                    } else {
                        ActionModel::Sleep(self.mouse_delay as int)
                    })
            }),
    {
        let sp: u64 = match speed {
            Option::Some(s) => s,
            Option::None => 3,
        };
        plan_smooth_move(start_x, start_y, x, y, sp, self.mouse_delay)
    }

    /// Plans a click of the named button, doubled on request with a fixed
    /// ten-millisecond pause between the two clicks.
    pub fn mouse_click(&self, button: Option<String>, double: Option<bool>) -> (plan: Vec<
        InputAction,
    >)
        ensures
            actions_view(plan@) == click_plan(
                button_of(opt_view(button)),
                double_requested(double),
                self.mouse_delay as int,
            ),
    {
        let b = parse_button(&button);
        let is_double = match double {
            Option::Some(d) => d,
            Option::None => false,
        };
        let mut out: Vec<InputAction> = Vec::new();
        out.push(InputAction::Click(b));
        if is_double {
            out.push(InputAction::Sleep(10));
            out.push(InputAction::Click(b));
        }
        out.push(InputAction::Sleep(self.mouse_delay));
        proof {
            assert(actions_view(out@) =~= click_plan(
                button_of(opt_view(button)),
                double_requested(double),
                self.mouse_delay as int,
            ));
        }
        out
    }

    /// Plans a press or release of the named button. A state string outside
    /// `"down"` / `"up"` is an invalid argument, and no action is planned.
    pub fn mouse_toggle(&self, down: Option<String>, button: Option<String>) -> (r: Result<
        Vec<InputAction>,
        RobotError,
    >)
        ensures
            match r {
                Result::Ok(plan) => toggle_of(opt_view(down)) matches Option::Some(st)
                    && actions_view(plan@) == mouse_toggle_plan(
                    st,
                    button_of(opt_view(button)),
                    self.mouse_delay as int,
                ),
                Result::Err(e) => {
                    &&& toggle_of(opt_view(down)) is None
                    &&& e == RobotError::InvalidArgument(InvalidInput::MouseToggleState)
                },
            },
    {
        let b = parse_button(&button);
        let st = match parse_toggle(&down) {
            Option::Some(st) => st,
            Option::None => {
                return Result::Err(RobotError::InvalidArgument(InvalidInput::MouseToggleState));
            },
        };
        let mut out: Vec<InputAction> = Vec::new();
        match st {
            ToggleState::Down => out.push(InputAction::MouseDown(b)),
            ToggleState::Up => out.push(InputAction::MouseUp(b)),
        }
        out.push(InputAction::Sleep(self.mouse_delay));
        proof {
            assert(actions_view(out@) =~= mouse_toggle_plan(
                st,
                button_of(opt_view(button)),
                self.mouse_delay as int,
            ));
        }
        Result::Ok(out)
    }

    /// Sets the mouse pacing delay, in whole milliseconds.
    pub fn set_mouse_delay(&mut self, delay: u64) -> (r: i32)
        ensures
            final(self).mouse_delay == delay,
            final(self).keyboard_delay == old(self).keyboard_delay,
            r == 1,
    {
        self.mouse_delay = delay;
        1
    }

    /// Sets the keyboard pacing delay, in whole milliseconds.
    pub fn set_keyboard_delay(&mut self, delay: u64) -> (r: i32)
        ensures
            final(self).keyboard_delay == delay,
            final(self).mouse_delay == old(self).mouse_delay,
            r == 1,
    {
        self.keyboard_delay = delay;
        1
    }

    /// Plans a scroll: two independent deltas, then the mouse pause.
    pub fn scroll_mouse(&self, x: i32, y: i32) -> (plan: Vec<InputAction>)
        ensures
            actions_view(plan@) == scroll_plan(x as int, y as int, self.mouse_delay as int),
    {
        let mut out: Vec<InputAction> = Vec::new();
        out.push(InputAction::ScrollX(x));
        out.push(InputAction::ScrollY(y));
        out.push(InputAction::Sleep(self.mouse_delay));
        proof {
            assert(actions_view(out@) =~= scroll_plan(x as int, y as int, self.mouse_delay as int));
        }
        out
    }

    /// Plans a tap of `key` under the given modifiers: modifiers down in
    /// order, one click of the key's first character, modifiers up in
    /// reverse order, then the keyboard pause.
    pub fn key_tap(&self, key: String, modifiers: Option<Vec<String>>) -> (plan: Vec<InputAction>)
        ensures
            actions_view(plan@) == tap_plan(key@, opt_mods_view(modifiers), self.keyboard_delay),
    {
        plan_key_tap(&key, &modifiers, self.keyboard_delay)
    }

    /// Plans a toggle of `key` under the given modifiers. A state string
    /// outside `"down"` / `"up"` is an invalid argument, and no action is
    /// planned.
    pub fn key_toggle(
        &self,
        key: String,
        down: Option<String>,
        modifiers: Option<Vec<String>>,
    ) -> (r: Result<Vec<InputAction>, RobotError>)
        ensures
            match r {
                Result::Ok(plan) => toggle_of(opt_view(down)) matches Option::Some(st)
                    && actions_view(plan@) == toggle_plan(
                    key@,
                    st,
                    opt_mods_view(modifiers),
                    self.keyboard_delay,
                ),
                Result::Err(e) => {
                    &&& toggle_of(opt_view(down)) is None
                    &&& e == RobotError::InvalidArgument(InvalidInput::KeyToggleState)
                },
            },
    {
        let st = match parse_toggle(&down) {
            Option::Some(st) => st,
            Option::None => {
                return Result::Err(RobotError::InvalidArgument(InvalidInput::KeyToggleState));
            },
        };
        Result::Ok(plan_key_toggle(&key, st, &modifiers, self.keyboard_delay))
    }

    /// Plans a tap of the first character of `value` as text input; an
    /// empty `value` is an invalid argument.
    pub fn unicode_tap(&self, value: String) -> (r: Result<Vec<InputAction>, RobotError>)
        ensures
            match r {
                Result::Ok(plan) => value@.len() > 0 && actions_view(plan@) == seq![
                    ActionModel::SendChar(value@[0]),
                    ActionModel::Sleep(self.keyboard_delay as int),
                ],
                Result::Err(e) => {
                    &&& value@.len() == 0
                    &&& e == RobotError::InvalidArgument(InvalidInput::UnicodeInput)
                },
            },
    {
        if value.as_str().unicode_len() == 0 {
            return Result::Err(RobotError::InvalidArgument(InvalidInput::UnicodeInput));
        }
        let c = value.as_str().get_char(0);
        let mut out: Vec<InputAction> = Vec::new();
        out.push(InputAction::SendChar(c));
        out.push(InputAction::Sleep(self.keyboard_delay));
        proof {
            assert(actions_view(out@) =~= seq![
                ActionModel::SendChar(value@[0]),
                ActionModel::Sleep(self.keyboard_delay as int),
            ]);
        }
        Result::Ok(out)
    }

    /// Plans typing of the whole string as one backend text send, then one
    /// keyboard pause.
    pub fn type_string(&self, string: String) -> (plan: Vec<InputAction>)
        ensures
            actions_view(plan@) == seq![
                ActionModel::SendSequence(string@),
                ActionModel::Sleep(self.keyboard_delay as int),
            ],
    {
        let ghost text = string@;
        let mut out: Vec<InputAction> = Vec::new();
        out.push(InputAction::SendSequence(string));
        out.push(InputAction::Sleep(self.keyboard_delay));
        proof {
            assert(actions_view(out@) =~= seq![
                ActionModel::SendSequence(text),
                ActionModel::Sleep(self.keyboard_delay as int),
            ]);
        }
        out
    }

    /// Plans delayed typing at `cpm` characters per minute: one backend
    /// send per character of the text, each send followed by the same
    /// pause of `60000 / cpm` milliseconds, the last one included.
    pub fn type_string_delayed(&self, string: String, cpm: i32) -> (plan: Vec<InputAction>)
        requires
            cpm >= 1,
        ensures
            plan@.len() == 2 * string@.len(),
            forall|k: int|
                0 <= k < plan@.len() ==> (#[trigger] plan@[k])@ == (if k % 2 == 0 {
                    ActionModel::SendChar(string@[k / 2])
                } else {
                    ActionModel::Sleep(60000int / cpm as int)
                }),
    {
        let delay: u64 = (60000 / cpm) as u64;
        plan_typed_chars(&string, delay)
    }

    /// Samples the pixel at `(x, y)` of a caller-supplied buffer: the same
    /// bounds check and offset arithmetic as a fresh capture, but as a pure
    /// function over already captured data.
    pub fn get_color(&self, img: &PixelBuffer, x: i32, y: i32) -> (r: Result<String, RobotError>)
        requires
            img.wf(),
        ensures
            match r {
                Result::Ok(s) => {
                    &&& in_bounds(img.width as int, img.height as int, x as int, y as int)
                    &&& s@ == color_hex(
                        img.data@[pixel_offset(img.width as int, x as int, y as int)],
                        img.data@[pixel_offset(img.width as int, x as int, y as int) + 1],
                        img.data@[pixel_offset(img.width as int, x as int, y as int) + 2],
                    )
                },
                Result::Err(e) => {
                    &&& e == RobotError::OutOfBounds
                    &&& !in_bounds(img.width as int, img.height as int, x as int, y as int)
                },
            },
    {
        img.color_at(x, y)
    }

    /// The capture backend's display name override; none is kept here.
    pub fn get_x_display_name(&self) -> (r: String)
        ensures
            r@ == Seq::<char>::empty(),
    {
        proof {
            reveal_strlit("");
        }
        let s = "".to_owned();
        proof {
            assert(s@ =~= Seq::<char>::empty());
        }
        s
    }

    /// Accepts and discards a display name override, reporting success.
    pub fn set_x_display_name(&self, _name: String) -> (r: i32)
        ensures
            r == 1,
    {
        1
    }
}

} // verus!
