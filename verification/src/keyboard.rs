//! Press/release ordering for key combos and per-character typing plans.
//!
//! A key identifier (base key or modifier) is reduced to its first character
//! before dispatch; the rest of a multi-character identifier is silently
//! discarded, a documented contract of this engine.

use vstd::prelude::*;
use vstd::string::StrSliceExecFns;
use crate::actions::{
    actions_view, first_char, first_char_of, ActionModel, InputAction, ToggleState,
};

verus! {

/// The views of a list of key identifiers.
pub open spec fn idents_view(mods: Seq<String>) -> Seq<Seq<char>> {
    mods.map_values(|m: String| m@)
}

/// The views of an optional modifier list; an omitted list means no
/// modifiers.
pub open spec fn opt_mods_view(mods: Option<Vec<String>>) -> Seq<Seq<char>> {
    match mods {
        Option::Some(v) => idents_view(v@),
        Option::None => Seq::empty(),
    }
}

/// Press every modifier, in the given order.
pub open spec fn press_modifiers(mods: Seq<Seq<char>>) -> Seq<ActionModel> {
    Seq::new(mods.len(), |i: int| ActionModel::KeyDown(first_char(mods[i])))
}

/// Release every modifier, in reverse order.
pub open spec fn release_modifiers(mods: Seq<Seq<char>>) -> Seq<ActionModel> {
    Seq::new(mods.len(), |i: int| ActionModel::KeyUp(first_char(mods[mods.len() - 1 - i])))
}

/// Tap mode: modifiers down in order, one click of the base key, modifiers
/// up in reverse order, then the keyboard pacing pause.
pub open spec fn tap_plan(key: Seq<char>, mods: Seq<Seq<char>>, delay: u64) -> Seq<ActionModel> {
    press_modifiers(mods) + seq![ActionModel::KeyClick(first_char(key))] + release_modifiers(mods)
        + seq![ActionModel::Sleep(delay as int)]
}

/// The base key's own action in toggle mode: down or up, per the caller's
/// request, never auto-clicked.
pub open spec fn base_toggle_action(key: Seq<char>, st: ToggleState) -> ActionModel {
    match st {
        ToggleState::Down => ActionModel::KeyDown(first_char(key)),
        ToggleState::Up => ActionModel::KeyUp(first_char(key)),
    }
}

/// Toggle mode: the same modifier bracketing as a tap, but the base key is
/// only pressed or only released.
pub open spec fn toggle_plan(key: Seq<char>, st: ToggleState, mods: Seq<Seq<char>>, delay: u64)
    -> Seq<ActionModel> {
    press_modifiers(mods) + seq![base_toggle_action(key, st)] + release_modifiers(mods)
        + seq![ActionModel::Sleep(delay as int)]
}

/// Viewing a plan commutes with appending one action.
pub proof fn lemma_actions_view_push(v: Seq<InputAction>, a: InputAction)
    ensures
        actions_view(v.push(a)) == actions_view(v).push(a@),
{
    assert(actions_view(v.push(a)) =~= actions_view(v).push(a@));
}

/// Appends one `KeyDown` per modifier, in order.
fn push_modifier_presses(out: &mut Vec<InputAction>, mods: &Vec<String>)
    ensures
        actions_view(final(out)@) == actions_view(old(out)@) + press_modifiers(idents_view(mods@)),
{
    let ghost base = actions_view(old(out)@);
    let ghost full = press_modifiers(idents_view(mods@));
    let mut i: usize = 0;
    while i < mods.len()
        invariant
            i <= mods.len(),
            full == press_modifiers(idents_view(mods@)),
            actions_view(out@) == base + full.take(i as int),
        decreases mods.len() - i,
    {
        let c = first_char_of(&mods[i]);
        out.push(InputAction::KeyDown(c));
        proof {
            assert(actions_view(out@) =~= (base + full.take(i as int)).push(
                InputAction::KeyDown(c)@,
            ));
            assert(base + full.take(i + 1) =~= (base + full.take(i as int)).push(
                full[i as int],
            ));
        }
        i = i + 1;
    }
    proof {
        assert(full.take(mods@.len() as int) =~= full);
    }
}

/// Appends one `KeyUp` per modifier, in reverse order.
fn push_modifier_releases(out: &mut Vec<InputAction>, mods: &Vec<String>)
    ensures
        actions_view(final(out)@) == actions_view(old(out)@) + release_modifiers(
            idents_view(mods@),
        ),
{
    let ghost base = actions_view(old(out)@);
    let ghost full = release_modifiers(idents_view(mods@));
    let n = mods.len();
    let mut j: usize = n;
    while j > 0
        invariant
            j <= n,
            n == mods@.len(),
            full == release_modifiers(idents_view(mods@)),
            actions_view(out@) == base + full.take(n - j),
        decreases j,
    {
        j = j - 1;
        let c = first_char_of(&mods[j]);
        out.push(InputAction::KeyUp(c));
        proof {
            assert(actions_view(out@) =~= (base + full.take(n - j - 1)).push(
                InputAction::KeyUp(c)@,
            ));
            assert(full[n - j - 1] == ActionModel::KeyUp(c));
            assert(base + full.take(n - j) =~= (base + full.take(n - j - 1)).push(
                full[n - j - 1],
            ));
        }
    }
    proof {
        assert(full.take(n as int) =~= full);
    }
}

/// Plans a tap of `key` under the given modifiers.
pub fn plan_key_tap(key: &String, modifiers: &Option<Vec<String>>, delay: u64) -> (plan: Vec<
    InputAction,
>)
    ensures
        actions_view(plan@) == tap_plan(key@, opt_mods_view(*modifiers), delay),
{
    let ghost mv = opt_mods_view(*modifiers);
    let mut out: Vec<InputAction> = Vec::new();
    proof {
        assert(actions_view(out@) =~= Seq::<ActionModel>::empty());
    }
    if let Option::Some(mods) = modifiers {
        push_modifier_presses(&mut out, mods);
    }
    proof {
        assert(actions_view(out@) =~= press_modifiers(mv));
    }
    let c = first_char_of(key);
    let ghost s1 = out@;
    out.push(InputAction::KeyClick(c));
    proof {
        lemma_actions_view_push(s1, InputAction::KeyClick(c));
    }
    if let Option::Some(mods) = modifiers {
        push_modifier_releases(&mut out, mods);
    }
    proof {
        assert(actions_view(out@) =~= press_modifiers(mv) + seq![
            ActionModel::KeyClick(first_char(key@)),
        ] + release_modifiers(mv));
    }
    let ghost s2 = out@;
    out.push(InputAction::Sleep(delay));
    proof {
        lemma_actions_view_push(s2, InputAction::Sleep(delay));
        assert(actions_view(out@) =~= tap_plan(key@, mv, delay));
    }
    out
}

/// Plans a toggle of `key` to `st` under the given modifiers.
pub fn plan_key_toggle(
    key: &String,
    st: ToggleState,
    modifiers: &Option<Vec<String>>,
    delay: u64,
) -> (plan: Vec<InputAction>)
    ensures
        actions_view(plan@) == toggle_plan(key@, st, opt_mods_view(*modifiers), delay),
{
    let ghost mv = opt_mods_view(*modifiers);
    let mut out: Vec<InputAction> = Vec::new();
    proof {
        assert(actions_view(out@) =~= Seq::<ActionModel>::empty());
    }
    if let Option::Some(mods) = modifiers {
        push_modifier_presses(&mut out, mods);
    }
    proof {
        assert(actions_view(out@) =~= press_modifiers(mv));
    }
    let c = first_char_of(key);
    let ghost s1 = out@;
    let base = match st {
        ToggleState::Down => InputAction::KeyDown(c),
        ToggleState::Up => InputAction::KeyUp(c),
    };
    out.push(base);
    proof {
        lemma_actions_view_push(s1, base);
        assert(base@ == base_toggle_action(key@, st));
    }
    if let Option::Some(mods) = modifiers {
        push_modifier_releases(&mut out, mods);
    }
    proof {
        assert(actions_view(out@) =~= press_modifiers(mv) + seq![base_toggle_action(key@, st)]
            + release_modifiers(mv));
    }
    let ghost s2 = out@;
    out.push(InputAction::Sleep(delay));
    proof {
        lemma_actions_view_push(s2, InputAction::Sleep(delay));
        assert(actions_view(out@) =~= toggle_plan(key@, st, mv, delay));
    }
    out
}

/// Plans delayed typing: every character of the text sent on its own, the
/// same pause after each send, the last one included.
pub fn plan_typed_chars(text: &String, delay: u64) -> (plan: Vec<InputAction>)
    ensures
        plan@.len() == 2 * text@.len(),
        forall|k: int|
            0 <= k < plan@.len() ==> (#[trigger] plan@[k])@ == (if k % 2 == 0 {
                ActionModel::SendChar(text@[k / 2])
            } else {
                ActionModel::Sleep(delay as int)
            }),
{
    let n = text.as_str().unicode_len();
    let mut out: Vec<InputAction> = Vec::new();
    let mut i: usize = 0;
    while i < n
        invariant
            i <= n,
            n == text@.len(),
            out@.len() == 2 * i,
            forall|j: int|
                0 <= j < i ==> (#[trigger] out@[2 * j])@ == ActionModel::SendChar(text@[j]),
            forall|j: int|
                0 <= j < i ==> (#[trigger] out@[2 * j + 1])@ == ActionModel::Sleep(delay as int),
        decreases n - i,
    {
        let c = text.as_str().get_char(i);
        out.push(InputAction::SendChar(c));
        out.push(InputAction::Sleep(delay));
        i = i + 1;
    }
    proof {
        assert forall|k: int| 0 <= k < out@.len() implies (#[trigger] out@[k])@ == (if k % 2 == 0 {
            ActionModel::SendChar(text@[k / 2])
        } else {
            ActionModel::Sleep(delay as int)
        }) by {
            crate::actions::lemma_div2_facts(k);
            let j = k / 2;
            if k % 2 == 0 {
                assert(out@[2 * j]@ == ActionModel::SendChar(text@[j]));
            } else {
                assert(out@[2 * j + 1]@ == ActionModel::Sleep(delay as int));
            }
        }
    }
    out
}

} // verus!
