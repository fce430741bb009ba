//! Laws of plans as a whole: what running one does to the pointer, and how
//! many sends and moves one contains.

use vstd::prelude::*;
use crate::actions::ActionModel;
use crate::actions::move_count;
use crate::actions::pointer_after;
use crate::actions::send_char_count;
use crate::controller::move_plan;

verus! {

/// Appending one action raises the send count by one exactly for a
/// character send.
proof fn lemma_send_count_push(s: Seq<ActionModel>, a: ActionModel)
    ensures
        send_char_count(s.push(a)) == send_char_count(s) + (match a {
            ActionModel::SendChar(c) => 1nat,
            _ => 0nat,
        }),
{
    assert(s.push(a).drop_last() =~= s);
    assert(s.push(a).last() == a);
}

/// A plan that alternates a character send and a pause, `m` of each, issues
/// exactly `m` character sends: the shape delayed typing plans have, one
/// send per character of the text.
pub proof fn lemma_alternating_send_count(s: Seq<ActionModel>, m: nat)
    requires
        s.len() == 2 * m,
        forall|j: int| 0 <= j < m ==> (#[trigger] s[2 * j]) matches ActionModel::SendChar(c),
        forall|j: int| 0 <= j < m ==> (#[trigger] s[2 * j + 1]) matches ActionModel::Sleep(d),
    ensures
        send_char_count(s) == m,
    decreases m,
{
    if m == 0 {
        assert(s =~= Seq::<ActionModel>::empty());
        assert(send_char_count(s) == 0);
    } else {
        let shorter = s.drop_last().drop_last();
        assert(shorter.len() == 2 * (m - 1));
        assert(forall|j: int|
            0 <= j < m - 1 ==> (#[trigger] shorter[2 * j]) == s[2 * j]);
        assert(forall|j: int|
            0 <= j < m - 1 ==> (#[trigger] shorter[2 * j + 1]) == s[2 * j + 1]);
        lemma_alternating_send_count(shorter, (m - 1) as nat);
        assert(s =~= shorter.push(s[2 * (m - 1)]).push(s[2 * (m - 1) + 1]));
        lemma_send_count_push(shorter, s[2 * (m - 1)]);
        lemma_send_count_push(shorter.push(s[2 * (m - 1)]), s[2 * (m - 1) + 1]);
        assert(s[2 * (m - 1)] matches ActionModel::SendChar(c));
        assert(s[2 * (m - 1) + 1] matches ActionModel::Sleep(d));
    }
}

/// A plan whose last action moves the pointer to `(x, y)` leaves the
/// pointer exactly there, wherever it started.
pub proof fn lemma_final_snap(s: Seq<ActionModel>, x: int, y: int, start: (int, int))
    requires
        s.len() > 0,
        s.last() == ActionModel::MoveTo(x, y),
    ensures
        pointer_after(s, start) == (x, y),
{
    assert(s =~= s.drop_last().push(s.last()));
    assert(pointer_after(s.drop_last().push(ActionModel::MoveTo(x, y)), start) == (x, y));
}

/// Moving the pointer then querying it: running a plain-move plan leaves
/// the backend pointer exactly at the move's target `(x, y)`, wherever it
/// started, so a position query right after the move reports `(x, y)`.
pub proof fn lemma_move_mouse_position(x: int, y: int, delay: int, start: (int, int))
    ensures
        pointer_after(move_plan(x, y, delay), start) == (x, y),
{
    let s = move_plan(x, y, delay);
    assert(s.drop_last() =~= seq![ActionModel::MoveTo(x, y)]);
    assert(pointer_after(s, start) == pointer_after(s.drop_last(), start));
    lemma_final_snap(s.drop_last(), x, y, start);
}

/// Appending one action raises the move count by one exactly for a pointer
/// move.
proof fn lemma_move_count_push(s: Seq<ActionModel>, a: ActionModel)
    ensures
        move_count(s.push(a)) == move_count(s) + (match a {
            ActionModel::MoveTo(x, y) => 1nat,
            _ => 0nat,
        }),
{
    assert(s.push(a).drop_last() =~= s);
    assert(s.push(a).last() == a);
}

/// A smooth-move plan ends exactly on the target, whatever the speed and
/// the per-step rounding did, and performs exactly its step count of
/// intermediate moves before the unconditional final snap.
pub proof fn lemma_smooth_plan_outcome(
    s: Seq<ActionModel>,
    steps: nat,
    tx: int,
    ty: int,
    start: (int, int),
)
    requires
        s.len() == 2 * steps + 1,
        forall|j: int| 0 <= j < steps ==> (#[trigger] s[2 * j]) matches ActionModel::MoveTo(a, b),
        forall|j: int| 0 <= j < steps ==> (#[trigger] s[2 * j + 1]) matches ActionModel::Sleep(d),
        s[2 * steps as int] == ActionModel::MoveTo(tx, ty),
    ensures
        pointer_after(s, start) == (tx, ty),
        move_count(s) == steps + 1,
    decreases steps,
{
    assert(s.last() == s[2 * steps as int]);
    lemma_final_snap(s, tx, ty, start);
    if steps == 0 {
        assert(s =~= Seq::<ActionModel>::empty().push(s[0]));
        assert(move_count(Seq::<ActionModel>::empty()) == 0);
        lemma_move_count_push(Seq::<ActionModel>::empty(), s[0]);
    } else {
        let shorter = s.take(2 * (steps - 1) as int + 1);
        assert(forall|j: int| 0 <= j < shorter.len() ==> shorter[j] == s[j]);
        match s[2 * (steps - 1) as int] {
            ActionModel::MoveTo(ax, ay) => {
                lemma_smooth_plan_outcome(shorter, (steps - 1) as nat, ax, ay, start);
            },
            _ => {
                assert(s[2 * (steps - 1) as int] matches ActionModel::MoveTo(a, b));
            },
        }
        assert(s =~= shorter.push(s[2 * steps as int - 1]).push(s[2 * steps as int]));
        lemma_move_count_push(shorter, s[2 * steps as int - 1]);
        lemma_move_count_push(shorter.push(s[2 * steps as int - 1]), s[2 * steps as int]);
        assert(s[2 * steps as int - 1] matches ActionModel::Sleep(d));
    }
}

/// The same outcome, phrased over a plan's indices as the smooth-move
/// planner states them: even slots before the end move the pointer, odd
/// slots pause, and the last slot snaps to the target.
pub proof fn lemma_smooth_indexed_outcome(
    s: Seq<ActionModel>,
    steps: nat,
    tx: int,
    ty: int,
    start: (int, int),
)
    requires
        s.len() == 2 * steps + 1,
        forall|k: int|
            0 <= k < s.len() && k != 2 * steps && k % 2 == 0 ==> (#[trigger] s[k])
                matches ActionModel::MoveTo(a, b),
        forall|k: int|
            0 <= k < s.len() && k % 2 == 1 ==> (#[trigger] s[k]) matches ActionModel::Sleep(d),
        s[2 * steps as int] == ActionModel::MoveTo(tx, ty),
    ensures
        pointer_after(s, start) == (tx, ty),
        move_count(s) == steps + 1,
{
    assert forall|j: int| 0 <= j < steps implies (#[trigger] s[2 * j])
        matches ActionModel::MoveTo(a, b) by {
        assert(s[2 * j] matches ActionModel::MoveTo(a, b));
    }
    assert forall|j: int| 0 <= j < steps implies (#[trigger] s[2 * j + 1])
        matches ActionModel::Sleep(d) by {
        assert(s[2 * j + 1] matches ActionModel::Sleep(d));
    }
    lemma_smooth_plan_outcome(s, steps, tx, ty, start);
}

} // verus!
