//! What holds of the dispatcher on every input, proved from `step`.

use vstd::prelude::*;
use crate::axis::{spec_axis_part, AxisAmount, AxisSource};
use crate::dispatch::{released, step, State};
use crate::serial::Serial;
use crate::event::{InputEvent, Outcome};
use crate::geometry::{Point, Rect, Size};
use crate::grab::{
    spec_grab_for, spec_move_target, spec_resize_target, Grab, ResizeEdges, BUTTON_PRIMARY,
    BUTTON_SECONDARY,
};
use crate::keybinding::{
    spec_key_filter, spec_resolve, Action, Config, FilterResult, KeyState, ModifierState,
    KEY_Q_LOWER, KEY_Q_UPPER,
};
use crate::window::{
    activated, all_deactivated, deactivated, lemma_topmost_at, raised, topmost_at,
    with_acknowledged, Window,
};

verus! {

/// A key event with the leader modifier not held is forwarded, whatever the
/// key and whether pressed or released.
pub proof fn lemma_key_without_leader_forwards(
    config: Config,
    modifiers: ModifierState,
    keysym: u32,
    state: KeyState,
)
    requires
        !modifiers.spec_holds(config.leader),
    ensures
        spec_resolve(config, modifiers, keysym, state) == Action::Forward,
        spec_key_filter(config, modifiers, keysym, state) == FilterResult::Forward,
{
}

/// A key release is forwarded, whatever the modifiers and the key.
pub proof fn lemma_key_release_forwards(config: Config, modifiers: ModifierState, keysym: u32)
    ensures
        spec_resolve(config, modifiers, keysym, KeyState::Released) == Action::Forward,
        spec_key_filter(config, modifiers, keysym, KeyState::Released) == FilterResult::Forward,
{
}

/// A press of either case of the letter bound to quitting, with the leader
/// modifier held, asks for exactly that.
pub proof fn lemma_quit_key_quits(config: Config, modifiers: ModifierState, keysym: u32)
    requires
        modifiers.spec_holds(config.leader),
        keysym == KEY_Q_LOWER || keysym == KEY_Q_UPPER,
    ensures
        spec_resolve(config, modifiers, keysym, KeyState::Pressed) == Action::Quit,
        spec_key_filter(config, modifiers, keysym, KeyState::Pressed) == FilterResult::Intercept(
            Action::Quit,
        ),
{
}

/// A dispatched key event that is a release, or arrives with the leader
/// modifier not held, reaches the client: the filter forwards it.
pub proof fn lemma_dispatched_key_forwards(
    pre: State,
    time: u32,
    key_code: u32,
    state: KeyState,
    keysym: u32,
    modifiers: ModifierState,
)
    requires
        state == KeyState::Released || !modifiers.spec_holds(pre.config.leader),
    ensures
        match step(pre, InputEvent::Keyboard { time, key_code, state, keysym, modifiers }).result {
            Ok(outcome) => outcome matches Outcome::Key { filter, .. } && filter
                == FilterResult::Forward,
            Err(_) => true,
        },
{
}

/// A press with no grab active, on a window: where the event is dispatched,
/// that window has keyboard focus and is on top of the stack, activated, and
/// the other windows keep their order below it, deactivated.
pub proof fn lemma_press_on_window_focuses_and_raises(pre: State, time: u32, button: u32)
    requires
        pre.grab is Idle,
        topmost_at(pre.windows, pre.pointer_location) is Some,
    ensures
        ({
            let i = topmost_at(pre.windows, pre.pointer_location).unwrap();
            let s = step(pre, InputEvent::PointerButton { time, button, state: KeyState::Pressed });
            &&& 0 <= i < pre.windows.len()
            &&& pre.windows[i].rect.spec_contains(pre.pointer_location)
            &&& s.result is Ok ==> {
                &&& s.state.focus == Some(pre.windows[i].id)
                &&& s.state.windows.len() == pre.windows.len()
                &&& s.state.windows.last() == activated(pre.windows[i])
                &&& s.state.windows.drop_last() == all_deactivated(pre.windows.remove(i))
            }
        }),
{
    lemma_topmost_at(pre.windows, pre.pointer_location);
    let i = topmost_at(pre.windows, pre.pointer_location).unwrap();
    let s = step(pre, InputEvent::PointerButton { time, button, state: KeyState::Pressed });
    if s.result is Ok {
        assert(s.state.windows == all_deactivated(pre.windows.remove(i)).push(
            activated(pre.windows[i]),
        ));
        assert(s.state.windows.drop_last() =~= all_deactivated(pre.windows.remove(i)));
    }
}

/// A press with no grab active, on no window: where the event is
/// dispatched, keyboard focus is cleared and every window is deactivated and
/// otherwise as it was.
pub proof fn lemma_press_on_nothing_clears(pre: State, time: u32, button: u32)
    requires
        pre.grab is Idle,
        topmost_at(pre.windows, pre.pointer_location) is None,
    ensures
        ({
            let s = step(pre, InputEvent::PointerButton { time, button, state: KeyState::Pressed });
            s.result is Ok ==> {
                &&& s.state.focus is None
                &&& s.state.grab is Idle
                &&& s.state.windows.len() == pre.windows.len()
                &&& forall|k: int|
                    0 <= k < pre.windows.len() ==> !(#[trigger] s.state.windows[k]).activated
                        && s.state.windows[k] == deactivated(pre.windows[k])
            }
        }),
{
}

/// The state after the events `events`, dispatched in order from `pre`.
pub open spec fn feed(pre: State, events: Seq<InputEvent>) -> State
    decreases events.len(),
{
    if events.len() == 0 {
        pre
    } else {
        step(feed(pre, events.drop_last()), events.last()).state
    }
}

/// Absolute motions leave the grab slot as it is.
pub proof fn lemma_motions_keep_grab(pre: State, motions: Seq<InputEvent>)
    requires
        forall|k: int| 0 <= k < motions.len() ==> (#[trigger] motions[k]) is PointerMotionAbsolute,
    ensures
        feed(pre, motions).grab == pre.grab,
    decreases motions.len(),
{
    if motions.len() > 0 {
        let before = motions.drop_last();
        assert forall|k: int| 0 <= k < before.len() implies (#[trigger] before[k])
            is PointerMotionAbsolute by {
            assert(before[k] == motions[k]);
        }
        lemma_motions_keep_grab(pre, before);
        assert(motions.last() == motions[motions.len() - 1]);
    }
}

/// A moved window follows the pointer without drift. During a move grab,
/// after any number of absolute motions the last of which was dispatched,
/// the grabbed window stands where it stood at first, displaced by what
/// lies between the pointer's place at the start of the grab and its place
/// now (kept inside the coordinate range): the motions in between leave no
/// trace.
pub proof fn lemma_move_follows_pointer(pre: State, motions: Seq<InputEvent>)
    requires
        pre.grab is Move,
        motions.len() > 0,
        forall|k: int| 0 <= k < motions.len() ==> (#[trigger] motions[k]) is PointerMotionAbsolute,
        step(feed(pre, motions.drop_last()), motions.last()).result is Ok,
    ensures
        ({
            let post = feed(pre, motions);
            &&& post.grab == pre.grab
            &&& post.windows.len() == pre.windows.len()
            &&& pre.grab matches Grab::Move { start, window, initial_location } && forall|k: int|
                0 <= k < post.windows.len() && (#[trigger] post.windows[k]).id == window
                    ==> post.windows[k].rect.loc == spec_move_target(
                    start.location,
                    initial_location,
                    post.pointer_location,
                )
        }),
    decreases motions.len(),
{
    let before = motions.drop_last();
    assert forall|k: int| 0 <= k < before.len() implies (#[trigger] before[k])
        is PointerMotionAbsolute by {
        assert(before[k] == motions[k]);
    }
    lemma_motions_keep_grab(pre, before);
    lemma_motions_keep_length(pre, before);
    assert(motions.last() == motions[motions.len() - 1]);
}

/// Absolute motions neither add nor remove a window.
pub proof fn lemma_motions_keep_length(pre: State, motions: Seq<InputEvent>)
    requires
        forall|k: int| 0 <= k < motions.len() ==> (#[trigger] motions[k]) is PointerMotionAbsolute,
    ensures
        feed(pre, motions).windows.len() == pre.windows.len(),
    decreases motions.len(),
{
    if motions.len() > 0 {
        let before = motions.drop_last();
        assert forall|k: int| 0 <= k < before.len() implies (#[trigger] before[k])
            is PointerMotionAbsolute by {
            assert(before[k] == motions[k]);
        }
        lemma_motions_keep_length(pre, before);
        assert(motions.last() == motions[motions.len() - 1]);
    }
}

/// Where the displaced location fits the coordinate range, a moved window
/// stands exactly at its first location plus the pointer's displacement.
pub proof fn lemma_move_target_is_sum(start: Point, initial: Point, pointer: Point)
    requires
        i32::MIN <= initial.x + (pointer.x - start.x) <= i32::MAX,
        i32::MIN <= initial.y + (pointer.y - start.y) <= i32::MAX,
    ensures
        spec_move_target(start, initial, pointer).x == initial.x + (pointer.x - start.x),
        spec_move_target(start, initial, pointer).y == initial.y + (pointer.y - start.y),
{
}

/// A resize never proposes a rectangle under the minimum size, on either
/// axis, wherever the pointer goes.
pub proof fn lemma_resize_keeps_minimum(
    edges: ResizeEdges,
    initial: Rect,
    start: Point,
    pointer: Point,
    min: Size,
)
    ensures
        spec_resize_target(edges, initial, start, pointer, min).size.w >= min.w,
        spec_resize_target(edges, initial, start, pointer, min).size.h >= min.h,
{
}

/// During a resize grab, what a dispatched motion leaves waiting at the
/// grabbed window is a proposal under the motion's serial, of a size not
/// under the configured minimum; the window's acknowledged geometry is
/// untouched.
pub proof fn lemma_resize_proposal_keeps_minimum(pre: State, time: u32, x: u32, y: u32)
    requires
        pre.grab is Resize,
    ensures
        ({
            let s = step(pre, InputEvent::PointerMotionAbsolute { time, x, y });
            s.result matches Ok(outcome) ==> {
                &&& s.state.windows.len() == pre.windows.len()
                &&& forall|k: int|
                    0 <= k < pre.windows.len() && pre.windows[k].id == pre.grab.spec_window().unwrap()
                        ==> {
                        &&& (#[trigger] s.state.windows[k]).rect == pre.windows[k].rect
                        &&& s.state.windows[k].pending matches Some(p)
                        &&& Some(p.serial) == outcome.spec_serial()
                        &&& p.rect.size.w >= pre.config.min_size.w
                        &&& p.rect.size.h >= pre.config.min_size.h
                    }
            }
        }),
{
}

/// An axis at rest carries no value and no step count; it carries a stop
/// exactly when the source is a finger.
pub proof fn lemma_resting_axis(source: AxisSource, amount: AxisAmount)
    requires
        amount.spec_amount() == 0,
    ensures
        spec_axis_part(source, amount).value is None,
        spec_axis_part(source, amount).steps is None,
        spec_axis_part(source, amount).stop <==> source == AxisSource::Finger,
{
}

/// No step takes the serial counter back, and a step that mints a serial
/// mints the counter's value and moves the counter past it.
pub proof fn lemma_counter_advances(pre: State, event: InputEvent)
    ensures
        step(pre, event).state.next_serial >= pre.next_serial,
        match step(pre, event).result {
            Ok(outcome) => match outcome.spec_serial() {
                Some(serial) => event.spec_takes_serial() && serial.value == pre.next_serial
                    && step(pre, event).state.next_serial == pre.next_serial + 1,
                None => !event.spec_takes_serial() && step(pre, event).state.next_serial
                    == pre.next_serial,
            },
            Err(_) => step(pre, event).state == pre,
        },
{
}

/// Of two events dispatched one after the other, each with a serial, the
/// second has the greater serial.
pub proof fn lemma_consecutive_serials_increase(pre: State, first: InputEvent, second: InputEvent)
    requires
        step(pre, first).result matches Ok(a) && a.spec_serial() is Some,
        step(step(pre, first).state, second).result matches Ok(b) && b.spec_serial() is Some,
    ensures
        step(pre, first).result.unwrap().spec_serial().unwrap().value < step(
            step(pre, first).state,
            second,
        ).result.unwrap().spec_serial().unwrap().value,
{
    lemma_counter_advances(pre, first);
    lemma_counter_advances(step(pre, first).state, second);
}

/// A grab begins only in an empty slot: a step from a state with an active
/// grab leaves that grab in place or ends it.
pub proof fn lemma_grab_begins_only_when_idle(pre: State, event: InputEvent)
    requires
        pre.grab.spec_is_active(),
    ensures
        step(pre, event).state.grab == pre.grab || step(pre, event).state.grab is Idle,
{
}

/// No two windows of the stack share an id.
pub open spec fn ids_distinct(s: Seq<Window>) -> bool {
    forall|i: int, j: int| 0 <= i < j < s.len() ==> s[i].id != s[j].id
}

/// A window of the id `id` is in the stack.
pub open spec fn has_window(s: Seq<Window>, id: u64) -> bool {
    exists|k: int| 0 <= k < s.len() && s[k].id == id
}

/// A state whose parts agree: the windows' ids are distinct, and the window
/// that has keyboard focus and the window that is grabbed are in the stack.
pub open spec fn consistent(s: State) -> bool {
    &&& ids_distinct(s.windows)
    &&& s.grab.spec_window() matches Some(w) ==> has_window(s.windows, w)
    &&& s.focus matches Some(f) ==> has_window(s.windows, f)
}

/// Two stacks that hold the same ids at the same places are alike in what
/// ids they hold and in whether those are distinct.
pub proof fn lemma_same_ids(a: Seq<Window>, b: Seq<Window>)
    requires
        a.len() == b.len(),
        forall|k: int| 0 <= k < a.len() ==> (#[trigger] a[k]).id == b[k].id,
    ensures
        ids_distinct(a) ==> ids_distinct(b),
        forall|id: u64| has_window(a, id) ==> has_window(b, id),
{
    if ids_distinct(a) {
        assert forall|i: int, j: int| 0 <= i < j < b.len() implies b[i].id != b[j].id by {
            assert(a[i].id == b[i].id);
            assert(a[j].id == b[j].id);
        }
    }
    assert forall|id: u64| has_window(a, id) implies has_window(b, id) by {
        let k = choose|k: int| 0 <= k < a.len() && a[k].id == id;
        assert(a[k].id == b[k].id);
    }
}

/// Raising a window keeps the ids of the stack, and keeps them distinct.
pub proof fn lemma_raised_ids(s: Seq<Window>, index: int, activate: bool)
    requires
        0 <= index < s.len(),
    ensures
        ids_distinct(s) ==> ids_distinct(raised(s, index, activate)),
        forall|id: u64| has_window(s, id) ==> has_window(raised(s, index, activate), id),
        has_window(raised(s, index, activate), s[index].id),
{
    let r = raised(s, index, activate);
    let top = s.len() - 1;
    assert(r.len() == s.len());
    assert(r[top].id == s[index].id);
    assert forall|k: int| 0 <= k < top implies (#[trigger] r[k]).id == (if k < index {
        s[k]
    } else {
        s[k + 1]
    }).id by {
        assert(s.remove(index)[k] == if k < index {
            s[k]
        } else {
            s[k + 1]
        });
    }
    if ids_distinct(s) {
        assert forall|i: int, j: int| 0 <= i < j < r.len() implies r[i].id != r[j].id by {
            let from_i = if i < index {
                i
            } else {
                i + 1
            };
            assert(r[i].id == s[from_i].id);
            if j < top {
                assert(r[j].id == s[j + (if j < index {
                    0int
                } else {
                    1int
                })].id);
            }
        }
    }
    assert forall|id: u64| has_window(s, id) implies has_window(r, id) by {
        let k = choose|k: int| 0 <= k < s.len() && s[k].id == id;
        if k == index {
            assert(r[top].id == id);
        } else if k < index {
            assert(r[k].id == id);
        } else {
            assert(r[k - 1].id == id);
        }
    }
}

/// Every step keeps a consistent state consistent.
pub proof fn lemma_step_keeps_consistency(pre: State, event: InputEvent)
    requires
        consistent(pre),
    ensures
        consistent(step(pre, event).state),
{
    let post = step(pre, event).state;
    match event {
        InputEvent::PointerMotionAbsolute { time, x, y } => {
            if step(pre, event).result is Ok {
                assert(post.windows.len() == pre.windows.len());
                assert forall|k: int| 0 <= k < pre.windows.len() implies (
                #[trigger] pre.windows[k]).id == post.windows[k].id by {}
                lemma_same_ids(pre.windows, post.windows);
            }
        },
        InputEvent::PointerButton { time, button, state } => {
            if step(pre, event).result is Ok {
                if state == KeyState::Pressed && pre.grab is Idle {
                    lemma_topmost_at(pre.windows, pre.pointer_location);
                    match topmost_at(pre.windows, pre.pointer_location) {
                        Some(i) => {
                            lemma_raised_ids(pre.windows, i, true);
                        },
                        None => {
                            assert forall|k: int| 0 <= k < pre.windows.len() implies (
                            #[trigger] pre.windows[k]).id == post.windows[k].id by {}
                            lemma_same_ids(pre.windows, post.windows);
                        },
                    }
                } else if state == KeyState::Released && pre.grab.spec_ends_on(button) {
                    assert forall|k: int| 0 <= k < pre.windows.len() implies (
                    #[trigger] pre.windows[k]).id == post.windows[k].id by {}
                    lemma_same_ids(pre.windows, post.windows);
                }
            }
        },
        _ => {},
    }
}

/// Ending or aborting a grab, and taking a window's acknowledgment, keep a
/// consistent state consistent.
pub proof fn lemma_release_and_acknowledgment_keep_consistency(pre: State, id: u64, serial: Serial)
    requires
        consistent(pre),
    ensures
        consistent(released(pre)),
        consistent(State { windows: with_acknowledged(pre.windows, id, serial), ..pre }),
{
    let freed = released(pre);
    assert forall|k: int| 0 <= k < pre.windows.len() implies (#[trigger] pre.windows[k]).id
        == freed.windows[k].id by {}
    lemma_same_ids(pre.windows, freed.windows);
    let taken = with_acknowledged(pre.windows, id, serial);
    assert forall|k: int| 0 <= k < pre.windows.len() implies (#[trigger] pre.windows[k]).id
        == taken[k].id by {}
    lemma_same_ids(pre.windows, taken);
}

/// A grab begins only as the lifecycle allows: from an empty slot, by a
/// press of the primary or the secondary button, with the logo key held, on
/// a window under the pointer; and it is that window it grabs, remembering
/// the button, the pointer's place and the window's geometry.
pub proof fn lemma_grab_begins_on_modified_press(pre: State, event: InputEvent)
    requires
        pre.grab is Idle,
        step(pre, event).state.grab.spec_is_active(),
    ensures
        event matches InputEvent::PointerButton { time, button, state } && {
            &&& state == KeyState::Pressed
            &&& pre.modifiers.logo
            &&& button == BUTTON_PRIMARY || button == BUTTON_SECONDARY
            &&& topmost_at(pre.windows, pre.pointer_location) matches Some(i) && step(
                pre,
                event,
            ).state.grab == spec_grab_for(
                button,
                pre.pointer_location,
                pre.windows[i].id,
                pre.windows[i].rect,
            )
        },
{
}

} // verus!
