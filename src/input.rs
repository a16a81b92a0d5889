//! What the render loop does with the window's input events.

use vstd::prelude::*;

verus! {

/// The keys the scene tells apart.
#[derive(Clone, Copy, Debug, PartialEq, Eq, Structural)]
pub enum Key {
    Escape,
    Other,
}

/// What happened to a key.
#[derive(Clone, Copy, Debug, PartialEq, Eq, Structural)]
pub enum KeyAction {
    Press,
    Release,
    Repeat,
}

/// A window event as the render loop sees it.
#[derive(Clone, Copy, Debug, PartialEq, Eq, Structural)]
pub enum InputEvent {
    Key { key: Key, action: KeyAction },
    Other,
}

/// Whether `event` asks for the window to close: a press of Escape.
pub open spec fn is_close_request(event: InputEvent) -> bool {
    event == (InputEvent::Key { key: Key::Escape, action: KeyAction::Press })
}

/// Whether any of `events` asks for the window to close.
pub open spec fn any_close_request(events: Seq<InputEvent>) -> bool {
    exists|i: int| 0 <= i < events.len() && is_close_request(#[trigger] events[i])
}

/// The close-requested flag after `event`: set by an Escape press, otherwise
/// left as it was.
pub fn handle_event(close_requested: bool, event: InputEvent) -> (r: bool)
    ensures
        r == (close_requested || is_close_request(event)),
{
    match event {
        InputEvent::Key { key: Key::Escape, action: KeyAction::Press } => true,
        _ => close_requested,
    }
}

/// The close-requested flag after the events of one poll, in order.
pub fn handle_events(close_requested: bool, events: &Vec<InputEvent>) -> (r: bool)
    ensures
        r == (close_requested || any_close_request(events@)),
{
    let mut flag = close_requested;
    let mut i: usize = 0;
    while i < events.len()
        invariant
            i <= events@.len(),
            flag == (close_requested || any_close_request(events@.take(i as int))),
        decreases events@.len() - i,
    {
        proof {
            let before = events@.take(i as int);
            let after = events@.take(i as int + 1);
            assert(after =~= before.push(events@[i as int]));
            if any_close_request(before) {
                let j = choose|j: int| 0 <= j < before.len() && is_close_request(#[trigger] before[j]);
                assert(after[j] == before[j]);
            }
            if is_close_request(events@[i as int]) {
                assert(after[i as int] == events@[i as int]);
            }
            if any_close_request(after) {
                let j = choose|j: int| 0 <= j < after.len() && is_close_request(#[trigger] after[j]);
                if j < i {
                    assert(before[j] == after[j]);
                }
            }
        }
        flag = handle_event(flag, events[i]);
        i = i + 1;
    }
    assert(events@.take(i as int) =~= events@);
    flag
}

} // verus!
