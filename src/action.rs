use vstd::prelude::*;

use crate::errors::{mutation_error, mutation_error_spec, BackendError, PageError};
use crate::keys::{Key, MessageResponse};
use crate::selection::Nav;

verus! {

/// The mutating backend calls a page can make.
#[derive(Clone, Copy, Debug, PartialEq, Eq, Structural)]
pub enum ActionKind {
    Remove,
    Start,
    Stop,
    Attach,
}

/// A backend call bound to the identifier of its target, fixed when the key was
/// pressed.
#[derive(Debug)]
pub struct PendingAction {
    pub kind: ActionKind,
    pub target: String,
}

/// The keys a page binds to its actions. The delete key goes through the
/// confirmation dialog; the others run at once. `None` leaves an action unbound.
#[derive(Clone, Copy, Debug, PartialEq, Eq, Structural)]
pub struct KeyBindings {
    pub delete: Key,
    pub start: Option<Key>,
    pub stop: Option<Key>,
    pub attach: Option<Key>,
}

/// What a page asks its host to do after an event.
#[derive(Debug)]
pub struct Dispatch {
    pub response: MessageResponse,
    /// The backend call to perform now, if any.
    pub run: Option<PendingAction>,
}

/// What a page asks its host to do once a backend call has finished.
#[derive(Clone, Copy, Debug, PartialEq, Eq, Structural)]
pub struct Completion {
    /// Fetch the list again, to show the call's effect.
    pub refresh: bool,
    /// The failure to report, if the call failed.
    pub error: Option<PageError>,
}

/// The list navigation a key stands for: up or `k`, down or `j`, `g` for the first
/// record and `G` for the last.
pub open spec fn key_nav(key: Key) -> Option<Nav> {
    match key {
        Key::Up => Some(Nav::Up),
        Key::Down => Some(Nav::Down),
        Key::Char(c) => if c == 'k' {
            Some(Nav::Up)
        } else if c == 'j' {
            Some(Nav::Down)
        } else if c == 'g' {
            Some(Nav::First)
        } else if c == 'G' {
            Some(Nav::Last)
        } else {
            None
        },
        _ => None,
    }
}

pub open spec fn bound_to(slot: Option<Key>, key: Key) -> bool {
    slot == Some(key)
}

/// The action a key stands for under `b`; the delete key takes precedence.
pub open spec fn key_action(b: KeyBindings, key: Key) -> Option<ActionKind> {
    if key == b.delete {
        Some(ActionKind::Remove)
    } else if bound_to(b.start, key) {
        Some(ActionKind::Start)
    } else if bound_to(b.stop, key) {
        Some(ActionKind::Stop)
    } else if bound_to(b.attach, key) {
        Some(ActionKind::Attach)
    } else {
        None
    }
}

/// What the host is asked to do when a backend call finishes. Nothing is asked
/// when no call was outstanding. A success is shown by a refresh; a vanished or
/// conflicting target is reported and refreshed to resync; any other failure is
/// reported and the display kept.
pub open spec fn completion_for(busy: bool, outcome: Result<(), BackendError>) -> Completion {
    if !busy {
        Completion { refresh: false, error: None }
    } else {
        match outcome {
            Ok(_) => Completion { refresh: true, error: None },
            Err(e) => Completion {
                refresh: e is NotFound || e is Conflict,
                error: Some(mutation_error_spec(e)),
            },
        }
    }
}

pub fn nav_for_key(key: Key) -> (r: Option<Nav>)
    ensures
        r == key_nav(key),
{
    match key {
        Key::Up => Some(Nav::Up),
        Key::Down => Some(Nav::Down),
        Key::Char(c) => if c == 'k' {
            Some(Nav::Up)
        } else if c == 'j' {
            Some(Nav::Down)
        } else if c == 'g' {
            Some(Nav::First)
        } else if c == 'G' {
            Some(Nav::Last)
        } else {
            None
        },
        _ => None,
    }
}

fn is_bound(slot: Option<Key>, key: Key) -> (r: bool)
    ensures
        r == bound_to(slot, key),
{
    match slot {
        Some(k) => k == key,
        None => false,
    }
}

pub fn action_for_key(b: KeyBindings, key: Key) -> (r: Option<ActionKind>)
    ensures
        r == key_action(b, key),
{
    if key == b.delete {
        Some(ActionKind::Remove)
    } else if is_bound(b.start, key) {
        Some(ActionKind::Start)
    } else if is_bound(b.stop, key) {
        Some(ActionKind::Stop)
    } else if is_bound(b.attach, key) {
        Some(ActionKind::Attach)
    } else {
        None
    }
}

pub fn completion(busy: bool, outcome: Result<(), BackendError>) -> (r: Completion)
    ensures
        r == completion_for(busy, outcome),
{
    if !busy {
        Completion { refresh: false, error: None }
    } else {
        match outcome {
            Ok(_) => Completion { refresh: true, error: None },
            Err(e) => {
                let resync = match e {
                    BackendError::NotFound => true,
                    BackendError::Conflict => true,
                    _ => false,
                };
                Completion { refresh: resync, error: Some(mutation_error(e)) }
            },
        }
    }
}

} // verus!
