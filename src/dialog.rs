use vstd::prelude::*;

use crate::errors::PageError;
use crate::keys::{Key, MessageResponse};

verus! {

/// The answers a confirmation dialog offers.
#[derive(Clone, Copy, Debug, PartialEq, Eq, Structural)]
pub enum BooleanOptions {
    Yes,
    No,
}

/// Where a confirmation dialog stands.
pub enum DialogState<D, A> {
    /// No prompt is shown; the list is live.
    Closed,
    /// A question is shown and every key goes to the dialog.
    Open { prompt: String, action: A },
    /// The user has answered; the owner drains the answer before the next event.
    Resolved { decision: D, action: A },
}

/// The answers a dialog can be given, and the keys that give them.
pub trait DecisionSet: Sized {
    /// The answer a key selects, if it selects one.
    spec fn spec_for_key(key: Key) -> Option<Self>;

    /// This answer lets the guarded action run.
    spec fn spec_affirmative(&self) -> bool;

    fn for_key(key: Key) -> (r: Option<Self>)
        ensures
            r == Self::spec_for_key(key),
    ;

    fn is_affirmative(&self) -> (r: bool)
        ensures
            r == self.spec_affirmative(),
    ;
}

/// `y` affirms; `n` or escape declines.
pub open spec fn yes_no_key(key: Key) -> Option<bool> {
    match key {
        Key::Char(c) => if c == 'y' || c == 'Y' {
            Some(true)
        } else if c == 'n' || c == 'N' {
            Some(false)
        } else {
            None
        },
        Key::Esc => Some(false),
        _ => None,
    }
}

fn yes_no_for_key(key: Key) -> (r: Option<bool>)
    ensures
        r == yes_no_key(key),
{
    match key {
        Key::Char(c) => if c == 'y' || c == 'Y' {
            Some(true)
        } else if c == 'n' || c == 'N' {
            Some(false)
        } else {
            None
        },
        Key::Esc => Some(false),
        _ => None,
    }
}

impl DecisionSet for BooleanOptions {
    open spec fn spec_for_key(key: Key) -> Option<BooleanOptions> {
        match yes_no_key(key) {
            Some(true) => Some(BooleanOptions::Yes),
            Some(false) => Some(BooleanOptions::No),
            None => None,
        }
    }

    open spec fn spec_affirmative(&self) -> bool {
        *self is Yes
    }

    fn for_key(key: Key) -> (r: Option<BooleanOptions>) {
        match yes_no_for_key(key) {
            Some(true) => Some(BooleanOptions::Yes),
            Some(false) => Some(BooleanOptions::No),
            None => None,
        }
    }

    fn is_affirmative(&self) -> (r: bool) {
        match self {
            BooleanOptions::Yes => true,
            BooleanOptions::No => false,
        }
    }
}

impl DecisionSet for bool {
    open spec fn spec_for_key(key: Key) -> Option<bool> {
        yes_no_key(key)
    }

    open spec fn spec_affirmative(&self) -> bool {
        *self
    }

    fn for_key(key: Key) -> (r: Option<bool>) {
        yes_no_for_key(key)
    }

    fn is_affirmative(&self) -> (r: bool) {
        *self
    }
}

/// The state after `open`: only a closed dialog opens.
pub open spec fn after_open<D, A>(s: DialogState<D, A>, prompt: String, action: A) -> DialogState<D, A> {
    match s {
        DialogState::Closed => DialogState::Open { prompt, action },
        _ => s,
    }
}

/// The state after a key: an open dialog resolves on a recognised key.
pub open spec fn after_key<D: DecisionSet, A>(s: DialogState<D, A>, key: Key) -> DialogState<D, A> {
    match s {
        DialogState::Open { prompt, action } => match D::spec_for_key(key) {
            Some(d) => DialogState::Resolved { decision: d, action },
            None => s,
        },
        _ => s,
    }
}

/// The state after `drain`: only a resolved dialog closes.
pub open spec fn after_drain<D, A>(s: DialogState<D, A>) -> DialogState<D, A> {
    match s {
        DialogState::Resolved { .. } => DialogState::Closed,
        _ => s,
    }
}

/// What `drain` hands back: the answer and the captured action of a resolved dialog.
pub open spec fn drained<D, A>(s: DialogState<D, A>) -> Option<(D, A)> {
    match s {
        DialogState::Resolved { decision, action } => Some((decision, action)),
        _ => None,
    }
}

/// One step along `Closed -> Open -> Resolved -> Closed`, or none at all.
pub open spec fn cycle_step<D, A>(before: DialogState<D, A>, after: DialogState<D, A>) -> bool {
    ||| before == after
    ||| (before is Closed && after is Open)
    ||| (before is Open && after is Resolved)
    ||| (before is Resolved && after is Closed)
}

/// A confirmation dialog that holds the action it guards until it is answered
/// with one of the answers `D`.
pub struct ConfirmationDialog<D, A> {
    state: DialogState<D, A>,
}

impl<D: DecisionSet, A> ConfirmationDialog<D, A> {
    pub closed spec fn current_state(&self) -> DialogState<D, A> {
        self.state
    }

    pub fn new() -> (r: Self)
        ensures
            r.current_state() is Closed,
    {
        ConfirmationDialog { state: DialogState::Closed }
    }

    pub fn state(&self) -> (r: &DialogState<D, A>)
        ensures
            *r == self.current_state(),
    {
        &self.state
    }

    pub fn is_closed(&self) -> (r: bool)
        ensures
            r == self.current_state() is Closed,
    {
        match &self.state {
            DialogState::Closed => true,
            _ => false,
        }
    }

    pub fn is_open(&self) -> (r: bool)
        ensures
            r == self.current_state() is Open,
    {
        match &self.state {
            DialogState::Open { .. } => true,
            _ => false,
        }
    }

    /// Shows `prompt` and captures `action`. A dialog that is open or resolved is
    /// left as it is and the misuse is reported as `InvalidTransition`.
    pub fn open(&mut self, prompt: String, action: A) -> (r: Result<(), PageError>)
        ensures
            final(self).current_state() == after_open(old(self).current_state(), prompt, action),
            r is Ok <==> old(self).current_state() is Closed,
            r is Err ==> r == Err::<(), PageError>(PageError::InvalidTransition),
    {
        if self.is_closed() {
            self.state = DialogState::Open { prompt, action };
            Ok(())
        } else {
            Err(PageError::InvalidTransition)
        }
    }

    /// Offers a key to the dialog. An open dialog resolves on a key that selects an
    /// answer and consumes it; any other key, or a dialog that is not open, leaves
    /// the state as it is and the key unconsumed.
    pub fn update(&mut self, key: Key) -> (r: MessageResponse)
        ensures
            final(self).current_state() == after_key(old(self).current_state(), key),
            r == (if old(self).current_state() is Open && D::spec_for_key(key) is Some {
                MessageResponse::Consumed
            } else {
                MessageResponse::NotConsumed
            }),
    {
        if !self.is_open() {
            return MessageResponse::NotConsumed;
        }
        match D::for_key(key) {
            Some(d) => {
                let mut taken = DialogState::Closed;
                core::mem::swap(&mut self.state, &mut taken);
                match taken {
                    DialogState::Open { prompt, action } => {
                        self.state = DialogState::Resolved { decision: d, action };
                    },
                    other => {
                        self.state = other;
                    },
                }
                MessageResponse::Consumed
            },
            None => MessageResponse::NotConsumed,
        }
    }

    /// Hands back the answer and the captured action of a resolved dialog and
    /// closes it. In any other state nothing is returned and nothing changes.
    pub fn drain(&mut self) -> (r: Option<(D, A)>)
        ensures
            r == drained(old(self).current_state()),
            final(self).current_state() == after_drain(old(self).current_state()),
    {
        let mut taken = DialogState::Closed;
        core::mem::swap(&mut self.state, &mut taken);
        match taken {
            DialogState::Resolved { decision, action } => Some((decision, action)),
            other => {
                self.state = other;
                None
            },
        }
    }
}

} // verus!
