use vstd::prelude::*;

use crate::action::{
    action_for_key, completion, completion_for, key_action, key_nav, nav_for_key, ActionKind,
    Completion, Dispatch, KeyBindings, PendingAction,
};
use crate::dialog::{BooleanOptions, ConfirmationDialog, DecisionSet, DialogState};
use crate::errors::{BackendError, PageError};
use crate::keys::{Key, MessageResponse};
use crate::resource::Resource;
use crate::selection::{clamp_index, nav_index, SelectionList};

verus! {

/// The reply of an event that a page did not take.
pub open spec fn not_consumed() -> Dispatch {
    Dispatch { response: MessageResponse::NotConsumed, run: None }
}

/// The reply of an event that a page took without calling the backend.
pub open spec fn consumed() -> Dispatch {
    Dispatch { response: MessageResponse::Consumed, run: None }
}

/// A page of remote resources: a selectable snapshot, a dialog that guards the
/// delete action, and the rule that at most one backend call is outstanding.
pub struct ResourcePage<R> {
    name: String,
    visible: bool,
    bindings: KeyBindings,
    list: SelectionList<R>,
    dialog: ConfirmationDialog<BooleanOptions, PendingAction>,
    busy: bool,
}

impl<R: Resource> ResourcePage<R> {
    pub closed spec fn title(&self) -> String {
        self.name
    }

    pub closed spec fn shown(&self) -> bool {
        self.visible
    }

    pub closed spec fn keys(&self) -> KeyBindings {
        self.bindings
    }

    pub closed spec fn selection(&self) -> SelectionList<R> {
        self.list
    }

    pub closed spec fn dialog_state(&self) -> DialogState<BooleanOptions, PendingAction> {
        self.dialog.current_state()
    }

    /// A backend call has been handed out and has not been completed yet.
    pub closed spec fn busy(&self) -> bool {
        self.busy
    }

    pub open spec fn records(&self) -> Seq<R> {
        self.selection().records()
    }

    pub open spec fn index(&self) -> Option<int> {
        self.selection().index()
    }

    /// The selection resolves, and no answered dialog is left standing between events.
    pub open spec fn wf(&self) -> bool {
        &&& self.selection().wf()
        &&& !(self.dialog_state() is Resolved)
    }

    /// Everything but the selection's position stays as in `before`.
    pub open spec fn same_but_index(&self, before: Self) -> bool {
        &&& self.title() == before.title()
        &&& self.shown() == before.shown()
        &&& self.keys() == before.keys()
        &&& self.records() == before.records()
        &&& self.dialog_state() == before.dialog_state()
        &&& self.busy() == before.busy()
    }

    /// The effect of a key while the dialog is open: it goes to the dialog alone.
    /// An answer closes the dialog; an affirmative one hands the captured action
    /// out, unless another call is outstanding.
    pub open spec fn dialog_key_effect(before: Self, after: Self, key: Key, r: Result<Dispatch, PageError>) -> bool {
        &&& after.title() == before.title()
        &&& after.shown() == before.shown()
        &&& after.keys() == before.keys()
        &&& after.selection() == before.selection()
        &&& match before.dialog_state() {
            DialogState::Open { prompt, action } => match BooleanOptions::spec_for_key(key) {
                None => after == before && r == Ok::<Dispatch, PageError>(not_consumed()),
                Some(BooleanOptions::No) => {
                    &&& after.dialog_state() is Closed
                    &&& after.busy() == before.busy()
                    &&& r == Ok::<Dispatch, PageError>(consumed())
                },
                Some(BooleanOptions::Yes) => {
                    &&& after.dialog_state() is Closed
                    &&& after.busy()
                    &&& if before.busy() {
                        r == Err::<Dispatch, PageError>(PageError::ActionInProgress)
                    } else {
                        r == Ok::<Dispatch, PageError>(
                            Dispatch { response: MessageResponse::Consumed, run: Some(action) },
                        )
                    }
                },
            },
            _ => true,
        }
    }

    /// The effect of a key while the dialog is closed: navigation moves the
    /// selection; the delete key opens the dialog on the selected record; another
    /// action key hands its call out at once; while a call is outstanding every
    /// action key is refused.
    pub open spec fn list_key_effect(before: Self, after: Self, key: Key, r: Result<Dispatch, PageError>) -> bool {
        match key_nav(key) {
            Some(nav) => {
                &&& after.same_but_index(before)
                &&& after.index() == nav_index(before.index(), before.records().len() as int, nav)
                &&& r == Ok::<Dispatch, PageError>(consumed())
            },
            None => match key_action(before.keys(), key) {
                None => after == before && r == Ok::<Dispatch, PageError>(not_consumed()),
                Some(kind) => if before.busy() {
                    after == before && r == Err::<Dispatch, PageError>(PageError::ActionInProgress)
                } else {
                    match before.selection().current_spec() {
                        None => after == before && r == Ok::<Dispatch, PageError>(not_consumed()),
                        Some(rec) => {
                            &&& after.title() == before.title()
                            &&& after.shown() == before.shown()
                            &&& after.keys() == before.keys()
                            &&& after.selection() == before.selection()
                            &&& if kind is Remove {
                                &&& after.busy() == before.busy()
                                &&& r == Ok::<Dispatch, PageError>(consumed())
                                &&& match after.dialog_state() {
                                    DialogState::Open { prompt, action } => {
                                        &&& prompt@ == rec.spec_id()
                                        &&& action.kind == ActionKind::Remove
                                        &&& action.target@ == rec.spec_id()
                                    },
                                    _ => false,
                                }
                            } else {
                                &&& after.dialog_state() == before.dialog_state()
                                &&& after.busy()
                                &&& match r {
                                    Ok(d) => {
                                        &&& d.response == MessageResponse::Consumed
                                        &&& match d.run {
                                            Some(a) => a.kind == kind && a.target@ == rec.spec_id(),
                                            None => false,
                                        }
                                    },
                                    Err(_) => false,
                                }
                            }
                        },
                    }
                },
            },
        }
    }

    /// The effect of `update`: a hidden page takes nothing; an open dialog takes
    /// every key; otherwise the list and the action keys do.
    pub open spec fn update_effect(before: Self, after: Self, key: Key, r: Result<Dispatch, PageError>) -> bool {
        if !before.shown() {
            after == before && r == Ok::<Dispatch, PageError>(not_consumed())
        } else if before.dialog_state() is Open {
            Self::dialog_key_effect(before, after, key, r)
        } else {
            Self::list_key_effect(before, after, key, r)
        }
    }

    /// A page with an empty snapshot, nothing selected and the dialog closed.
    pub fn new(name: String, visible: bool, bindings: KeyBindings) -> (r: Self)
        ensures
            r.wf(),
            r.title() == name,
            r.shown() == visible,
            r.keys() == bindings,
            r.records() == Seq::<R>::empty(),
            r.index() == None::<int>,
            r.dialog_state() is Closed,
            !r.busy(),
    {
        ResourcePage {
            name,
            visible,
            bindings,
            list: SelectionList::new(),
            dialog: ConfirmationDialog::new(),
            busy: false,
        }
    }

    pub fn name(&self) -> (r: &String)
        ensures
            *r == self.title(),
    {
        &self.name
    }

    pub fn is_visible(&self) -> (r: bool)
        ensures
            r == self.shown(),
    {
        self.visible
    }

    pub fn bindings(&self) -> (r: &KeyBindings)
        ensures
            *r == self.keys(),
    {
        &self.bindings
    }

    pub fn is_busy(&self) -> (r: bool)
        ensures
            r == self.busy(),
    {
        self.busy
    }

    pub fn list(&self) -> (r: &SelectionList<R>)
        ensures
            *r == self.selection(),
    {
        &self.list
    }

    pub fn dialog(&self) -> (r: &DialogState<BooleanOptions, PendingAction>)
        ensures
            *r == self.dialog_state(),
    {
        self.dialog.state()
    }

    /// The record under the selection, if the selection resolves.
    pub fn current(&self) -> (r: Option<&R>)
        ensures
            match r {
                Some(rec) => self.selection().current_spec() == Some(*rec),
                None => self.selection().current_spec() == None::<R>,
            },
    {
        self.list.current()
    }

    /// Takes in a freshly fetched list. A hidden page ignores it. A failed fetch
    /// keeps the previous snapshot and selection and reports the backend as
    /// unavailable; a successful one replaces the snapshot and clamps the selection.
    pub fn refresh(&mut self, fetched: Result<Vec<R>, BackendError>) -> (r: Result<(), PageError>)
        requires
            old(self).wf(),
        ensures
            final(self).wf(),
            final(self).title() == old(self).title(),
            final(self).shown() == old(self).shown(),
            final(self).keys() == old(self).keys(),
            final(self).dialog_state() == old(self).dialog_state(),
            final(self).busy() == old(self).busy(),
            !old(self).shown() ==> *final(self) == *old(self) && r == Ok::<(), PageError>(()),
            old(self).shown() ==> match fetched {
                Ok(v) => {
                    &&& r == Ok::<(), PageError>(())
                    &&& final(self).records() == v@
                    &&& final(self).index() == clamp_index(old(self).index(), v@.len() as int)
                },
                Err(_) => {
                    &&& r == Err::<(), PageError>(PageError::BackendUnavailable)
                    &&& final(self).selection() == old(self).selection()
                },
            },
    {
        if !self.visible {
            return Ok(());
        }
        self.list.refresh(fetched)
    }

    /// Takes in the list fetched when the page is (re)activated: the snapshot is
    /// replaced and the first record selected. A failed fetch changes nothing.
    pub fn initialise(&mut self, fetched: Result<Vec<R>, BackendError>) -> (r: Result<(), PageError>)
        requires
            old(self).wf(),
        ensures
            final(self).wf(),
            final(self).title() == old(self).title(),
            final(self).shown() == old(self).shown(),
            final(self).keys() == old(self).keys(),
            final(self).dialog_state() == old(self).dialog_state(),
            final(self).busy() == old(self).busy(),
            match fetched {
                Ok(v) => {
                    &&& r == Ok::<(), PageError>(())
                    &&& final(self).records() == v@
                    &&& final(self).index() == (if v@.len() == 0 { None::<int> } else { Some(0int) })
                },
                Err(_) => {
                    &&& r == Err::<(), PageError>(PageError::BackendUnavailable)
                    &&& final(self).selection() == old(self).selection()
                },
            },
    {
        let r = self.list.refresh(fetched);
        if r.is_ok() {
            self.list.jump_first();
        }
        r
    }

    /// Shows the page and initialises it from `fetched`.
    pub fn set_visible(&mut self, fetched: Result<Vec<R>, BackendError>) -> (r: Result<(), PageError>)
        requires
            old(self).wf(),
        ensures
            final(self).wf(),
            final(self).shown(),
            final(self).title() == old(self).title(),
            final(self).keys() == old(self).keys(),
            final(self).dialog_state() == old(self).dialog_state(),
            final(self).busy() == old(self).busy(),
            match fetched {
                Ok(v) => {
                    &&& r == Ok::<(), PageError>(())
                    &&& final(self).records() == v@
                    &&& final(self).index() == (if v@.len() == 0 { None::<int> } else { Some(0int) })
                },
                Err(_) => {
                    &&& r == Err::<(), PageError>(PageError::BackendUnavailable)
                    &&& final(self).selection() == old(self).selection()
                },
            },
    {
        self.visible = true;
        self.initialise(fetched)
    }

    /// Hides the page; a hidden page takes no events and no refreshes.
    pub fn set_invisible(&mut self)
        requires
            old(self).wf(),
        ensures
            final(self).wf(),
            !final(self).shown(),
            final(self).title() == old(self).title(),
            final(self).keys() == old(self).keys(),
            final(self).selection() == old(self).selection(),
            final(self).dialog_state() == old(self).dialog_state(),
            final(self).busy() == old(self).busy(),
    {
        self.visible = false;
    }

    /// Hands `action` out to the host, or refuses it while another call is
    /// outstanding.
    fn begin(&mut self, action: PendingAction) -> (r: Result<Dispatch, PageError>)
        ensures
            final(self).busy(),
            final(self).title() == old(self).title(),
            final(self).shown() == old(self).shown(),
            final(self).keys() == old(self).keys(),
            final(self).selection() == old(self).selection(),
            final(self).dialog_state() == old(self).dialog_state(),
            if old(self).busy() {
                r == Err::<Dispatch, PageError>(PageError::ActionInProgress)
            } else {
                r == Ok::<Dispatch, PageError>(
                    Dispatch { response: MessageResponse::Consumed, run: Some(action) },
                )
            },
    {
        if self.busy {
            Err(PageError::ActionInProgress)
        } else {
            self.busy = true;
            Ok(Dispatch { response: MessageResponse::Consumed, run: Some(action) })
        }
    }

    fn update_dialog(&mut self, key: Key) -> (r: Result<Dispatch, PageError>)
        requires
            old(self).wf(),
            old(self).dialog_state() is Open,
        ensures
            final(self).wf(),
            Self::dialog_key_effect(*old(self), *final(self), key, r),
    {
        if BooleanOptions::for_key(key).is_none() {
            return Ok(Dispatch { response: MessageResponse::NotConsumed, run: None });
        }
        let response = self.dialog.update(key);
        match self.dialog.drain() {
            Some((BooleanOptions::Yes, action)) => self.begin(action),
            _ => Ok(Dispatch { response, run: None }),
        }
    }

    fn update_list(&mut self, key: Key) -> (r: Result<Dispatch, PageError>)
        requires
            old(self).wf(),
            old(self).dialog_state() is Closed,
        ensures
            final(self).wf(),
            Self::list_key_effect(*old(self), *final(self), key, r),
    {
        if let Some(nav) = nav_for_key(key) {
            self.list.navigate(nav);
            return Ok(Dispatch { response: MessageResponse::Consumed, run: None });
        }
        match action_for_key(self.bindings, key) {
            None => Ok(Dispatch { response: MessageResponse::NotConsumed, run: None }),
            Some(kind) => {
                if self.busy {
                    return Err(PageError::ActionInProgress);
                }
                let target = match self.list.current() {
                    Some(rec) => rec.id(),
                    None => {
                        return Ok(Dispatch { response: MessageResponse::NotConsumed, run: None });
                    },
                };
                match kind {
                    ActionKind::Remove => {
                        let prompt = target.clone();
                        // The dialog is closed here, so opening it cannot fail.
                        let _ = self.dialog.open(prompt, PendingAction { kind, target });
                        Ok(Dispatch { response: MessageResponse::Consumed, run: None })
                    },
                    _ => self.begin(PendingAction { kind, target }),
                }
            },
        }
    }

    /// Routes a key: a hidden page takes nothing; an open dialog takes every key;
    /// otherwise the list and the page's action keys do.
    pub fn update(&mut self, key: Key) -> (r: Result<Dispatch, PageError>)
        requires
            old(self).wf(),
        ensures
            final(self).wf(),
            Self::update_effect(*old(self), *final(self), key, r),
    {
        if !self.visible {
            return Ok(Dispatch { response: MessageResponse::NotConsumed, run: None });
        }
        if self.dialog.is_open() {
            self.update_dialog(key)
        } else {
            self.update_list(key)
        }
    }

    /// Records that the outstanding backend call has finished with `outcome`, and
    /// tells the host whether to refresh and what to report.
    pub fn complete_action(&mut self, outcome: Result<(), BackendError>) -> (r: Completion)
        requires
            old(self).wf(),
        ensures
            final(self).wf(),
            !final(self).busy(),
            final(self).title() == old(self).title(),
            final(self).shown() == old(self).shown(),
            final(self).keys() == old(self).keys(),
            final(self).selection() == old(self).selection(),
            final(self).dialog_state() == old(self).dialog_state(),
            r == completion_for(old(self).busy(), outcome),
    {
        let r = completion(self.busy, outcome);
        self.busy = false;
        r
    }
}

} // verus!
