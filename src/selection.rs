use vstd::prelude::*;

use crate::errors::{BackendError, PageError};

verus! {

/// A navigation request on the list of records.
#[derive(Clone, Copy, Debug, PartialEq, Eq, Structural)]
pub enum Nav {
    /// One record towards the top.
    Up,
    /// One record towards the bottom.
    Down,
    /// The first record.
    First,
    /// The last record.
    Last,
}

pub open spec fn min_int(a: int, b: int) -> int {
    if a <= b {
        a
    } else {
        b
    }
}

/// A selection index resolves into a snapshot of `len` records (or is absent).
pub open spec fn index_valid(idx: Option<int>, len: int) -> bool {
    match idx {
        Some(i) => 0 <= i < len,
        None => true,
    }
}

/// The selection after one navigation step over a snapshot of `len` records:
/// nothing moves on an empty snapshot, an absent selection starts at the top,
/// and a step never leaves `[0, len - 1]` nor wraps around.
pub open spec fn nav_index(idx: Option<int>, len: int, nav: Nav) -> Option<int> {
    if len <= 0 {
        idx
    } else {
        match nav {
            Nav::Down => match idx {
                Some(i) => Some(min_int(i + 1, len - 1)),
                None => Some(0),
            },
            Nav::Up => match idx {
                Some(i) => Some(if i > 0 { i - 1 } else { 0 }),
                None => Some(0),
            },
            Nav::First => Some(0),
            Nav::Last => Some(len - 1),
        }
    }
}

/// The selection after a sequence of navigation steps.
pub open spec fn run_nav(idx: Option<int>, len: int, navs: Seq<Nav>) -> Option<int>
    decreases navs.len(),
{
    if navs.len() == 0 {
        idx
    } else {
        run_nav(nav_index(idx, len, navs[0]), len, navs.drop_first())
    }
}

/// The selection carried over to a fresh snapshot of `len` records: cleared when
/// the snapshot is empty, otherwise pulled back to the last record if it would
/// point past it.
pub open spec fn clamp_index(idx: Option<int>, len: int) -> Option<int> {
    if len <= 0 {
        None
    } else {
        match idx {
            Some(i) => Some(min_int(i, len - 1)),
            None => None,
        }
    }
}

/// The snapshot of records last fetched from the backend, with the selection over it.
pub struct SelectionList<R> {
    items: Vec<R>,
    selected: Option<usize>,
}

impl<R> SelectionList<R> {
    /// The records, in the order the backend returned them.
    pub closed spec fn records(&self) -> Seq<R> {
        self.items@
    }

    /// The selected position, if any.
    pub closed spec fn index(&self) -> Option<int> {
        match self.selected {
            Some(i) => Some(i as int),
            None => None,
        }
    }

    /// The selection always resolves into the snapshot.
    pub open spec fn wf(&self) -> bool {
        index_valid(self.index(), self.records().len() as int)
    }

    /// The record under the selection, if the selection resolves.
    pub open spec fn current_spec(&self) -> Option<R> {
        match self.index() {
            Some(i) => if 0 <= i < self.records().len() {
                Some(self.records()[i])
            } else {
                None
            },
            None => None,
        }
    }

    pub fn new() -> (r: Self)
        ensures
            r.records() == Seq::<R>::empty(),
            r.index() == None::<int>,
            r.wf(),
    {
        SelectionList { items: Vec::new(), selected: None }
    }

    pub fn len(&self) -> (r: usize)
        ensures
            r == self.records().len(),
    {
        self.items.len()
    }

    /// The records, for display.
    pub fn items(&self) -> (r: &Vec<R>)
        ensures
            r@ == self.records(),
    {
        &self.items
    }

    pub fn selected(&self) -> (r: Option<usize>)
        ensures
            match r {
                Some(i) => self.index() == Some(i as int),
                None => self.index() == None::<int>,
            },
    {
        self.selected
    }

    /// The record at the selection; `None` when nothing is selected or the
    /// selection no longer resolves.
    pub fn current(&self) -> (r: Option<&R>)
        ensures
            match r {
                Some(rec) => self.current_spec() == Some(*rec),
                None => self.current_spec() == None::<R>,
            },
    {
        match self.selected {
            Some(i) => if i < self.items.len() {
                Some(&self.items[i])
            } else {
                None
            },
            None => None,
        }
    }

    /// Moves the selection one record down, stopping at the last one.
    pub fn increment_list(&mut self)
        requires
            old(self).wf(),
        ensures
            final(self).wf(),
            final(self).records() == old(self).records(),
            final(self).index() == nav_index(old(self).index(), old(self).records().len() as int, Nav::Down),
    {
        if self.items.len() > 0 {
            match self.selected {
                Some(i) => if i < self.items.len() - 1 {
                    self.selected = Some(i + 1);
                },
                None => {
                    self.selected = Some(0);
                },
            }
        }
    }

    /// Moves the selection one record up, stopping at the first one.
    pub fn decrement_list(&mut self)
        requires
            old(self).wf(),
        ensures
            final(self).wf(),
            final(self).records() == old(self).records(),
            final(self).index() == nav_index(old(self).index(), old(self).records().len() as int, Nav::Up),
    {
        if self.items.len() > 0 {
            match self.selected {
                Some(i) => if i > 0 {
                    self.selected = Some(i - 1);
                },
                None => {
                    self.selected = Some(0);
                },
            }
        }
    }

    /// Selects the first record; nothing happens on an empty snapshot.
    pub fn jump_first(&mut self)
        requires
            old(self).wf(),
        ensures
            final(self).wf(),
            final(self).records() == old(self).records(),
            final(self).index() == nav_index(old(self).index(), old(self).records().len() as int, Nav::First),
    {
        if self.items.len() > 0 {
            self.selected = Some(0);
        }
    }

    /// Selects the last record; nothing happens on an empty snapshot.
    pub fn jump_last(&mut self)
        requires
            old(self).wf(),
        ensures
            final(self).wf(),
            final(self).records() == old(self).records(),
            final(self).index() == nav_index(old(self).index(), old(self).records().len() as int, Nav::Last),
    {
        if self.items.len() > 0 {
            self.selected = Some(self.items.len() - 1);
        }
    }

    /// Performs one navigation step.
    pub fn navigate(&mut self, nav: Nav)
        requires
            old(self).wf(),
        ensures
            final(self).wf(),
            final(self).records() == old(self).records(),
            final(self).index() == nav_index(old(self).index(), old(self).records().len() as int, nav),
    {
        match nav {
            Nav::Up => self.decrement_list(),
            Nav::Down => self.increment_list(),
            Nav::First => self.jump_first(),
            Nav::Last => self.jump_last(),
        }
    }

    /// Replaces the snapshot with what the backend returned. On a failed fetch the
    /// previous snapshot and selection stay as they were and the page reports the
    /// backend as unavailable; otherwise the selection is clamped to the new length.
    pub fn refresh(&mut self, fetched: Result<Vec<R>, BackendError>) -> (r: Result<(), PageError>)
        requires
            old(self).wf(),
        ensures
            final(self).wf(),
            match fetched {
                Ok(v) => {
                    &&& r == Ok::<(), PageError>(())
                    &&& final(self).records() == v@
                    &&& final(self).index() == clamp_index(old(self).index(), v@.len() as int)
                },
                Err(_) => {
                    &&& r == Err::<(), PageError>(PageError::BackendUnavailable)
                    &&& *final(self) == *old(self)
                },
            },
    {
        match fetched {
            Ok(v) => {
                let n = v.len();
                self.items = v;
                if n == 0 {
                    self.selected = None;
                } else {
                    match self.selected {
                        Some(i) => if i > n - 1 {
                            self.selected = Some(n - 1);
                        },
                        None => {},
                    }
                }
                Ok(())
            },
            Err(_) => Err(PageError::BackendUnavailable),
        }
    }
}

} // verus!
