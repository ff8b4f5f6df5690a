use vstd::prelude::*;

use crate::dialog::{after_drain, after_key, after_open, cycle_step, drained, DecisionSet, DialogState};
use crate::action::Dispatch;
use crate::errors::PageError;
use crate::keys::Key;
use crate::page::ResourcePage;
use crate::resource::Resource;
use crate::selection::{clamp_index, index_valid, min_int, nav_index, run_nav, Nav};

verus! {

/// On an empty snapshot no sequence of moves and jumps selects anything.
pub proof fn lemma_empty_navigation(navs: Seq<Nav>)
    ensures
        run_nav(None, 0, navs) == None::<int>,
    decreases navs.len(),
{
    if navs.len() > 0 {
        lemma_empty_navigation(navs.drop_first());
    }
}

proof fn lemma_downs_from(i: int, n: int, navs: Seq<Nav>)
    requires
        n > 0,
        0 <= i < n,
        forall|j: int| 0 <= j < navs.len() ==> navs[j] == Nav::Down,
    ensures
        run_nav(Some(i), n, navs) == Some(min_int(i + navs.len(), n - 1)),
    decreases navs.len(),
{
    if navs.len() > 0 {
        let rest = navs.drop_first();
        assert forall|j: int| 0 <= j < rest.len() implies rest[j] == Nav::Down by {
            assert(rest[j] == navs[j + 1]);
        }
        lemma_downs_from(min_int(i + 1, n - 1), n, rest);
    }
}

/// Moving down over a snapshot of `n > 0` records never leaves it, never wraps
/// around, and after `n` moves rests on the last record for good.
pub proof fn lemma_down_converges(idx: Option<int>, n: int, navs: Seq<Nav>)
    requires
        n > 0,
        index_valid(idx, n),
        forall|j: int| 0 <= j < navs.len() ==> navs[j] == Nav::Down,
    ensures
        index_valid(run_nav(idx, n, navs), n),
        navs.len() >= n ==> run_nav(idx, n, navs) == Some(n - 1),
{
    match idx {
        Some(i) => {
            lemma_downs_from(i, n, navs);
        },
        None => {
            if navs.len() > 0 {
                let rest = navs.drop_first();
                assert forall|j: int| 0 <= j < rest.len() implies rest[j] == Nav::Down by {
                    assert(rest[j] == navs[j + 1]);
                }
                assert(nav_index(idx, n, navs[0]) == Some(0int));
                lemma_downs_from(0, n, rest);
            }
        },
    }
}

/// A refresh that shrinks the snapshot from `n` to `m` records leaves the
/// selection within the new bound, and clears it when nothing is left.
pub proof fn lemma_shrinking_refresh(idx: Option<int>, n: int, m: int)
    requires
        index_valid(idx, n),
        0 <= m < n,
    ensures
        index_valid(clamp_index(idx, m), m),
        m == 0 ==> clamp_index(idx, m) == None::<int>,
        m > 0 && idx is Some ==> clamp_index(idx, m) == Some(min_int(idx->0, m - 1)),
{
}

/// Every operation of the dialog either leaves its state alone or takes one step
/// along `Closed -> Open -> Resolved -> Closed`; opening a dialog that is open or
/// resolved changes nothing.
pub proof fn lemma_dialog_cycle<D: DecisionSet, A>(s: DialogState<D, A>, prompt: String, action: A, key: Key)
    ensures
        cycle_step(s, after_open(s, prompt, action)),
        cycle_step(s, after_key(s, key)),
        cycle_step(s, after_drain(s)),
        !(s is Closed) ==> after_open(s, prompt, action) == s,
{
}

/// Draining a dialog that is not resolved hands nothing back and changes nothing,
/// however often it is repeated.
pub proof fn lemma_drain_outside_resolved<D, A>(s: DialogState<D, A>)
    requires
        !(s is Resolved),
    ensures
        drained(s) == None::<(D, A)>,
        after_drain(s) == s,
        after_drain(after_drain(s)) == s,
{
}

/// While a backend call is outstanding no key hands out another one: the page
/// stays busy, and an action key is refused with `ActionInProgress`.
pub proof fn lemma_one_call_in_flight<R: Resource>(
    before: ResourcePage<R>,
    after: ResourcePage<R>,
    key: Key,
    r: Result<Dispatch, PageError>,
)
    requires
        before.wf(),
        before.busy(),
        ResourcePage::update_effect(before, after, key, r),
    ensures
        after.busy(),
        match r {
            Ok(d) => d.run is None,
            Err(e) => e == PageError::ActionInProgress,
        },
{
}

} // verus!
