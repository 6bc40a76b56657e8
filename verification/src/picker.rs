use crate::delegate::PickerDelegate;
use crate::delegate::UpdateTask;
use crate::scroll::ScrollHandle;
use vstd::prelude::*;

verus! {

/// The index `select_next` moves to: one past `i`, clamped to the last match.
pub open spec fn next_index(i: usize, n: usize) -> usize
    recommends
        n > 0,
{
    if i + 1 < n {
        (i + 1) as usize
    } else {
        (n - 1) as usize
    }
}

/// The index `select_prev` moves to: one before `i`, saturating at zero.
pub open spec fn prev_index(i: usize) -> usize {
    if i == 0 {
        0
    } else {
        (i - 1) as usize
    }
}

/// `next_index` is exactly `min(i + 1, n - 1)`, and `prev_index` exactly
/// `max(i - 1, 0)`: stepping the selection clamps at both ends of the match
/// range.
pub proof fn lemma_step_formulas(i: usize, n: usize)
    requires
        n > 0,
    ensures
        next_index(i, n) as int == vstd::math::min(i as int + 1, n as int - 1),
        prev_index(i) as int == vstd::math::max(i as int - 1, 0),
{
}

/// When matches exist and the cursor is in range, every navigation target
/// (step forward, step back, first, last) is again in range.
pub proof fn lemma_navigation_in_range(i: usize, n: usize)
    requires
        n > 0,
        i < n,
    ensures
        next_index(i, n) < n,
        prev_index(i) < n,
        n - 1 < n,
{
}

/// The picker controller: owns one delegate and a scroll anchor, translates
/// navigation and confirmation actions into delegate calls, and tracks at most
/// one in-flight asynchronous match update.
pub struct Picker<D: PickerDelegate> {
    /// The delegate owning the match set and the selection cursor, supplied at
    /// construction and never swapped.
    pub delegate: D,
    /// Scroll requests issued to the virtualized list.
    pub scroll_handle: ScrollHandle,
    /// The most recently started match update still tracked as in flight.
    pub pending_update_matches: Option<UpdateTask>,
    /// How many re-renders the controller has signalled.
    pub notify_count: u64,
}

impl<D: PickerDelegate> Picker<D> {
    /// A fresh controller around `delegate`: nothing scrolled, no update in
    /// flight, no re-render signalled yet.
    pub fn new(delegate: D) -> (p: Picker<D>)
        ensures
            p.delegate == delegate,
            p.scroll_handle.requests@ == Seq::<usize>::empty(),
            p.pending_update_matches is None,
            p.notify_count == 0,
    {
        Picker {
            delegate,
            scroll_handle: ScrollHandle::new(),
            pending_update_matches: None,
            notify_count: 0,
        }
    }

    /// Step the selection forward: to `min(current + 1, match_count - 1)`.
    /// With no matches, a complete no-op.
    pub fn select_next(&mut self)
        ensures
            old(self).delegate.match_count_spec() == 0 ==> *final(self) == *old(self),
            old(self).delegate.match_count_spec() > 0 ==> ({
                let ix = next_index(
                    old(self).delegate.selected_index_spec(),
                    old(self).delegate.match_count_spec(),
                );
                &&& final(self).delegate.selected_index_spec() == ix
                &&& final(self).delegate.match_count_spec()
                    == old(self).delegate.match_count_spec()
                &&& final(self).scroll_handle.requests@
                    == old(self).scroll_handle.requests@.push(ix)
                &&& final(self).delegate.confirms() == old(self).delegate.confirms()
                &&& final(self).delegate.dismissals() == old(self).delegate.dismissals()
                &&& final(self).delegate.queries() == old(self).delegate.queries()
                &&& final(self).pending_update_matches == old(self).pending_update_matches
                &&& final(self).notify_count == old(self).notify_count
            }),
    {
        let count: usize = self.delegate.match_count();
        if count > 0 {
            let index: usize = self.delegate.selected_index();
            let ix: usize = if index < count - 1 {
                index + 1
            } else {
                count - 1
            };
            self.delegate.set_selected_index(ix);
            self.scroll_handle.scroll_to_item(ix);
        }
    }

    /// Step the selection back: to `max(current - 1, 0)`, saturating at zero.
    /// With no matches, a complete no-op. Assumes the delegate keeps its
    /// cursor inside the match range whenever matches exist (the delegate's
    /// documented responsibility), since the index sent back to it must lie in
    /// that range.
    pub fn select_prev(&mut self)
        requires
            old(self).delegate.match_count_spec() > 0 ==> old(self).delegate.selected_index_spec()
                < old(self).delegate.match_count_spec(),
        ensures
            old(self).delegate.match_count_spec() == 0 ==> *final(self) == *old(self),
            old(self).delegate.match_count_spec() > 0 ==> ({
                let ix = prev_index(old(self).delegate.selected_index_spec());
                &&& final(self).delegate.selected_index_spec() == ix
                &&& final(self).delegate.match_count_spec()
                    == old(self).delegate.match_count_spec()
                &&& final(self).scroll_handle.requests@
                    == old(self).scroll_handle.requests@.push(ix)
                &&& final(self).delegate.confirms() == old(self).delegate.confirms()
                &&& final(self).delegate.dismissals() == old(self).delegate.dismissals()
                &&& final(self).delegate.queries() == old(self).delegate.queries()
                &&& final(self).pending_update_matches == old(self).pending_update_matches
                &&& final(self).notify_count == old(self).notify_count
            }),
    {
        let count: usize = self.delegate.match_count();
        if count > 0 {
            let index: usize = self.delegate.selected_index();
            let ix: usize = if index == 0 {
                0
            } else {
                index - 1
            };
            self.delegate.set_selected_index(ix);
            self.scroll_handle.scroll_to_item(ix);
        }
    }

    /// Move the selection to the first match. With no matches, a complete
    /// no-op.
    pub fn select_first(&mut self)
        ensures
            old(self).delegate.match_count_spec() == 0 ==> *final(self) == *old(self),
            old(self).delegate.match_count_spec() > 0 ==> ({
                &&& final(self).delegate.selected_index_spec() == 0
                &&& final(self).delegate.match_count_spec()
                    == old(self).delegate.match_count_spec()
                &&& final(self).scroll_handle.requests@
                    == old(self).scroll_handle.requests@.push(0usize)
                &&& final(self).delegate.confirms() == old(self).delegate.confirms()
                &&& final(self).delegate.dismissals() == old(self).delegate.dismissals()
                &&& final(self).delegate.queries() == old(self).delegate.queries()
                &&& final(self).pending_update_matches == old(self).pending_update_matches
                &&& final(self).notify_count == old(self).notify_count
            }),
    {
        let count: usize = self.delegate.match_count();
        if count > 0 {
            self.delegate.set_selected_index(0);
            self.scroll_handle.scroll_to_item(0);
        }
    }

    /// Move the selection to the last match. With no matches, a complete
    /// no-op.
    pub fn select_last(&mut self)
        ensures
            old(self).delegate.match_count_spec() == 0 ==> *final(self) == *old(self),
            old(self).delegate.match_count_spec() > 0 ==> ({
                let ix = (old(self).delegate.match_count_spec() - 1) as usize;
                &&& final(self).delegate.selected_index_spec() == ix
                &&& final(self).delegate.match_count_spec()
                    == old(self).delegate.match_count_spec()
                &&& final(self).scroll_handle.requests@
                    == old(self).scroll_handle.requests@.push(ix)
                &&& final(self).delegate.confirms() == old(self).delegate.confirms()
                &&& final(self).delegate.dismissals() == old(self).delegate.dismissals()
                &&& final(self).delegate.queries() == old(self).delegate.queries()
                &&& final(self).pending_update_matches == old(self).pending_update_matches
                &&& final(self).notify_count == old(self).notify_count
            }),
    {
        let count: usize = self.delegate.match_count();
        if count > 0 {
            self.delegate.set_selected_index(count - 1);
            self.scroll_handle.scroll_to_item(count - 1);
        }
    }

    /// Forward a cancellation to the delegate: exactly one dismissal, nothing
    /// else touched.
    pub fn cancel(&mut self)
        ensures
            final(self).delegate.dismissals() == old(self).delegate.dismissals() + 1,
            final(self).delegate.confirms() == old(self).delegate.confirms(),
            final(self).delegate.queries() == old(self).delegate.queries(),
            final(self).scroll_handle == old(self).scroll_handle,
            final(self).pending_update_matches == old(self).pending_update_matches,
            final(self).notify_count == old(self).notify_count,
    {
        self.delegate.dismissed();
    }

    /// Forward a primary confirmation: exactly one `confirm(false)` call,
    /// nothing else touched.
    pub fn confirm(&mut self)
        ensures
            final(self).delegate.confirms() == old(self).delegate.confirms().push(false),
            final(self).delegate.dismissals() == old(self).delegate.dismissals(),
            final(self).delegate.queries() == old(self).delegate.queries(),
            final(self).scroll_handle == old(self).scroll_handle,
            final(self).pending_update_matches == old(self).pending_update_matches,
            final(self).notify_count == old(self).notify_count,
    {
        self.delegate.confirm(false);
    }

    /// Forward a secondary confirmation: exactly one `confirm(true)` call,
    /// nothing else touched.
    pub fn secondary_confirm(&mut self)
        ensures
            final(self).delegate.confirms() == old(self).delegate.confirms().push(true),
            final(self).delegate.dismissals() == old(self).delegate.dismissals(),
            final(self).delegate.queries() == old(self).delegate.queries(),
            final(self).scroll_handle == old(self).scroll_handle,
            final(self).pending_update_matches == old(self).pending_update_matches,
            final(self).notify_count == old(self).notify_count,
    {
        self.delegate.confirm(true);
    }

    /// Hand `query` to the delegate for (re)computation, then refresh once
    /// immediately — before the delegate's asynchronous work settles — and
    /// track the returned task as the one pending update, superseding any
    /// earlier handle (the earlier work is not cancelled).
    pub fn update_matches(&mut self, query: String)
        requires
            old(self).notify_count < u64::MAX,
        ensures
            final(self).delegate.queries() == old(self).delegate.queries().push(query@),
            final(self).delegate.confirms() == old(self).delegate.confirms(),
            final(self).delegate.dismissals() == old(self).delegate.dismissals(),
            final(self).scroll_handle.requests@ == old(self).scroll_handle.requests@.push(
                final(self).delegate.selected_index_spec(),
            ),
            final(self).pending_update_matches is Some,
            final(self).notify_count == old(self).notify_count + 1,
    {
        let update: UpdateTask = self.delegate.update_matches(query);
        self.matches_updated();
        self.pending_update_matches = Some(update);
    }

    /// The shared "matches updated" refresh: scroll to the delegate's current
    /// selection, clear the pending-update slot, and signal a re-render. Runs
    /// synchronously inside `update_matches`, and again — called by the
    /// embedding — when a pending update resolves while the picker is still
    /// live; a resolution after the picker is gone is silently skipped by the
    /// embedding instead.
    pub fn matches_updated(&mut self)
        requires
            old(self).notify_count < u64::MAX,
        ensures
            final(self).delegate == old(self).delegate,
            final(self).scroll_handle.requests@ == old(self).scroll_handle.requests@.push(
                old(self).delegate.selected_index_spec(),
            ),
            final(self).pending_update_matches is None,
            final(self).notify_count == old(self).notify_count + 1,
    {
        let index: usize = self.delegate.selected_index();
        self.scroll_handle.scroll_to_item(index);
        self.pending_update_matches = None;
        self.notify_count = self.notify_count + 1;
    }

    /// Rows for the visible index range `[start, end)`: each row comes from
    /// the delegate, flagged as selected exactly when its index is the current
    /// selection. This is the row producer the virtualized list repaints with;
    /// it never touches indices outside the visible range.
    pub fn render_visible(&self, start: usize, end: usize) -> (rows: Vec<D::ListItem>)
        requires
            start <= end,
            end <= self.delegate.match_count_spec(),
        ensures
            rows@.len() == end - start,
            forall|k: int|
                0 <= k < end - start ==> rows@[k] == self.delegate.render_spec(
                    (start + k) as usize,
                    start + k == self.delegate.selected_index_spec(),
                ),
    {
        let selected_ix: usize = self.delegate.selected_index();
        let mut rows: Vec<D::ListItem> = Vec::new();
        let mut ix: usize = start;
        while ix < end
            invariant
                start <= ix <= end,
                end <= self.delegate.match_count_spec(),
                selected_ix == self.delegate.selected_index_spec(),
                rows@.len() == ix - start,
                forall|k: int|
                    0 <= k < ix - start ==> rows@[k] == self.delegate.render_spec(
                        (start + k) as usize,
                        start + k == self.delegate.selected_index_spec(),
                    ),
            decreases end - ix,
        {
            let row = self.delegate.render_match(ix, ix == selected_ix);
            rows.push(row);
            ix = ix + 1;
        }
        rows
    }
}

} // verus!
