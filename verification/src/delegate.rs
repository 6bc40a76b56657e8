use vstd::prelude::*;

verus! {

/// Handle standing for one in-flight asynchronous match recomputation,
/// returned by [`PickerDelegate::update_matches`]. The controller tracks at
/// most one such handle at a time; the embedding resumes the controller (via
/// `Picker::matches_updated`) when the work behind the most recent handle
/// settles, if the picker is still live by then.
pub struct UpdateTask {}

/// Capability contract every concrete delegate must provide. A delegate owns
/// the match set and the selection cursor, recomputes matches for a query at
/// its own pace, and produces renderable rows; the controller drives it only
/// through these methods.
///
/// The views `confirms`, `dismissals` and `queries` record the calls the
/// controller has forwarded so far, so that each controller operation can
/// state exactly which delegate effects it caused.
pub trait PickerDelegate: Sized {
    /// Renderable row produced for one visible match.
    type ListItem;

    /// Current number of matches.
    spec fn match_count_spec(&self) -> usize;

    /// Current selection cursor; meaningful only when `match_count_spec() > 0`.
    spec fn selected_index_spec(&self) -> usize;

    /// The `secondary` flag of every confirmation received so far, oldest first.
    spec fn confirms(&self) -> Seq<bool>;

    /// How many times the picker was dismissed.
    spec fn dismissals(&self) -> nat;

    /// Every query handed to `update_matches` so far, oldest first.
    spec fn queries(&self) -> Seq<Seq<char>>;

    /// The row produced for match `ix` under the given selection flag.
    spec fn render_spec(&self, ix: usize, selected: bool) -> Self::ListItem;

    /// Current number of matches; a pure read.
    fn match_count(&self) -> (n: usize)
        ensures
            n == self.match_count_spec(),
    ;

    /// Current selection cursor; a pure read.
    fn selected_index(&self) -> (ix: usize)
        ensures
            ix == self.selected_index_spec(),
    ;

    /// Move the selection cursor to `ix`. The caller guarantees `ix` lies
    /// within the match set whenever matches exist.
    fn set_selected_index(&mut self, ix: usize)
        requires
            old(self).match_count_spec() > 0 ==> ix < old(self).match_count_spec(),
        ensures
            final(self).match_count_spec() == old(self).match_count_spec(),
            final(self).selected_index_spec() == ix,
            final(self).confirms() == old(self).confirms(),
            final(self).dismissals() == old(self).dismissals(),
            final(self).queries() == old(self).queries(),
    ;

    /// Begin (re)computing the match set for `query`. The delegate may change
    /// its match count and selection cursor as a side effect, at its own pace
    /// and atomicity; the returned task stands for the part of the computation
    /// still in flight.
    fn update_matches(&mut self, query: String) -> (task: UpdateTask)
        ensures
            final(self).queries() == old(self).queries().push(query@),
            final(self).confirms() == old(self).confirms(),
            final(self).dismissals() == old(self).dismissals(),
    ;

    /// The user accepted the current selection; `secondary` selects an
    /// alternate action whose meaning is entirely the delegate's.
    fn confirm(&mut self, secondary: bool)
        ensures
            final(self).confirms() == old(self).confirms().push(secondary),
            final(self).dismissals() == old(self).dismissals(),
            final(self).queries() == old(self).queries(),
    ;

    /// The user cancelled the picker; the delegate decides what dismissal
    /// means.
    fn dismissed(&mut self)
        ensures
            final(self).dismissals() == old(self).dismissals() + 1,
            final(self).confirms() == old(self).confirms(),
            final(self).queries() == old(self).queries(),
    ;

    /// Produce a renderable row for match `ix`; called only for indices inside
    /// the currently visible range, never for the whole match set.
    fn render_match(&self, ix: usize, selected: bool) -> (row: Self::ListItem)
        requires
            ix < self.match_count_spec(),
        ensures
            row == self.render_spec(ix, selected),
    ;
}

} // verus!
