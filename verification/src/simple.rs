use crate::delegate::PickerDelegate;
use crate::delegate::UpdateTask;
use vstd::prelude::*;

verus! {

/// A minimal in-memory delegate: a reference implementation of the delegate
/// contract, usable as-is where no real match source is wired up yet. Its
/// match recomputation is a stand-in — one match per character of the query —
/// and it clamps its cursor whenever the match set shrinks, keeping the
/// documented cursor-in-range invariant.
pub struct SimpleDelegate {
    /// Current number of matches.
    pub count: usize,
    /// Current selection cursor.
    pub selected: usize,
    /// The `secondary` flag of every confirmation received, oldest first.
    pub confirm_log: Vec<bool>,
    /// One entry per dismissal received.
    pub dismiss_log: Vec<bool>,
    /// Every query received, oldest first.
    pub query_log: Vec<String>,
}

impl SimpleDelegate {
    /// A fresh delegate with `count` matches, the cursor on the first match,
    /// and nothing received yet.
    pub fn new(count: usize) -> (d: SimpleDelegate)
        ensures
            d.count == count,
            d.selected == 0,
            d.confirm_log@ == Seq::<bool>::empty(),
            d.dismiss_log@ == Seq::<bool>::empty(),
            d.query_log@ == Seq::<String>::empty(),
    {
        SimpleDelegate {
            count,
            selected: 0,
            confirm_log: Vec::new(),
            dismiss_log: Vec::new(),
            query_log: Vec::new(),
        }
    }
}

impl PickerDelegate for SimpleDelegate {
    type ListItem = (usize, bool);

    open spec fn match_count_spec(&self) -> usize {
        self.count
    }

    open spec fn selected_index_spec(&self) -> usize {
        self.selected
    }

    open spec fn confirms(&self) -> Seq<bool> {
        self.confirm_log@
    }

    open spec fn dismissals(&self) -> nat {
        self.dismiss_log@.len()
    }

    open spec fn queries(&self) -> Seq<Seq<char>> {
        self.query_log@.map_values(|q: String| q@)
    }

    open spec fn render_spec(&self, ix: usize, selected: bool) -> (usize, bool) {
        (ix, selected)
    }

    fn match_count(&self) -> usize {
        self.count
    }

    fn selected_index(&self) -> usize {
        self.selected
    }

    fn set_selected_index(&mut self, ix: usize) {
        self.selected = ix;
    }

    fn update_matches(&mut self, query: String) -> UpdateTask {
        let ghost q: Seq<char> = query@;
        let n: usize = query.as_str().unicode_len();
        self.count = n;
        if self.count == 0 {
            self.selected = 0;
        } else if self.selected >= self.count {
            self.selected = self.count - 1;
        }
        self.query_log.push(query);
        proof {
            assert(self.query_log@.map_values(|s: String| s@) =~= old(
                self,
            ).query_log@.map_values(|s: String| s@).push(q));
        }
        UpdateTask {}
    }

    fn confirm(&mut self, secondary: bool) {
        self.confirm_log.push(secondary);
    }

    fn dismissed(&mut self) {
        self.dismiss_log.push(true);
    }

    fn render_match(&self, ix: usize, selected: bool) -> (usize, bool) {
        (ix, selected)
    }
}

} // verus!
