use vstd::prelude::*;

verus! {

/// Scroll anchor for the virtualized list: the controller appends
/// scroll-to-item requests here, and the list collaborator reads them on
/// repaint to bring the requested item into view.
pub struct ScrollHandle {
    /// Every scroll-to-item request issued so far, oldest first.
    pub requests: Vec<usize>,
}

impl ScrollHandle {
    /// A fresh handle with no requests.
    pub fn new() -> (h: ScrollHandle)
        ensures
            h.requests@ == Seq::<usize>::empty(),
    {
        ScrollHandle { requests: Vec::new() }
    }

    /// Ask the list to bring item `ix` into view.
    pub fn scroll_to_item(&mut self, ix: usize)
        ensures
            final(self).requests@ == old(self).requests@.push(ix),
    {
        self.requests.push(ix);
    }

    /// The most recent scroll request, if any was ever issued.
    pub fn last_request(&self) -> (r: Option<usize>)
        ensures
            self.requests@.len() == 0 ==> r is None,
            self.requests@.len() > 0 ==> r == Some(self.requests@.last()),
    {
        if self.requests.len() == 0 {
            None
        } else {
            Some(self.requests[self.requests.len() - 1])
        }
    }

    /// How many scroll requests have been issued in total.
    pub fn request_count(&self) -> (n: usize)
        ensures
            n == self.requests@.len(),
    {
        self.requests.len()
    }
}

} // verus!
