//! The selection over the item list.
//!
//! The selector owns an optional index into an externally-owned collection.
//! Whenever the collection is non-empty the selection is a valid index into
//! it; whenever it is empty the selection is absent. Callers re-clamp the
//! selection whenever the collection's length changes, so the selector never
//! yields an out-of-range index.

use vstd::prelude::*;
use crate::input::spec_clamped;

verus! {

/// What re-clamping against a collection of `length` items does: an empty
/// collection clears the selection, otherwise the selection is clamped into
/// `[0, length - 1]`, starting from the front when it was absent.
pub open spec fn spec_reclamped(sel: Option<usize>, length: nat) -> Option<usize>
    recommends
        length <= usize::MAX,
{
    if length == 0 {
        None
    } else {
        match sel {
            Some(i) => Some(spec_clamped(i as nat, (length - 1) as nat) as usize),
            None => Some(0usize),
        }
    }
}

/// What scrolling down by `n` does: a no-op on an empty collection,
/// otherwise the selection moves down by `n`, clamped into
/// `[0, length - 1]`, starting from the front when it was absent.
pub open spec fn spec_scrolled_down(sel: Option<usize>, n: nat, length: nat) -> Option<usize>
    recommends
        length <= usize::MAX,
{
    if length == 0 {
        sel
    } else {
        let cur = match sel {
            Some(i) => i as nat,
            None => 0nat,
        };
        Some(spec_clamped(cur + n, (length - 1) as nat) as usize)
    }
}

/// What scrolling up by `n` does: a no-op on an empty collection, otherwise
/// the selection moves up by `n`, saturating at the front and clamped into
/// `[0, length - 1]`.
pub open spec fn spec_scrolled_up(sel: Option<usize>, n: nat, length: nat) -> Option<usize>
    recommends
        length <= usize::MAX,
{
    if length == 0 {
        sel
    } else {
        let cur = match sel {
            Some(i) => i as nat,
            None => 0nat,
        };
        let moved = if cur >= n {
            (cur - n) as nat
        } else {
            0nat
        };
        Some(spec_clamped(moved, (length - 1) as nat) as usize)
    }
}

/// The selection over a collection whose length is handed in by the caller.
pub struct ListSelector {
    pub selected: Option<usize>,
}

impl ListSelector {
    /// The selection is a valid index whenever the collection is non-empty,
    /// and absent whenever it is empty.
    pub open spec fn wf(self, length: nat) -> bool {
        match self.selected {
            Some(i) => 0 < length && (i as nat) < length,
            None => length == 0,
        }
    }

    /// A selector with no selection yet.
    pub fn new() -> (s: ListSelector)
        ensures
            s.selected.is_none(),
    {
        ListSelector { selected: None }
    }

    /// The current selection, if any.
    pub fn selected(&self) -> (r: Option<usize>)
        ensures
            r == self.selected,
    {
        self.selected
    }

    /// Moves the selection down by `n`, clamped into range; a no-op when the
    /// collection is empty.
    pub fn scroll_down(&mut self, n: usize, length: usize)
        ensures
            final(self).selected == spec_scrolled_down(
                old(self).selected,
                n as nat,
                length as nat,
            ),
            length > 0 ==> final(self).wf(length as nat),
            length == 0 ==> *final(self) == *old(self),
    {
        if length > 0 {
            let cur: usize = match self.selected {
                Some(i) => i,
                None => 0,
            };
            let moved: usize = cur.saturating_add(n);
            let clamped: usize = if moved > length - 1 {
                length - 1
            } else {
                moved
            };
            self.selected = Some(clamped);
        }
    }

    /// Moves the selection up by `n`, saturating at the front and clamped
    /// into range; a no-op when the collection is empty.
    pub fn scroll_up(&mut self, n: usize, length: usize)
        ensures
            final(self).selected == spec_scrolled_up(
                old(self).selected,
                n as nat,
                length as nat,
            ),
            length > 0 ==> final(self).wf(length as nat),
            length == 0 ==> *final(self) == *old(self),
    {
        if length > 0 {
            let cur: usize = match self.selected {
                Some(i) => i,
                None => 0,
            };
            let moved: usize = cur.saturating_sub(n);
            let clamped: usize = if moved > length - 1 {
                length - 1
            } else {
                moved
            };
            self.selected = Some(clamped);
        }
    }

    /// Re-clamps the selection after the collection's length changed: clears
    /// it when the collection is empty, otherwise clamps it into range.
    pub fn reclamp(&mut self, length: usize)
        ensures
            final(self).selected == spec_reclamped(old(self).selected, length as nat),
            final(self).wf(length as nat),
    {
        if length == 0 {
            self.selected = None;
        } else {
            let cur: usize = match self.selected {
                Some(i) => i,
                None => 0,
            };
            let clamped: usize = if cur > length - 1 {
                length - 1
            } else {
                cur
            };
            self.selected = Some(clamped);
        }
    }
}

} // verus!
