//! The selection state: which of a fixed list of tabs is selected.
use vstd::prelude::*;

verus! {

/// The index after one step forward over `len` tabs: one more, but never past
/// the last tab. Over no tabs nothing moves.
pub open spec fn next_index(len: nat, i: nat) -> nat {
    if len == 0 {
        i
    } else if i + 1 < len {
        i + 1
    } else {
        (len - 1) as nat
    }
}

/// The index after one step back: one less, but never below zero.
pub open spec fn prev_index(i: nat) -> nat {
    if i == 0 {
        0
    } else {
        (i - 1) as nat
    }
}

/// The index selected by the one-based position `k`; position zero selects
/// the first tab. No upper bound is applied.
pub open spec fn set_index(k: nat) -> nat {
    if k == 0 {
        0
    } else {
        (k - 1) as nat
    }
}

/// The index after `k` steps forward.
pub open spec fn next_times(len: nat, i: nat, k: nat) -> nat
    decreases k,
{
    if k == 0 {
        i
    } else {
        next_times(len, next_index(len, i), (k - 1) as nat)
    }
}

/// The index after `k` steps back.
pub open spec fn prev_times(i: nat, k: nat) -> nat
    decreases k,
{
    if k == 0 {
        i
    } else {
        prev_times(prev_index(i), (k - 1) as nat)
    }
}

/// The tab read at index `i`: the tab there if `i` is in range, otherwise the
/// last tab, and nothing when there are no tabs.
pub open spec fn tab_at<T>(tabs: Seq<T>, i: nat) -> Option<T> {
    if tabs.len() == 0 {
        None
    } else if i < tabs.len() {
        Some(tabs[i as int])
    } else {
        Some(tabs.last())
    }
}

/// A fixed, ordered list of tabs and the index of the selected one.
///
/// The index may lie past the end after `set`; reads fall back to the last tab.
pub struct TabsState<T> {
    tabs_list: Vec<T>,
    current_tab: usize,
}

impl<T> TabsState<T> {
    /// The tabs, in order.
    pub closed spec fn tab_seq(&self) -> Seq<T> {
        self.tabs_list@
    }

    /// The selection index.
    pub closed spec fn index(&self) -> nat {
        self.current_tab as nat
    }

    /// A state over `possible_tabs` with the first tab selected.
    pub fn new(possible_tabs: Vec<T>) -> (r: Self)
        ensures
            r.tab_seq() == possible_tabs@,
            r.index() == 0,
    {
        TabsState { tabs_list: possible_tabs, current_tab: 0 }
    }

    /// Moves the selection one tab forward, stopping at the last tab; an index
    /// past the end comes back to the last tab. Over no tabs nothing moves.
    pub fn next(&mut self)
        ensures
            final(self).tab_seq() == old(self).tab_seq(),
            final(self).index() == next_index(old(self).tab_seq().len(), old(self).index()),
    {
        let len = self.tabs_list.len();
        if len == 0 {
            return;
        }
        if self.current_tab < len - 1 {
            self.current_tab = self.current_tab + 1;
        } else {
            self.current_tab = len - 1;
        }
    }

    /// Moves the selection one tab back, stopping at the first tab.
    pub fn prev(&mut self)
        ensures
            final(self).tab_seq() == old(self).tab_seq(),
            final(self).index() == prev_index(old(self).index()),
    {
        self.current_tab = self.current_tab.saturating_sub(1);
    }

    /// Selects the tab at the one-based position `idx`; zero selects the first.
    /// A position past the end is kept as it is: `current` then reads the last tab.
    pub fn set(&mut self, idx: usize)
        ensures
            final(self).tab_seq() == old(self).tab_seq(),
            final(self).index() == set_index(idx as nat),
    {
        self.current_tab = idx.saturating_sub(1);
    }

    /// The selection index.
    pub fn current_index(&self) -> (r: usize)
        ensures
            r == self.index(),
    {
        self.current_tab
    }

    /// The tabs, in order.
    pub fn tabs(&self) -> (r: &Vec<T>)
        ensures
            r@ == self.tab_seq(),
    {
        &self.tabs_list
    }
}

impl<T: Copy> TabsState<T> {
    /// The selected tab, the last tab if the index lies past the end, and
    /// nothing if there are no tabs.
    pub fn current(&self) -> (r: Option<T>)
        ensures
            r == tab_at(self.tab_seq(), self.index()),
    {
        let len = self.tabs_list.len();
        if len == 0 {
            None
        } else if self.current_tab < len {
            Some(self.tabs_list[self.current_tab])
        } else {
            Some(self.tabs_list[len - 1])
        }
    }
}

/// `k` steps forward from index `i` over `len` tabs end on the smaller of
/// `i + k` and the last index.
pub proof fn lemma_next_times(len: nat, i: nat, k: nat)
    requires
        len > 0,
        k > 0,
    ensures
        next_times(len, i, k) == if i + k < len {
            i + k
        } else {
            (len - 1) as nat
        },
    decreases k,
{
    if k > 1 {
        lemma_next_times(len, next_index(len, i), (k - 1) as nat);
    } else {
        assert(next_times(len, next_index(len, i), 0) == next_index(len, i));
    }
}

/// `k` steps back from index `i` end on `i - k`, or on zero when `k` is at least `i`.
pub proof fn lemma_prev_times(i: nat, k: nat)
    ensures
        prev_times(i, k) == if k >= i {
            0
        } else {
            (i - k) as nat
        },
    decreases k,
{
    if k > 0 {
        lemma_prev_times(prev_index(i), (k - 1) as nat);
    }
}

/// Over a non-empty list of `n` tabs, calling `next` `n + 5` times from any
/// state leaves the last tab selected.
pub proof fn next_clamps_at_last<T>(s: TabsState<T>)
    requires
        s.tab_seq().len() > 0,
    ensures
        next_times(s.tab_seq().len(), s.index(), s.tab_seq().len() + 5) == s.tab_seq().len() - 1,
{
    lemma_next_times(s.tab_seq().len(), s.index(), s.tab_seq().len() + 5);
}

/// Calling `prev` at least as many times as the selection index leaves the
/// first tab selected; the index never goes below zero.
pub proof fn prev_saturates_at_first<T>(s: TabsState<T>, k: nat)
    requires
        k >= s.index(),
    ensures
        prev_times(s.index(), k) == 0,
{
    lemma_prev_times(s.index(), k);
}

/// `set(0)` selects index zero; `set(k)` for `1 <= k <= n` selects index
/// `k - 1`; and `set(k)` for `k > n` makes `current` read the last tab.
pub proof fn set_selects<T>(tabs: Seq<T>, k: nat)
    ensures
        k == 0 ==> set_index(k) == 0,
        1 <= k <= tabs.len() ==> set_index(k) == k - 1,
        k > tabs.len() > 0 ==> tab_at(tabs, set_index(k)) == Some(tabs.last()),
{
}

} // verus!
