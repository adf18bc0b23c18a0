use vstd::prelude::*;

verus! {

/// The tabs of the interface, in display order.
#[derive(Debug, Clone, Copy, PartialEq, Eq, Structural)]
pub enum Tab {
    Packages,
    Search,
    Updates,
}

/// Position of a tab in the tab bar.
pub open spec fn tab_position(t: Tab) -> int {
    match t {
        Tab::Packages => 0,
        Tab::Search => 1,
        Tab::Updates => 2,
    }
}

/// The tab to the right of `t`, wrapping around from the last to the first.
pub open spec fn next_tab(t: Tab) -> Tab {
    tab_at(tab_position(t) + 1)
}

/// The tab to the left of `t`, wrapping around from the first to the last.
pub open spec fn prev_tab(t: Tab) -> Tab {
    tab_at(tab_position(t) + 2)
}

/// The tab at a position of the tab bar (positions taken modulo three).
pub open spec fn tab_at(i: int) -> Tab {
    let k = i % 3;
    if k == 0 {
        Tab::Packages
    } else if k == 1 {
        Tab::Search
    } else {
        Tab::Updates
    }
}

impl Tab {
    /// The tab to the right, wrapping around from the last to the first.
    pub fn next(self) -> (r: Self)
        ensures
            r == next_tab(self),
    {
        match self {
            Tab::Packages => Tab::Search,
            Tab::Search => Tab::Updates,
            Tab::Updates => Tab::Packages,
        }
    }

    /// The tab to the left, wrapping around from the first to the last.
    pub fn prev(self) -> (r: Self)
        ensures
            r == prev_tab(self),
    {
        match self {
            Tab::Packages => Tab::Updates,
            Tab::Search => Tab::Packages,
            Tab::Updates => Tab::Search,
        }
    }

    /// The titles shown in the tab bar, in tab order.
    pub fn titles() -> (r: &'static [&'static str])
        ensures
            r@ == seq!["Packages", "Search", "Updates"],
    {
        &["Packages", "Search", "Updates"]
    }

    /// The position of this tab in the tab bar.
    pub fn index(self) -> (r: usize)
        ensures
            r == tab_position(self),
    {
        match self {
            Tab::Packages => 0,
            Tab::Search => 1,
            Tab::Updates => 2,
        }
    }
}

} // verus!
