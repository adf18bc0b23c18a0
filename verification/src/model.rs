use vstd::prelude::*;

use crate::tab::{next_tab, prev_tab, Tab};
use crate::text::{contains_seq, lowercase};

verus! {

/// A package as plain values: its name and its version.
pub type PackageView = (Seq<char>, Seq<char>);

/// The state of the interface as plain values.
pub struct AppView {
    pub current_tab: Tab,
    pub should_quit: bool,
    pub selected_index: usize,
    pub packages: Seq<PackageView>,
    pub load_error: Option<Seq<char>>,
    pub show_details: bool,
    pub package_details: Option<Seq<Seq<char>>>,
    pub searching: bool,
    pub search_query: Seq<char>,
}

/// A package name matches a search query when the lowercased query occurs in the
/// lowercased name.
pub open spec fn name_matches(name: Seq<char>, query: Seq<char>) -> bool {
    contains_seq(lowercase(name), lowercase(query))
}

/// The packages that a query lets through, in the order of the installed list: all of them for the
/// empty query, else those whose name matches it.
pub open spec fn visible_of(packages: Seq<PackageView>, query: Seq<char>) -> Seq<PackageView> {
    if query.len() == 0 {
        packages
    } else {
        packages.filter(|p: PackageView| name_matches(p.0, query))
    }
}

/// The packages listed under the current search query.
pub open spec fn visible(a: AppView) -> Seq<PackageView> {
    visible_of(a.packages, a.search_query)
}

/// The length of the list that the selection moves in: the visible packages on the
/// Packages tab, nothing on the other tabs.
pub open spec fn list_len(a: AppView) -> nat {
    if a.current_tab == Tab::Packages {
        visible(a).len()
    } else {
        0
    }
}

/// The selection points into the list, or is 0.
pub open spec fn selection_ok(a: AppView) -> bool {
    a.selected_index == 0 || a.selected_index < list_len(a)
}

/// The state right after start, given the package list or the error of loading it.
pub open spec fn initial(loaded: Result<Seq<PackageView>, Seq<char>>) -> AppView {
    AppView {
        current_tab: Tab::Packages,
        should_quit: false,
        selected_index: 0,
        packages: match loaded {
            Ok(p) => p,
            Err(_) => Seq::empty(),
        },
        load_error: match loaded {
            Ok(_) => None,
            Err(e) => Some(e),
        },
        show_details: false,
        package_details: None,
        searching: false,
        search_query: Seq::empty(),
    }
}

pub open spec fn select(a: AppView, i: usize) -> AppView {
    AppView { selected_index: i, ..a }
}

/// Moves the selection down one row, wrapping from the last row to the first.
pub open spec fn next_item(a: AppView) -> AppView {
    let len = list_len(a);
    if len > 0 {
        select(a, ((a.selected_index + 1) % (len as int)) as usize)
    } else {
        a
    }
}

/// Moves the selection up one row; it stays on the first row.
pub open spec fn prev_item(a: AppView) -> AppView {
    if list_len(a) > 0 && a.selected_index > 0 {
        select(a, (a.selected_index - 1) as usize)
    } else {
        a
    }
}

pub open spec fn first_item(a: AppView) -> AppView {
    select(a, 0)
}

pub open spec fn last_item(a: AppView) -> AppView {
    let len = list_len(a);
    if len > 0 {
        select(a, (len - 1) as usize)
    } else {
        a
    }
}

pub open spec fn close_details(a: AppView) -> AppView {
    AppView { show_details: false, package_details: None, ..a }
}

pub open spec fn open_search(a: AppView) -> AppView {
    AppView {
        search_query: Seq::empty(),
        selected_index: 0,
        searching: true,
        ..close_details(a)
    }
}

pub open spec fn close_search(a: AppView) -> AppView {
    AppView { searching: false, search_query: Seq::empty(), selected_index: 0, ..a }
}

pub open spec fn confirm_search(a: AppView) -> AppView {
    AppView { searching: false, ..a }
}

pub open spec fn search_input(a: AppView, c: char) -> AppView {
    AppView { search_query: a.search_query.push(c), selected_index: 0, ..a }
}

pub open spec fn search_backspace(a: AppView) -> AppView {
    AppView {
        search_query: if a.search_query.len() > 0 {
            a.search_query.drop_last()
        } else {
            a.search_query
        },
        selected_index: 0,
        ..a
    }
}

/// Opening the details pane indexes the visible list with the selection: on the
/// Packages tab, with a non-empty list, the selection must point into it.
pub open spec fn details_request_safe(a: AppView) -> bool {
    a.current_tab == Tab::Packages && visible(a).len() > 0 ==> a.selected_index < visible(a).len()
}

/// The package whose details opening them would show: the selected visible package,
/// on the Packages tab only.
pub open spec fn details_request(a: AppView) -> Option<Seq<char>> {
    if a.current_tab != Tab::Packages || visible(a).len() == 0 {
        None
    } else {
        Some(visible(a)[a.selected_index as int].0)
    }
}

/// Toggling the details pane: an open pane closes; a closed one is left for the loaded
/// details to open (see `toggle_request`).
pub open spec fn toggle_details(a: AppView) -> AppView {
    if a.show_details {
        close_details(a)
    } else {
        a
    }
}

/// The package whose details toggling the pane asks for.
pub open spec fn toggle_request(a: AppView) -> Option<Seq<char>> {
    if a.show_details {
        None
    } else {
        details_request(a)
    }
}

/// The lines the details pane shows for what loading the details gave.
pub open spec fn details_lines(loaded: Result<Seq<Seq<char>>, Seq<char>>) -> Seq<Seq<char>> {
    match loaded {
        Ok(lines) => lines,
        Err(e) => seq!["Error: "@ + e],
    }
}

/// Opens the details pane on the lines given.
pub open spec fn receive_details(a: AppView, lines: Seq<Seq<char>>) -> AppView {
    AppView { package_details: Some(lines), show_details: true, ..a }
}

pub open spec fn quit(a: AppView) -> AppView {
    AppView { should_quit: true, ..a }
}

pub open spec fn switch_tab(a: AppView, t: Tab) -> AppView {
    AppView { current_tab: t, selected_index: 0, ..a }
}

pub open spec fn tab_forward(a: AppView) -> AppView {
    switch_tab(a, next_tab(a.current_tab))
}

pub open spec fn tab_backward(a: AppView) -> AppView {
    switch_tab(a, prev_tab(a.current_tab))
}

} // verus!
