use vstd::prelude::*;

use crate::model::{self, AppView};
pub use crate::model::PackageView;
use crate::tab::Tab;
use crate::text::{
    chars_of, contains_chars, lowercase, pop_char, push_char, push_text, string_views, to_lowercase,
};

verus! {

/// An installed package as `pacman -Q` lists it.
#[derive(Debug, Clone)]
pub struct Package {
    pub name: String,
    pub version: String,
}

impl View for Package {
    type V = PackageView;

    open spec fn view(&self) -> PackageView {
        (self.name@, self.version@)
    }
}

/// The state of the interface.
pub struct App {
    pub current_tab: Tab,
    pub should_quit: bool,
    pub selected_index: usize,
    pub packages: Vec<Package>,
    pub load_error: Option<String>,
    pub show_details: bool,
    pub package_details: Option<Vec<String>>,
    pub searching: bool,
    pub search_query: String,
}

pub open spec fn option_view(s: Option<String>) -> Option<Seq<char>> {
    match s {
        Some(t) => Some(t@),
        None => None,
    }
}

pub open spec fn packages_view(v: Seq<Package>) -> Seq<PackageView> {
    v.map_values(|p: Package| p@)
}

/// What loading the package list gave, as plain values.
pub open spec fn load_view(loaded: Result<Vec<Package>, String>) -> Result<Seq<PackageView>, Seq<char>> {
    match loaded {
        Ok(v) => Ok(packages_view(v@)),
        Err(e) => Err(e@),
    }
}

/// What loading a package's details gave, as plain values.
pub open spec fn details_view(loaded: Result<Vec<String>, String>) -> Result<Seq<Seq<char>>, Seq<char>> {
    match loaded {
        Ok(v) => Ok(string_views(v@)),
        Err(e) => Err(e@),
    }
}

impl View for App {
    type V = AppView;

    open spec fn view(&self) -> AppView {
        AppView {
            current_tab: self.current_tab,
            should_quit: self.should_quit,
            selected_index: self.selected_index,
            packages: packages_view(self.packages@),
            load_error: option_view(self.load_error),
            show_details: self.show_details,
            package_details: match self.package_details {
                Some(v) => Some(string_views(v@)),
                None => None,
            },
            searching: self.searching,
            search_query: self.search_query@,
        }
    }
}

impl App {
    /// The state at start, given the installed packages or the error that loading
    /// them gave.
    pub fn new(loaded: Result<Vec<Package>, String>) -> (r: Self)
        ensures
            r@ == model::initial(load_view(loaded)),
            model::selection_ok(r@),
    {
        let (packages, load_error) = match loaded {
            Ok(pkgs) => (pkgs, None),
            Err(e) => (Vec::new(), Some(e)),
        };
        let r = App {
            current_tab: Tab::Packages,
            should_quit: false,
            selected_index: 0,
            packages,
            load_error,
            show_details: false,
            package_details: None,
            searching: false,
            search_query: String::new(),
        };
        assert(r@.packages =~= model::initial(load_view(loaded)).packages);
        r
    }

    /// Moves the selection down one row, wrapping from the last row to the first.
    pub fn next_item(&mut self)
        requires
            model::list_len(old(self)@) > 0 ==> old(self).selected_index < usize::MAX,
        ensures
            final(self)@ == model::next_item(old(self)@),
            model::selection_ok(old(self)@) ==> model::selection_ok(final(self)@),
    {
        let len = self.list_len();
        if len > 0 {
            self.selected_index = (self.selected_index + 1) % len;
        }
    }

    /// Moves the selection up one row; on the first row it stays.
    pub fn prev_item(&mut self)
        ensures
            final(self)@ == model::prev_item(old(self)@),
            model::selection_ok(old(self)@) ==> model::selection_ok(final(self)@),
    {
        let len = self.list_len();
        if len > 0 && self.selected_index > 0 {
            self.selected_index -= 1;
        }
    }

    /// Selects the first row.
    pub fn first_item(&mut self)
        ensures
            final(self)@ == model::first_item(old(self)@),
            model::selection_ok(final(self)@),
    {
        self.selected_index = 0;
    }

    /// Selects the last row, if the list has any.
    pub fn last_item(&mut self)
        ensures
            final(self)@ == model::last_item(old(self)@),
            model::selection_ok(old(self)@) ==> model::selection_ok(final(self)@),
    {
        let len = self.list_len();
        if len > 0 {
            self.selected_index = len - 1;
        }
    }

    /// The packages listed under the current search query, in their order: all of
    /// them when the query is empty, else those whose lowercased name contains the
    /// lowercased query.
    pub fn visible_packages(&self) -> (r: Vec<&Package>)
        ensures
            r@.map_values(|p: &Package| p@) == model::visible(self@),
    {
        let ghost all = packages_view(self.packages@);
        let mut r: Vec<&Package> = Vec::new();
        if self.search_query.as_str().is_empty() {
            let mut i: usize = 0;
            while i < self.packages.len()
                invariant
                    all == packages_view(self.packages@),
                    i <= self.packages@.len(),
                    r@.map_values(|p: &Package| p@) == all.take(i as int),
                decreases self.packages@.len() - i,
            {
                let ghost before = r@;
                r.push(&self.packages[i]);
                assert(all.take(i + 1) =~= all.take(i as int).push(self.packages@[i as int]@));
                assert(r@.map_values(|p: &Package| p@) =~= before.map_values(|p: &Package| p@).push(
                    self.packages@[i as int]@,
                ));
                i = i + 1;
            }
            assert(all.take(self.packages@.len() as int) =~= all);
        } else {
            let q = to_lowercase(self.search_query.as_str());
            let qc = chars_of(q.as_str());
            let ghost query = self.search_query@;
            let ghost pred = |p: PackageView| model::name_matches(p.0, query);
            let mut i: usize = 0;
            while i < self.packages.len()
                invariant
                    all == packages_view(self.packages@),
                    query == self.search_query@,
                    pred == (|p: PackageView| model::name_matches(p.0, query)),
                    qc@ == lowercase(query),
                    i <= self.packages@.len(),
                    r@.map_values(|p: &Package| p@) == all.take(i as int).filter(pred),
                decreases self.packages@.len() - i,
            {
                let p = &self.packages[i];
                let low = to_lowercase(p.name.as_str());
                let lc = chars_of(low.as_str());
                let keep = contains_chars(&lc, &qc);
                let ghost before = r@;
                proof {
                    reveal_with_fuel(Seq::filter, 1);
                    assert(all.take(i + 1).drop_last() =~= all.take(i as int));
                    assert(all.take(i + 1).last() == p@);
                }
                if keep {
                    r.push(p);
                    assert(r@.map_values(|p: &Package| p@) =~= before.map_values(
                        |p: &Package| p@,
                    ).push(p@));
                }
                i = i + 1;
            }
            assert(all.take(self.packages@.len() as int) =~= all);
        }
        r
    }

    /// Opens the search bar on an empty query, closing the details pane.
    pub fn open_search(&mut self)
        ensures
            final(self)@ == model::open_search(old(self)@),
            model::selection_ok(final(self)@),
    {
        self.close_details();
        self.search_query = String::new();
        self.selected_index = 0;
        self.searching = true;
    }

    /// Closes the search bar and clears the query.
    pub fn close_search(&mut self)
        ensures
            final(self)@ == model::close_search(old(self)@),
            model::selection_ok(final(self)@),
    {
        self.searching = false;
        self.search_query = String::new();
        self.selected_index = 0;
    }

    /// Leaves the search bar, keeping the query as the filter.
    pub fn confirm_search(&mut self)
        ensures
            final(self)@ == model::confirm_search(old(self)@),
            model::selection_ok(old(self)@) ==> model::selection_ok(final(self)@),
    {
        self.searching = false;
    }

    /// Appends a character to the search query and selects the first row.
    pub fn search_input(&mut self, c: char)
        ensures
            final(self)@ == model::search_input(old(self)@, c),
            model::selection_ok(final(self)@),
    {
        push_char(&mut self.search_query, c);
        self.selected_index = 0;
    }

    /// Removes the last character of the search query, if any, and selects the first row.
    pub fn search_backspace(&mut self)
        ensures
            final(self)@ == model::search_backspace(old(self)@),
            model::selection_ok(final(self)@),
    {
        let _ = pop_char(&mut self.search_query);
        self.selected_index = 0;
    }

    /// Closes an open details pane and returns `None`; for a closed one, returns the
    /// name of the package whose details are to be loaded and shown (see
    /// `open_details`), and changes nothing.
    pub fn toggle_details(&mut self) -> (r: Option<String>)
        requires
            !old(self).show_details ==> model::details_request_safe(old(self)@),
        ensures
            final(self)@ == model::toggle_details(old(self)@),
            option_view(r) == model::toggle_request(old(self)@),
            model::selection_ok(old(self)@) ==> model::selection_ok(final(self)@),
    {
        if self.show_details {
            self.close_details();
            None
        } else {
            self.open_details()
        }
    }

    /// The name of the package whose details opening the pane shows: the selected
    /// visible package, on the Packages tab and when the list is not empty; `None`
    /// otherwise. The details, once loaded, are handed to `receive_details`.
    pub fn open_details(&self) -> (r: Option<String>)
        requires
            model::details_request_safe(self@),
        ensures
            option_view(r) == model::details_request(self@),
    {
        if self.current_tab != Tab::Packages {
            return None;
        }
        let visible = self.visible_packages();
        if visible.len() == 0 {
            return None;
        }
        assert(visible@.map_values(|p: &Package| p@)[self.selected_index as int]
            == visible@[self.selected_index as int]@);
        Some(visible[self.selected_index].name.clone())
    }

    /// Opens the details pane on what loading a package's details gave: its lines, or
    /// the single line "Error: " followed by the error.
    pub fn receive_details(&mut self, loaded: Result<Vec<String>, String>)
        ensures
            final(self)@ == model::receive_details(
                old(self)@,
                model::details_lines(details_view(loaded)),
            ),
            model::selection_ok(old(self)@) ==> model::selection_ok(final(self)@),
    {
        let lines = match loaded {
            Ok(lines) => lines,
            Err(e) => {
                let mut line = String::new();
                push_text(&mut line, "Error: ");
                push_text(&mut line, e.as_str());
                let mut v: Vec<String> = Vec::new();
                v.push(line);
                assert(string_views(v@) =~= seq!["Error: "@ + e@]);
                v
            },
        };
        self.package_details = Some(lines);
        self.show_details = true;
    }

    /// Closes the details pane and drops its lines.
    pub fn close_details(&mut self)
        ensures
            final(self)@ == model::close_details(old(self)@),
            model::selection_ok(old(self)@) ==> model::selection_ok(final(self)@),
    {
        self.show_details = false;
        self.package_details = None;
    }

    /// The length of the list that the selection moves in.
    pub fn list_len(&self) -> (r: usize)
        ensures
            r == model::list_len(self@),
    {
        match self.current_tab {
            Tab::Packages => self.visible_packages().len(),
            _ => 0,
        }
    }
}

} // verus!
