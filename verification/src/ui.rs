use vstd::prelude::*;
use vstd::utf8::encode_utf8;

use crate::app::{App, Package};
use crate::model::{self, AppView, PackageView};
use crate::tab::Tab;
use crate::text::{decimal, join, pad_right, push_char, push_decimal, push_text, string_views};

verus! {

// ---------------------------------------------------------------------------
// Models
// ---------------------------------------------------------------------------

/// The length of a package name in bytes of UTF-8, as `str::len` gives it.
pub open spec fn name_bytes(p: PackageView) -> nat {
    (encode_utf8(p.0).len() as usize) as nat
}

/// The greatest name length in a list of packages, if it has any.
pub open spec fn max_name_bytes(s: Seq<PackageView>) -> Option<nat>
    decreases s.len(),
{
    if s.len() == 0 {
        None
    } else {
        let m = name_bytes(s.last());
        match max_name_bytes(s.drop_last()) {
            None => Some(m),
            Some(r) => Some(if r >= m { r } else { m }),
        }
    }
}

/// The width of the name column: the longest visible name, 20 when none is visible,
/// and never more than 40.
pub open spec fn name_column_width_of(visible: Seq<PackageView>) -> nat {
    let w = match max_name_bytes(visible) {
        Some(m) => m,
        None => 20,
    };
    if w < 40 {
        w
    } else {
        40
    }
}

/// The title of the package list: the number of installed packages, and before it the
/// number of visible ones while a query filters the list.
pub open spec fn list_title(a: AppView) -> Seq<char> {
    if a.search_query.len() == 0 {
        " Installed Packages ("@ + decimal(a.packages.len()) + ") "@
    } else {
        " Installed Packages ("@ + decimal(model::visible(a).len()) + "/"@ + decimal(
            a.packages.len(),
        ) + ") "@
    }
}

/// The name shown in the title of the details pane: the package at the selection in the
/// installed list, or "Package" when there is none there.
pub open spec fn details_name(a: AppView) -> Seq<char> {
    if a.selected_index < a.packages.len() {
        a.packages[a.selected_index as int].0
    } else {
        "Package"@
    }
}

/// The text of the details pane: its lines joined by newlines, or "Loading..." while it
/// has none.
pub open spec fn details_text_of(a: AppView) -> Seq<char> {
    match a.package_details {
        Some(lines) => join(lines, "\n"@),
        None => "Loading..."@,
    }
}

/// How the Packages tab is laid out.
pub enum PackagesPane {
    /// Loading the package list failed; the pane shows this message.
    LoadError(String),
    /// The list, with the search bar below it and the details pane to its right when
    /// they are shown.
    List { search_bar: bool, details: bool },
}

// ---------------------------------------------------------------------------
// Computations behind the drawing
// ---------------------------------------------------------------------------

/// The search bar stands below the list while searching or while a query filters it.
pub fn show_search_bar(app: &App) -> (r: bool)
    ensures
        r == (app@.searching || app@.search_query.len() > 0),
{
    app.searching || !app.search_query.as_str().is_empty()
}

/// How the Packages tab is laid out: the loading error if there was one, else the list
/// with the search bar and the details pane as the state asks.
pub fn packages_pane(app: &App) -> (r: PackagesPane)
    ensures
        match app@.load_error {
            Some(e) => r matches PackagesPane::LoadError(m) && m@ == "Error loading packages: "@ + e,
            None => r matches PackagesPane::List { search_bar, details } && search_bar == (
            app@.searching || app@.search_query.len() > 0) && details == app@.show_details,
        },
{
    match &app.load_error {
        Some(e) => {
            let mut m = String::new();
            push_text(&mut m, "Error loading packages: ");
            push_text(&mut m, e.as_str());
            PackagesPane::LoadError(m)
        },
        None => PackagesPane::List { search_bar: show_search_bar(app), details: app.show_details },
    }
}

/// The width of the name column of the package list.
pub fn name_column_width(app: &App) -> (r: usize)
    ensures
        r == name_column_width_of(model::visible(app@)),
{
    let visible = app.visible_packages();
    let ghost vs = visible@.map_values(|p: &Package| p@);
    let mut widest: Option<usize> = None;
    let mut i: usize = 0;
    while i < visible.len()
        invariant
            vs == visible@.map_values(|p: &Package| p@),
            i <= visible@.len(),
            match widest {
                Some(w) => max_name_bytes(vs.take(i as int)) == Some(w as nat),
                None => max_name_bytes(vs.take(i as int)) is None,
            },
        decreases visible@.len() - i,
    {
        let len = visible[i].name.as_str().len();
        proof {
            assert(vs.take(i + 1).drop_last() =~= vs.take(i as int));
            assert(vs.take(i + 1).last() == vs[i as int]);
        }
        widest = match widest {
            None => Some(len),
            Some(w) => Some(if w >= len { w } else { len }),
        };
        i = i + 1;
    }
    assert(vs.take(visible@.len() as int) =~= vs);
    let w = match widest {
        Some(w) => w,
        None => 20,
    };
    if w < 40 {
        w
    } else {
        40
    }
}

/// A package name padded on the right with spaces to the column width.
pub fn name_cell(name: &str, width: usize) -> (r: String)
    ensures
        r@ == pad_right(name@, width as nat),
{
    let mut r = String::new();
    push_text(&mut r, name);
    let count = crate::text::chars_of(name).len();
    let mut k = count;
    while k < width
        invariant
            count == name@.len(),
            count <= k,
            k <= width || k == count,
            r@ == name@ + Seq::new((k - count) as nat, |i: int| ' '),
        decreases width - k,
    {
        push_char(&mut r, ' ');
        assert(name@ + Seq::new((k + 1 - count) as nat, |i: int| ' ') =~= (name@ + Seq::new(
            (k - count) as nat,
            |i: int| ' ',
        )).push(' '));
        k = k + 1;
    }
    if count >= width {
        assert(k == count);
        assert(r@ =~= name@);
    } else {
        assert(r@ =~= pad_right(name@, width as nat));
    }
    r
}

/// The title of the package list.
pub fn package_list_title(app: &App) -> (r: String)
    ensures
        r@ == list_title(app@),
{
    let mut r = String::new();
    push_text(&mut r, " Installed Packages (");
    if app.search_query.as_str().is_empty() {
        push_decimal(&mut r, app.packages.len());
    } else {
        let visible = app.visible_packages();
        assert(visible@.len() == model::visible(app@).len()) by {
            assert(visible@.map_values(|p: &Package| p@).len() == visible@.len());
        }
        push_decimal(&mut r, visible.len());
        push_text(&mut r, "/");
        push_decimal(&mut r, app.packages.len());
    }
    push_text(&mut r, ") ");
    r
}

/// The row that the package list highlights: the selection, while the list has rows.
pub fn list_selection(app: &App) -> (r: Option<usize>)
    ensures
        r == (if model::visible(app@).len() > 0 {
            Some(app.selected_index)
        } else {
            None
        }),
{
    let visible = app.visible_packages();
    assert(visible@.map_values(|p: &Package| p@).len() == visible@.len());
    if visible.len() > 0 {
        Some(app.selected_index)
    } else {
        None
    }
}

/// The text of the search bar: the query after a slash.
pub fn search_bar_text(query: &str) -> (r: String)
    ensures
        r@ == "/"@ + query@,
{
    let mut r = String::new();
    push_text(&mut r, "/");
    push_text(&mut r, query);
    r
}

/// Where the cursor stands in the search bar whose area starts at column `x` and row
/// `y`: after the border, the slash and the query (counted in bytes, as a `u16`).
pub fn search_cursor(x: u16, y: u16, query: &str) -> (r: (u16, u16))
    requires
        x + 2 + (query.len() as u16) <= u16::MAX,
        y + 1 <= u16::MAX,
    ensures
        r == ((x + 2 + (query.len() as u16)) as u16, (y + 1) as u16),
{
    (x + 2 + query.len() as u16, y + 1)
}

/// The title of the details pane.
pub fn details_title(app: &App) -> (r: String)
    ensures
        r@ == " "@ + details_name(app@) + " — Details "@,
{
    let mut r = String::new();
    push_text(&mut r, " ");
    if app.selected_index < app.packages.len() {
        push_text(&mut r, app.packages[app.selected_index].name.as_str());
    } else {
        push_text(&mut r, "Package");
    }
    push_text(&mut r, " — Details ");
    r
}

/// The text of the details pane.
pub fn details_text(app: &App) -> (r: String)
    ensures
        r@ == details_text_of(app@),
{
    match &app.package_details {
        None => {
            let mut r = String::new();
            push_text(&mut r, "Loading...");
            r
        },
        Some(lines) => {
            let ghost ls = string_views(lines@);
            let mut r = String::new();
            let mut i: usize = 0;
            while i < lines.len()
                invariant
                    ls == string_views(lines@),
                    i <= lines@.len(),
                    r@ == join(ls.take(i as int), "\n"@),
                decreases lines@.len() - i,
            {
                proof {
                    assert(ls.take(i + 1).drop_last() =~= ls.take(i as int));
                    assert(ls.take(i + 1).last() == lines@[i as int]@);
                }
                if i > 0 {
                    push_text(&mut r, "\n");
                }
                push_text(&mut r, lines[i].as_str());
                i = i + 1;
            }
            assert(ls.take(lines@.len() as int) =~= ls);
            r
        },
    }
}

/// The title and the message of a tab that has no content yet; `None` for the
/// Packages tab.
pub fn tab_placeholder(tab: Tab) -> (r: Option<(&'static str, &'static str)>)
    ensures
        r == (match tab {
            Tab::Packages => None,
            Tab::Search => Some((" Search ", "Search not yet implemented")),
            Tab::Updates => Some((" Updates ", "Update checking not yet implemented")),
        }),
{
    match tab {
        Tab::Packages => None,
        Tab::Search => Some((" Search ", "Search not yet implemented")),
        Tab::Updates => Some((" Updates ", "Update checking not yet implemented")),
    }
}

/// The hints of the status bar, each a key and what it does: those of the search bar
/// while searching, else those of the list.
pub fn status_hints(searching: bool) -> (r: Vec<(&'static str, &'static str)>)
    ensures
        searching ==> r@ == seq![
            (" type", ":filter  "),
            ("enter", ":confirm  "),
            ("backspace", ":delete  "),
            ("esc", ":cancel"),
        ],
        !searching ==> r@ == seq![
            (" q", ":quit  "),
            ("tab/shift-tab", ":switch tab  "),
            ("↑/k  ↓/j", ":navigate  "),
            ("g/G", ":first/last  "),
            ("enter", ":details  "),
            ("/", ":search  "),
            ("esc", ":close"),
        ],
{
    if searching {
        vec![
            (" type", ":filter  "),
            ("enter", ":confirm  "),
            ("backspace", ":delete  "),
            ("esc", ":cancel"),
        ]
    } else {
        vec![
            (" q", ":quit  "),
            ("tab/shift-tab", ":switch tab  "),
            ("↑/k  ↓/j", ":navigate  "),
            ("g/G", ":first/last  "),
            ("enter", ":details  "),
            ("/", ":search  "),
            ("esc", ":close"),
        ]
    }
}

} // verus!
