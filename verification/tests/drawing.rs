use pac_tui::app::{App, Package};
use pac_tui::tab::Tab;
use pac_tui::ui::{
    details_text, details_title, list_selection, name_cell, name_column_width, package_list_title,
    packages_pane, search_bar_text, search_cursor, show_search_bar, status_hints, tab_placeholder,
    PackagesPane,
};

fn pkg(name: &str) -> Package {
    Package { name: name.to_string(), version: "1".to_string() }
}

#[test]
fn name_column_defaults_to_twenty() {
    let app = App::new(Ok(vec![]));
    assert_eq!(name_column_width(&app), 20);
}

#[test]
fn name_column_is_longest_name() {
    let app = App::new(Ok(vec![pkg("a"), pkg("abcdef"), pkg("abc")]));
    assert_eq!(name_column_width(&app), 6);
}

#[test]
fn name_column_counts_bytes_and_caps_at_forty() {
    let app = App::new(Ok(vec![pkg("é")]));
    assert_eq!(name_column_width(&app), 2);
    let long = "x".repeat(55);
    let app = App::new(Ok(vec![pkg(&long)]));
    assert_eq!(name_column_width(&app), 40);
}

#[test]
fn name_column_follows_the_filter() {
    let mut app = App::new(Ok(vec![pkg("short"), pkg("a-much-longer-name")]));
    app.search_input('h');
    app.search_input('o');
    assert_eq!(name_column_width(&app), 5);
}

#[test]
fn name_cell_pads_like_format() {
    assert_eq!(name_cell("bash", 8), format!("{:<width$}", "bash", width = 8));
    assert_eq!(name_cell("bash", 8), "bash    ");
    assert_eq!(name_cell("longname", 4), "longname");
    assert_eq!(name_cell("é", 3), format!("{:<width$}", "é", width = 3));
}

#[test]
fn list_title_counts() {
    let mut app = App::new(Ok((0..12).map(|i| pkg(&format!("p{i}"))).collect()));
    assert_eq!(package_list_title(&app), " Installed Packages (12) ");
    app.search_input('1');
    assert_eq!(package_list_title(&app), " Installed Packages (3/12) ");
    let app = App::new(Ok(vec![]));
    assert_eq!(package_list_title(&app), " Installed Packages (0) ");
}

#[test]
fn selection_shown_only_with_rows() {
    let mut app = App::new(Ok(vec![pkg("a"), pkg("b")]));
    app.selected_index = 1;
    assert_eq!(list_selection(&app), Some(1));
    app.search_input('z');
    assert_eq!(list_selection(&app), None);
}

#[test]
fn search_bar_visibility_and_text() {
    let mut app = App::new(Ok(vec![pkg("a")]));
    assert!(!show_search_bar(&app));
    app.open_search();
    assert!(show_search_bar(&app));
    app.search_input('a');
    app.confirm_search();
    assert!(show_search_bar(&app));
    assert_eq!(search_bar_text(&app.search_query), "/a");
}

#[test]
fn cursor_after_query() {
    assert_eq!(search_cursor(3, 10, "abc"), (8, 11));
    assert_eq!(search_cursor(0, 0, ""), (2, 1));
    assert_eq!(search_cursor(0, 0, "é"), (4, 1));
}

#[test]
fn details_title_uses_installed_list() {
    let mut app = App::new(Ok(vec![pkg("bash"), pkg("zsh")]));
    app.selected_index = 1;
    assert_eq!(details_title(&app), " zsh — Details ");
    let app = App::new(Ok(vec![]));
    assert_eq!(details_title(&app), " Package — Details ");
}

#[test]
fn details_text_joins_lines() {
    let mut app = App::new(Ok(vec![pkg("bash")]));
    assert_eq!(details_text(&app), "Loading...");
    app.receive_details(Ok(vec!["a".to_string(), "b".to_string(), "".to_string()]));
    assert_eq!(details_text(&app), "a\nb\n");
    app.receive_details(Ok(vec![]));
    assert_eq!(details_text(&app), "");
}

#[test]
fn packages_pane_layouts() {
    let app = App::new(Err("pacman -Q failed: x".to_string()));
    match packages_pane(&app) {
        PackagesPane::LoadError(m) => assert_eq!(m, "Error loading packages: pacman -Q failed: x"),
        _ => panic!("expected the error"),
    }
    let mut app = App::new(Ok(vec![pkg("bash")]));
    app.receive_details(Ok(vec![]));
    match packages_pane(&app) {
        PackagesPane::List { search_bar, details } => {
            assert!(!search_bar);
            assert!(details);
        }
        _ => panic!("expected the list"),
    }
}

#[test]
fn placeholders() {
    assert_eq!(tab_placeholder(Tab::Packages), None);
    assert_eq!(tab_placeholder(Tab::Search), Some((" Search ", "Search not yet implemented")));
    assert_eq!(
        tab_placeholder(Tab::Updates),
        Some((" Updates ", "Update checking not yet implemented"))
    );
}

#[test]
fn status_bar_hints() {
    let s = status_hints(true);
    assert_eq!(s.len(), 4);
    assert_eq!(s[0], (" type", ":filter  "));
    assert_eq!(s[3], ("esc", ":cancel"));
    let n = status_hints(false);
    assert_eq!(n.len(), 7);
    assert_eq!(n[0], (" q", ":quit  "));
    assert_eq!(n[2], ("↑/k  ↓/j", ":navigate  "));
    assert_eq!(n[6], ("esc", ":close"));
}
