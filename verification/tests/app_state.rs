use pac_tui::app::{App, Package};
use pac_tui::tab::Tab;

fn pkg(name: &str, version: &str) -> Package {
    Package { name: name.to_string(), version: version.to_string() }
}

fn sample_app() -> App {
    App::new(Ok(vec![
        pkg("spotify", "1:1.2.77.358-1"),
        pkg("sqlite", "3.53.2-1"),
        pkg("squeekboard", "1.43.1-5"),
        pkg("steam", "1.0.0.85-7"),
        pkg("steam-devices", "1.0.0.85-7"),
    ]))
}

fn visible_names(app: &App) -> Vec<String> {
    app.visible_packages().iter().map(|p| p.name.clone()).collect()
}

#[test]
fn tab_next_cycles_through_all_tabs() {
    assert_eq!(Tab::Packages.next(), Tab::Search);
    assert_eq!(Tab::Search.next(), Tab::Updates);
    assert_eq!(Tab::Updates.next(), Tab::Packages);
}

#[test]
fn tab_prev_cycles_backwards() {
    assert_eq!(Tab::Packages.prev(), Tab::Updates);
    assert_eq!(Tab::Search.prev(), Tab::Packages);
    assert_eq!(Tab::Updates.prev(), Tab::Search);
}

#[test]
fn tab_prev_undoes_next() {
    for t in [Tab::Packages, Tab::Search, Tab::Updates] {
        assert_eq!(t.next().prev(), t);
        assert_eq!(t.prev().next(), t);
        assert_eq!(t.next().next().next(), t);
    }
}

#[test]
fn tab_titles_and_indices_line_up() {
    assert_eq!(Tab::titles(), &["Packages", "Search", "Updates"]);
    assert_eq!(Tab::titles()[Tab::Packages.index()], "Packages");
    assert_eq!(Tab::titles()[Tab::Search.index()], "Search");
    assert_eq!(Tab::titles()[Tab::Updates.index()], "Updates");
}

#[test]
fn new_with_packages() {
    let app = sample_app();
    assert_eq!(app.current_tab, Tab::Packages);
    assert!(!app.should_quit);
    assert_eq!(app.selected_index, 0);
    assert_eq!(app.packages.len(), 5);
    assert!(app.load_error.is_none());
    assert!(!app.show_details);
    assert!(app.package_details.is_none());
    assert!(!app.searching);
    assert_eq!(app.search_query, "");
}

#[test]
fn new_with_load_error() {
    let app = App::new(Err("pacman -Q failed: boom".to_string()));
    assert!(app.packages.is_empty());
    assert_eq!(app.load_error.as_deref(), Some("pacman -Q failed: boom"));
    assert_eq!(app.list_len(), 0);
}

#[test]
fn next_item_wraps_to_first() {
    let mut app = sample_app();
    app.next_item();
    assert_eq!(app.selected_index, 1);
    app.selected_index = 4;
    app.next_item();
    assert_eq!(app.selected_index, 0);
}

#[test]
fn next_item_cycles_back_after_list_len_moves() {
    let mut app = sample_app();
    app.selected_index = 2;
    for _ in 0..app.list_len() {
        app.next_item();
    }
    assert_eq!(app.selected_index, 2);
}

#[test]
fn prev_item_stops_at_first() {
    let mut app = sample_app();
    app.prev_item();
    assert_eq!(app.selected_index, 0);
    app.selected_index = 3;
    app.prev_item();
    assert_eq!(app.selected_index, 2);
}

#[test]
fn first_and_last_item() {
    let mut app = sample_app();
    app.last_item();
    assert_eq!(app.selected_index, 4);
    app.first_item();
    assert_eq!(app.selected_index, 0);
}

#[test]
fn moves_do_nothing_on_empty_list() {
    let mut app = App::new(Ok(vec![]));
    app.next_item();
    app.last_item();
    app.prev_item();
    assert_eq!(app.selected_index, 0);
}

#[test]
fn list_len_is_zero_off_the_packages_tab() {
    let mut app = sample_app();
    assert_eq!(app.list_len(), 5);
    app.current_tab = Tab::Search;
    assert_eq!(app.list_len(), 0);
    app.next_item();
    assert_eq!(app.selected_index, 0);
}

#[test]
fn visible_packages_without_query_lists_all() {
    let app = sample_app();
    assert_eq!(visible_names(&app), vec!["spotify", "sqlite", "squeekboard", "steam", "steam-devices"]);
}

#[test]
fn visible_packages_filters_by_substring() {
    let mut app = sample_app();
    app.search_input('s');
    app.search_input('t');
    assert_eq!(visible_names(&app), vec!["steam", "steam-devices"]);
    assert_eq!(app.list_len(), 2);
}

#[test]
fn visible_packages_ignores_case() {
    let mut app = sample_app();
    for c in "SQL".chars() {
        app.search_input(c);
    }
    assert_eq!(visible_names(&app), vec!["sqlite"]);
    let mut app = App::new(Ok(vec![pkg("Qt5-Base", "5.15"), pkg("gtk3", "3.24")]));
    app.search_input('q');
    assert_eq!(visible_names(&app), vec!["Qt5-Base"]);
}

#[test]
fn visible_packages_matches_on_name_only() {
    let mut app = sample_app();
    app.search_input('3');
    assert!(visible_names(&app).is_empty());
}

#[test]
fn search_input_and_backspace() {
    let mut app = sample_app();
    app.selected_index = 3;
    app.search_input('s');
    assert_eq!(app.search_query, "s");
    assert_eq!(app.selected_index, 0);
    app.search_input('q');
    app.search_backspace();
    assert_eq!(app.search_query, "s");
    app.search_backspace();
    assert_eq!(app.search_query, "");
    app.search_backspace();
    assert_eq!(app.search_query, "");
}

#[test]
fn open_search_clears_query_and_details() {
    let mut app = sample_app();
    app.show_details = true;
    app.package_details = Some(vec!["Name : sqlite".to_string()]);
    app.search_query = "old".to_string();
    app.selected_index = 2;
    app.open_search();
    assert!(app.searching);
    assert_eq!(app.search_query, "");
    assert_eq!(app.selected_index, 0);
    assert!(!app.show_details);
    assert!(app.package_details.is_none());
}

#[test]
fn close_search_clears_query() {
    let mut app = sample_app();
    app.open_search();
    app.search_input('x');
    app.close_search();
    assert!(!app.searching);
    assert_eq!(app.search_query, "");
    assert_eq!(app.list_len(), 5);
}

#[test]
fn confirm_search_keeps_query() {
    let mut app = sample_app();
    app.open_search();
    app.search_input('s');
    app.search_input('t');
    app.confirm_search();
    assert!(!app.searching);
    assert_eq!(app.search_query, "st");
    assert_eq!(app.list_len(), 2);
}

#[test]
fn open_details_names_the_selected_visible_package() {
    let mut app = sample_app();
    app.search_input('s');
    app.search_input('t');
    app.selected_index = 1;
    assert_eq!(app.open_details(), Some("steam-devices".to_string()));
}

#[test]
fn open_details_needs_packages_tab_and_rows() {
    let mut app = sample_app();
    app.current_tab = Tab::Updates;
    assert_eq!(app.open_details(), None);
    let app = App::new(Ok(vec![]));
    assert_eq!(app.open_details(), None);
}

#[test]
fn receive_details_shows_lines() {
    let mut app = sample_app();
    app.receive_details(Ok(vec!["Name : spotify".to_string(), "Version : 1".to_string()]));
    assert!(app.show_details);
    assert_eq!(
        app.package_details,
        Some(vec!["Name : spotify".to_string(), "Version : 1".to_string()])
    );
}

#[test]
fn receive_details_error_becomes_one_line() {
    let mut app = sample_app();
    app.receive_details(Err("pacman -Qi failed: boom".to_string()));
    assert!(app.show_details);
    assert_eq!(app.package_details, Some(vec!["Error: pacman -Qi failed: boom".to_string()]));
}

#[test]
fn toggle_details_requests_then_closes() {
    let mut app = sample_app();
    app.selected_index = 1;
    let request = app.toggle_details();
    assert_eq!(request, Some("sqlite".to_string()));
    assert!(!app.show_details);
    app.receive_details(Ok(vec!["Name : sqlite".to_string()]));
    assert!(app.show_details);
    assert_eq!(app.toggle_details(), None);
    assert!(!app.show_details);
    assert!(app.package_details.is_none());
}

#[test]
fn close_details_drops_lines() {
    let mut app = sample_app();
    app.receive_details(Ok(vec!["x".to_string()]));
    app.close_details();
    assert!(!app.show_details);
    assert!(app.package_details.is_none());
}

#[test]
fn typing_only_narrows_the_list() {
    let mut app = sample_app();
    let mut before = visible_names(&app);
    for c in "Ste".chars() {
        app.search_input(c);
        let after = visible_names(&app);
        let mut rest = before.iter();
        for name in &after {
            assert!(rest.any(|b| b == name), "{name} was not visible before");
        }
        before = after;
    }
    assert_eq!(before, vec!["steam", "steam-devices"]);
}

#[test]
fn unicode_query_is_lowercased() {
    let mut app = App::new(Ok(vec![pkg("élan", "1"), pkg("elan", "1")]));
    app.search_input('É');
    assert_eq!(visible_names(&app), vec!["élan"]);
}
