use pac_tui::app::{App, Package};
use pac_tui::event::{handle_key, key_is_safe, KeyCode, KeyEvent, KeyEventKind, KeyOutcome};
use pac_tui::tab::Tab;

fn pkg(name: &str) -> Package {
    Package { name: name.to_string(), version: "1.0-1".to_string() }
}

fn app() -> App {
    App::new(Ok(vec![pkg("bash"), pkg("coreutils"), pkg("curl")]))
}

fn press(code: KeyCode) -> KeyEvent {
    KeyEvent { code, kind: KeyEventKind::Press }
}

fn is_continue(o: &KeyOutcome) -> bool {
    matches!(o, KeyOutcome::Continue)
}

#[test]
fn only_presses_count() {
    let mut a = app();
    let r = handle_key(&mut a, KeyEvent { code: KeyCode::Char('q'), kind: KeyEventKind::Release });
    assert!(is_continue(&r));
    assert!(!a.should_quit);
    let r = handle_key(&mut a, KeyEvent { code: KeyCode::Down, kind: KeyEventKind::Repeat });
    assert!(is_continue(&r));
    assert_eq!(a.selected_index, 0);
}

#[test]
fn q_quits() {
    let mut a = app();
    let r = handle_key(&mut a, press(KeyCode::Char('q')));
    assert!(matches!(r, KeyOutcome::Quit));
    assert!(a.should_quit);
}

#[test]
fn q_is_typed_while_searching() {
    let mut a = app();
    a.open_search();
    let r = handle_key(&mut a, press(KeyCode::Char('q')));
    assert!(is_continue(&r));
    assert!(!a.should_quit);
    assert_eq!(a.search_query, "q");
}

#[test]
fn tab_and_backtab_switch_tabs_and_reset_selection() {
    let mut a = app();
    a.selected_index = 2;
    handle_key(&mut a, press(KeyCode::Tab));
    assert_eq!(a.current_tab, Tab::Search);
    assert_eq!(a.selected_index, 0);
    handle_key(&mut a, press(KeyCode::BackTab));
    handle_key(&mut a, press(KeyCode::BackTab));
    assert_eq!(a.current_tab, Tab::Updates);
}

#[test]
fn navigation_keys() {
    let mut a = app();
    handle_key(&mut a, press(KeyCode::Down));
    handle_key(&mut a, press(KeyCode::Char('j')));
    assert_eq!(a.selected_index, 2);
    handle_key(&mut a, press(KeyCode::Char('j')));
    assert_eq!(a.selected_index, 0);
    handle_key(&mut a, press(KeyCode::Char('G')));
    assert_eq!(a.selected_index, 2);
    handle_key(&mut a, press(KeyCode::Up));
    handle_key(&mut a, press(KeyCode::Char('k')));
    assert_eq!(a.selected_index, 0);
    handle_key(&mut a, press(KeyCode::Char('G')));
    handle_key(&mut a, press(KeyCode::Char('g')));
    assert_eq!(a.selected_index, 0);
}

#[test]
fn enter_asks_for_details_then_closes_them() {
    let mut a = app();
    a.selected_index = 1;
    let r = handle_key(&mut a, press(KeyCode::Enter));
    match r {
        KeyOutcome::LoadDetails(name) => assert_eq!(name, "coreutils"),
        _ => panic!("expected a details request"),
    }
    a.receive_details(Ok(vec!["Name : coreutils".to_string()]));
    let r = handle_key(&mut a, press(KeyCode::Enter));
    assert!(is_continue(&r));
    assert!(!a.show_details);
    assert!(a.package_details.is_none());
}

#[test]
fn enter_on_other_tab_asks_nothing() {
    let mut a = app();
    a.current_tab = Tab::Updates;
    let r = handle_key(&mut a, press(KeyCode::Enter));
    assert!(is_continue(&r));
    assert!(!a.show_details);
}

#[test]
fn slash_opens_search_on_packages_tab_only() {
    let mut a = app();
    a.current_tab = Tab::Search;
    handle_key(&mut a, press(KeyCode::Char('/')));
    assert!(!a.searching);
    a.current_tab = Tab::Packages;
    handle_key(&mut a, press(KeyCode::Char('/')));
    assert!(a.searching);
}

#[test]
fn search_keys() {
    let mut a = app();
    handle_key(&mut a, press(KeyCode::Char('/')));
    handle_key(&mut a, press(KeyCode::Char('c')));
    handle_key(&mut a, press(KeyCode::Char('u')));
    handle_key(&mut a, press(KeyCode::Char('x')));
    handle_key(&mut a, press(KeyCode::Backspace));
    assert_eq!(a.search_query, "cu");
    handle_key(&mut a, press(KeyCode::Down));
    assert_eq!(a.selected_index, 0);
    handle_key(&mut a, press(KeyCode::Enter));
    assert!(!a.searching);
    assert_eq!(a.search_query, "cu");
    assert_eq!(a.list_len(), 1);
}

#[test]
fn esc_in_search_cancels() {
    let mut a = app();
    handle_key(&mut a, press(KeyCode::Char('/')));
    handle_key(&mut a, press(KeyCode::Char('c')));
    handle_key(&mut a, press(KeyCode::Esc));
    assert!(!a.searching);
    assert_eq!(a.search_query, "");
}

#[test]
fn esc_after_confirmed_search_clears_filter_else_closes_details() {
    let mut a = app();
    a.search_query = "cu".to_string();
    a.receive_details(Ok(vec!["x".to_string()]));
    handle_key(&mut a, press(KeyCode::Esc));
    assert_eq!(a.search_query, "");
    assert!(a.show_details);
    handle_key(&mut a, press(KeyCode::Esc));
    assert!(!a.show_details);
}

#[test]
fn other_keys_do_nothing() {
    let mut a = app();
    let r = handle_key(&mut a, press(KeyCode::Other));
    assert!(is_continue(&r));
    let r = handle_key(&mut a, press(KeyCode::Char('z')));
    assert!(is_continue(&r));
    assert_eq!(a.selected_index, 0);
    assert!(!a.searching);
}

#[test]
fn key_safety_follows_the_selection() {
    let mut a = app();
    assert!(key_is_safe(&a, press(KeyCode::Enter)));
    a.selected_index = 7;
    assert!(!key_is_safe(&a, press(KeyCode::Enter)));
    a.selected_index = usize::MAX;
    assert!(!key_is_safe(&a, press(KeyCode::Down)));
    assert!(key_is_safe(&a, press(KeyCode::Up)));
}
