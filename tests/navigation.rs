use reddit_notifier::navigation::Navigable;
use reddit_notifier::screens::{LogsState, MainMenuState, ScreenId, ScreenStateMachine};

struct TestNav {
    items: Vec<String>,
    selected: usize,
}

impl Navigable for TestNav {
    fn len(&self) -> usize {
        self.items.len()
    }

    fn selected(&self) -> usize {
        self.selected
    }

    fn set_selected(&mut self, index: usize) {
        self.selected = index;
    }
}

#[test]
fn test_next_wraps_around() {
    let mut nav = TestNav { items: vec!["a".to_string(), "b".to_string(), "c".to_string()], selected: 2 };
    nav.next();
    assert_eq!(nav.selected(), 0);
}

#[test]
fn test_next_increments() {
    let mut nav = TestNav { items: vec!["a".to_string(), "b".to_string()], selected: 0 };
    nav.next();
    assert_eq!(nav.selected(), 1);
}

#[test]
fn test_previous_wraps_around() {
    let mut nav = TestNav { items: vec!["a".to_string(), "b".to_string()], selected: 0 };
    nav.previous();
    assert_eq!(nav.selected(), 1);
}

#[test]
fn test_previous_decrements() {
    let mut nav = TestNav { items: vec!["a".to_string(), "b".to_string()], selected: 1 };
    nav.previous();
    assert_eq!(nav.selected(), 0);
}

#[test]
fn test_first_and_last() {
    let mut nav = TestNav { items: vec!["a".to_string(), "b".to_string(), "c".to_string()], selected: 1 };
    nav.first();
    assert_eq!(nav.selected(), 0);
    nav.last();
    assert_eq!(nav.selected(), 2);
}

#[test]
fn test_empty_list() {
    let mut nav = TestNav { items: vec![], selected: 0 };
    assert!(nav.is_empty());
    nav.next();
    nav.previous();
    nav.first();
    nav.last();
    assert_eq!(nav.selected(), 0);
}

#[test]
fn test_single_item() {
    let mut nav = TestNav { items: vec!["only".to_string()], selected: 0 };
    nav.next();
    assert_eq!(nav.selected(), 0);
    nav.previous();
    assert_eq!(nav.selected(), 0);
}

#[test]
fn next_from_beyond_the_end_wraps_by_remainder() {
    let mut nav = TestNav { items: vec!["a".to_string(), "b".to_string(), "c".to_string()], selected: 7 };
    nav.next();
    assert_eq!(nav.selected(), 2);
}

#[test]
fn main_menu_wraps() {
    let mut menu = MainMenuState::new();
    assert_eq!(menu.len(), 5);
    menu.previous();
    assert_eq!(menu.selected(), 4);
    menu.next();
    assert_eq!(menu.selected(), 0);
}

#[test]
fn state_machine_goes_to_and_back() {
    let mut sm = ScreenStateMachine::new();
    assert_eq!(sm.current(), ScreenId::MainMenu);
    sm.go_to(ScreenId::Logs);
    sm.go_to(ScreenId::Endpoints);
    assert_eq!(sm.history(), &[ScreenId::MainMenu, ScreenId::Logs]);
    assert!(sm.go_back());
    assert_eq!(sm.current(), ScreenId::Logs);
    sm.clear_history();
    assert!(!sm.go_back());
    assert_eq!(sm.current(), ScreenId::Logs);
}

#[test]
fn logs_paging_and_filters() {
    let mut logs = LogsState::new();
    assert_eq!(logs.truncate_days_input, "7");
    assert_eq!(logs.total_pages(), 1);
    logs.total_count = 101;
    assert_eq!(logs.total_pages(), 3);
    logs.next_page();
    logs.next_page();
    logs.next_page();
    assert_eq!(logs.current_page, 2);
    logs.prev_page();
    assert_eq!(logs.current_page, 1);
    logs.available_subreddits = vec!["rust".to_string(), "golang".to_string()];
    logs.prev_filter();
    assert_eq!(logs.filter_selected, 2);
    logs.next_filter();
    assert_eq!(logs.filter_selected, 0);
    logs.next_post();
    assert_eq!(logs.selected_post, 0);
}
