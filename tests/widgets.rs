use reddit_notifier::checkbox_list::CheckboxList;
use reddit_notifier::dialog::DialogType;
use reddit_notifier::dropdown::Dropdown;
use reddit_notifier::form_field::{FormField, ValidationState};
use reddit_notifier::keys::Key;
use reddit_notifier::messages::MessageDisplay;
use reddit_notifier::navigation::Navigable;
use reddit_notifier::paginated_view::PaginatedView;
use reddit_notifier::text_input::{
    alphanumeric_validator, digit_validator, url_validator, subreddit_validator, CharRule, TextInput,
};

#[derive(Debug, Clone, PartialEq)]
struct TestItem {
    id: i64,
    name: String,
}

fn create_test_list() -> CheckboxList<TestItem> {
    let items = vec![
        TestItem { id: 1, name: "Alice".to_string() },
        TestItem { id: 2, name: "Bob".to_string() },
        TestItem { id: 3, name: "Charlie".to_string() },
    ];
    CheckboxList::new(items)
}

#[test]
fn test_new_list() {
    let list = create_test_list();
    assert_eq!(list.len(), 3);
    assert_eq!(list.selected_idx, 0);
    assert!(list.checked_indices.is_empty());
    assert!(!list.is_empty());
}

#[test]
fn test_with_checked() {
    let items = vec![
        TestItem { id: 1, name: "Alice".to_string() },
        TestItem { id: 2, name: "Bob".to_string() },
    ];
    let list = CheckboxList::with_checked(items, vec![0, 1]);
    assert_eq!(list.checked_indices.len(), 2);
    assert!(list.is_checked(0));
    assert!(list.is_checked(1));
}

#[test]
fn test_toggle_current() {
    let mut list = create_test_list();
    assert!(!list.is_checked(0));
    list.toggle_current();
    assert!(list.is_checked(0));
    list.toggle_current();
    assert!(!list.is_checked(0));
}

#[test]
fn test_select_all() {
    let mut list = create_test_list();
    list.select_all();
    assert_eq!(list.checked_indices.len(), 3);
    assert!(list.is_checked(0));
    assert!(list.is_checked(1));
    assert!(list.is_checked(2));
}

#[test]
fn test_deselect_all() {
    let mut list = create_test_list();
    list.select_all();
    assert_eq!(list.checked_indices.len(), 3);
    list.deselect_all();
    assert!(list.checked_indices.is_empty());
}

#[test]
fn test_toggle_all() {
    let mut list = create_test_list();
    list.toggle_all();
    assert_eq!(list.checked_indices.len(), 3);
    list.toggle_all();
    assert!(list.checked_indices.is_empty());
}

#[test]
fn test_get_checked_items() {
    let mut list = create_test_list();
    list.checked_indices.insert(0);
    list.checked_indices.insert(2);
    let checked = list.get_checked_items();
    assert_eq!(checked.len(), 2);
    assert_eq!(checked[0].name, "Alice");
    assert_eq!(checked[1].name, "Charlie");
}

#[test]
fn test_get_checked_indices() {
    let mut list = create_test_list();
    list.checked_indices.insert(2);
    list.checked_indices.insert(0);
    let indices = list.get_checked_indices();
    assert_eq!(indices, vec![0, 2]);
}

#[test]
fn checked_items_skip_indices_past_the_end() {
    let mut list = create_test_list();
    list.checked_indices.insert(7);
    list.checked_indices.insert(1);
    assert_eq!(list.get_checked_indices(), vec![1, 7]);
    let checked = list.get_checked_items();
    assert_eq!(checked.len(), 1);
    assert_eq!(checked[0].id, 2);
}

#[test]
fn checkbox_list_test_handle_key() {
    let mut list = create_test_list();
    assert!(list.handle_key(Key::Down));
    assert_eq!(list.selected_idx, 1);
    assert!(list.handle_key(Key::Up));
    assert_eq!(list.selected_idx, 0);
    assert!(list.handle_key(Key::Char(' ')));
    assert!(list.is_checked(0));
    assert!(list.handle_key(Key::Char('a')));
    assert_eq!(list.checked_indices.len(), 3);
    assert!(!list.handle_key(Key::Enter));
}

#[test]
fn checkbox_list_test_navigation() {
    let mut list = create_test_list();
    assert_eq!(list.selected(), 0);
    list.next();
    assert_eq!(list.selected(), 1);
    list.next();
    assert_eq!(list.selected(), 2);
    list.next();
    assert_eq!(list.selected(), 0);
    list.previous();
    assert_eq!(list.selected(), 2);
}

#[test]
fn checkbox_list_test_navigable_trait() {
    let mut list = create_test_list();
    assert_eq!(Navigable::len(&list), 3);
    assert_eq!(Navigable::selected(&list), 0);
    Navigable::set_selected(&mut list, 2);
    assert_eq!(Navigable::selected(&list), 2);
}

fn create_test_dropdown() -> Dropdown {
    let options = vec![
        "Apple".to_string(),
        "Banana".to_string(),
        "Cherry".to_string(),
        "Date".to_string(),
    ];
    Dropdown::new(options, "Select Fruit")
}

#[test]
fn test_new_dropdown() {
    let dropdown = create_test_dropdown();
    assert_eq!(dropdown.options.len(), 4);
    assert_eq!(dropdown.selected, 0);
    assert!(dropdown.filter.is_empty());
    assert_eq!(dropdown.title, "Select Fruit");
    assert!(!dropdown.allow_none);
}

#[test]
fn test_with_none_option() {
    let dropdown = create_test_dropdown().with_none_option();
    assert!(dropdown.allow_none);
}

#[test]
fn test_filtered_options() {
    let mut dropdown = create_test_dropdown();
    let filtered = dropdown.filtered_options();
    assert_eq!(filtered.len(), 4);
    dropdown.filter = "an".to_string();
    let filtered = dropdown.filtered_options();
    assert_eq!(filtered.len(), 1);
    assert_eq!(filtered[0].1, "Banana");
    dropdown.filter = "a".to_string();
    let filtered = dropdown.filtered_options();
    assert_eq!(filtered.len(), 3);
}

#[test]
fn dropdown_filter_ignores_case() {
    let mut dropdown = create_test_dropdown();
    dropdown.filter = "CH".to_string();
    let filtered = dropdown.filtered_options();
    assert_eq!(filtered.len(), 1);
    assert_eq!(filtered[0].0, 2);
    assert_eq!(dropdown.selected_index(), Some(2));
}

#[test]
fn test_selected_option() {
    let dropdown = create_test_dropdown();
    let selected = dropdown.selected_option();
    assert_eq!(selected, Some(&"Apple".to_string()));
}

#[test]
fn test_selected_index() {
    let dropdown = create_test_dropdown();
    let index = dropdown.selected_index();
    assert_eq!(index, Some(0));
}

#[test]
fn test_handle_key_navigation() {
    let mut dropdown = create_test_dropdown();
    assert_eq!(dropdown.handle_key(Key::Down), None);
    assert_eq!(dropdown.selected, 1);
    assert_eq!(dropdown.handle_key(Key::Up), None);
    assert_eq!(dropdown.selected, 0);
    assert_eq!(dropdown.handle_key(Key::Enter), Some(0));
}

#[test]
fn test_handle_key_filter() {
    let mut dropdown = create_test_dropdown();
    dropdown.handle_key(Key::Char('a'));
    assert_eq!(dropdown.filter, "a");
    assert_eq!(dropdown.selected, 0);
    dropdown.handle_key(Key::Char('n'));
    assert_eq!(dropdown.filter, "an");
    dropdown.handle_key(Key::Backspace);
    assert_eq!(dropdown.filter, "a");
}

#[test]
fn dropdown_test_navigation() {
    let mut dropdown = create_test_dropdown();
    assert_eq!(dropdown.selected(), 0);
    dropdown.next();
    assert_eq!(dropdown.selected(), 1);
    dropdown.next();
    assert_eq!(dropdown.selected(), 2);
    dropdown.previous();
    assert_eq!(dropdown.selected(), 1);
    dropdown.set_selected(3);
    assert_eq!(dropdown.selected(), 3);
}

#[test]
fn test_navigable_len() {
    let mut dropdown = create_test_dropdown();
    assert_eq!(Navigable::len(&dropdown), 4);
    dropdown.filter = "a".to_string();
    assert_eq!(Navigable::len(&dropdown), 3);
}

#[test]
fn test_new_form_field() {
    let field = FormField::new("Username");
    assert_eq!(field.label, "Username");
    assert!(!field.required);
    assert!(matches!(field.validation_state, ValidationState::Idle));
    assert!(!field.is_focused);
}

#[test]
fn test_required_field() {
    let field = FormField::new("Email").required();
    assert!(field.required);
}

#[test]
fn test_with_help() {
    let field = FormField::new("Password").with_help("Must be at least 8 characters");
    assert_eq!(field.help_text, Some("Must be at least 8 characters".to_string()));
}

#[test]
fn test_validate_sync_empty_required() {
    let mut field = FormField::new("Name").required();
    let result = field.validate_sync();
    assert!(result.is_err());
    assert!(matches!(field.validation_state, ValidationState::Invalid(_)));
}

#[test]
fn test_validate_sync_empty_optional() {
    let mut field = FormField::new("Nickname");
    let result = field.validate_sync();
    assert!(result.is_ok());
    assert!(matches!(field.validation_state, ValidationState::Valid(_)));
}

#[test]
fn test_validate_sync_with_value() {
    let mut field = FormField::new("Name")
        .required()
        .with_input(TextInput::new().with_value("John"));
    let result = field.validate_sync();
    assert!(result.is_ok());
    assert!(matches!(field.validation_state, ValidationState::Valid(_)));
}

#[test]
fn validate_sync_whitespace_only_required() {
    let mut field = FormField::new("Name")
        .required()
        .with_input(TextInput::new().with_value("  \t "));
    assert_eq!(field.validate_sync(), Err("Field is required".to_string()));
}

#[test]
fn test_validation_clears_on_input() {
    let mut field = FormField::new("Name").required();
    field.validate_sync().ok();
    assert!(matches!(field.validation_state, ValidationState::Invalid(_)));
    field.handle_key(Key::Char('a'));
    assert!(matches!(field.validation_state, ValidationState::Idle));
}

#[test]
fn test_focus_state() {
    let mut field = FormField::new("Test");
    assert!(!field.is_focused);
    assert!(!field.input.is_focused);
    field.set_focused(true);
    assert!(field.is_focused);
    assert!(field.input.is_focused);
}

#[test]
fn test_validation_state_icon() {
    assert_eq!(ValidationState::Idle.icon(), "");
    assert_eq!(ValidationState::Validating.icon(), "⋯");
    assert_eq!(ValidationState::Valid(None).icon(), "✓");
    assert_eq!(ValidationState::Invalid("error".to_string()).icon(), "✗");
}

#[test]
fn test_validation_state_message() {
    assert_eq!(ValidationState::Idle.message(), None);
    assert_eq!(ValidationState::Validating.message(), None);
    assert_eq!(ValidationState::Valid(Some("Good!".to_string())).message(), Some("Good!"));
    assert_eq!(ValidationState::Valid(None).message(), None);
    assert_eq!(ValidationState::Invalid("Bad!".to_string()).message(), Some("Bad!"));
}

#[test]
fn test_dialog_type_titles() {
    assert_eq!(DialogType::Error.default_title(), "Error");
    assert_eq!(DialogType::Success.default_title(), "Success");
    assert_eq!(DialogType::Warning.default_title(), "Warning");
    assert_eq!(DialogType::Info.default_title(), "Information");
    assert_eq!(DialogType::Confirmation.default_title(), "Confirm");
}

#[derive(Debug, Clone, PartialEq)]
struct PageItem {
    id: i64,
}

fn create_test_view(count: usize, page_size: usize) -> PaginatedView<PageItem> {
    let items: Vec<PageItem> = (1..=count).map(|id| PageItem { id: id as i64 }).collect();
    PaginatedView::new(items, page_size)
}

#[test]
fn test_new_view() {
    let view = create_test_view(25, 10);
    assert_eq!(view.total_items(), 25);
    assert_eq!(view.page_size, 10);
    assert_eq!(view.current_page, 0);
}

#[test]
fn test_total_pages() {
    let view = create_test_view(25, 10);
    assert_eq!(view.total_pages(), 3);
    let view = create_test_view(30, 10);
    assert_eq!(view.total_pages(), 3);
    let view = create_test_view(5, 10);
    assert_eq!(view.total_pages(), 1);
    let view: PaginatedView<PageItem> = PaginatedView::new(vec![], 10);
    assert_eq!(view.total_pages(), 1);
}

#[test]
fn test_current_page_items() {
    let view = create_test_view(25, 10);
    let items = view.current_page_items();
    assert_eq!(items.len(), 10);
    assert_eq!(items[0].id, 1);
    assert_eq!(items[9].id, 10);
}

#[test]
fn test_pagination() {
    let mut view = create_test_view(25, 10);
    assert_eq!(view.current_page_number(), 1);
    assert!(view.is_first_page());
    assert!(!view.is_last_page());
    view.next_page();
    assert_eq!(view.current_page_number(), 2);
    assert!(!view.is_first_page());
    assert!(!view.is_last_page());
    let items = view.current_page_items();
    assert_eq!(items.len(), 10);
    assert_eq!(items[0].id, 11);
    view.next_page();
    assert_eq!(view.current_page_number(), 3);
    assert!(!view.is_first_page());
    assert!(view.is_last_page());
    let items = view.current_page_items();
    assert_eq!(items.len(), 5);
    assert_eq!(items[0].id, 21);
    view.next_page();
    assert_eq!(view.current_page_number(), 3);
    view.prev_page();
    assert_eq!(view.current_page_number(), 2);
}

#[test]
fn test_first_last_page() {
    let mut view = create_test_view(25, 10);
    view.last_page();
    assert_eq!(view.current_page_number(), 3);
    assert!(view.is_last_page());
    view.first_page();
    assert_eq!(view.current_page_number(), 1);
    assert!(view.is_first_page());
}

#[test]
fn test_page_info() {
    let view = create_test_view(25, 10);
    assert_eq!(view.page_info(), "Page 1/3");
}

#[test]
fn test_item_range_info() {
    let mut view = create_test_view(25, 10);
    assert_eq!(view.item_range_info(), "Showing 1-10 of 25");
    view.next_page();
    assert_eq!(view.item_range_info(), "Showing 11-20 of 25");
    view.next_page();
    assert_eq!(view.item_range_info(), "Showing 21-25 of 25");
    let empty: PaginatedView<PageItem> = PaginatedView::new(vec![], 10);
    assert_eq!(empty.item_range_info(), "No items");
}

#[test]
fn paginated_view_test_handle_key() {
    let mut view = create_test_view(25, 10);
    assert!(view.handle_key(Key::PageDown));
    assert_eq!(view.current_page_number(), 2);
    assert!(view.handle_key(Key::Char(']')));
    assert_eq!(view.current_page_number(), 3);
    assert!(view.handle_key(Key::PageUp));
    assert_eq!(view.current_page_number(), 2);
    assert!(view.handle_key(Key::Char('[')));
    assert_eq!(view.current_page_number(), 1);
    view.current_page = 2;
    assert!(view.handle_key(Key::Home));
    assert_eq!(view.current_page_number(), 1);
    assert!(view.handle_key(Key::End));
    assert_eq!(view.current_page_number(), 3);
    assert!(!view.handle_key(Key::Enter));
}

#[test]
fn test_page_size_minimum() {
    let view = PaginatedView::new(vec![PageItem { id: 1 }], 0);
    assert_eq!(view.page_size, 1);
}

#[test]
fn test_empty_view() {
    let view: PaginatedView<PageItem> = PaginatedView::new(vec![], 10);
    assert!(view.is_empty());
    assert_eq!(view.total_pages(), 1);
    assert_eq!(view.current_page_items().len(), 0);
}

#[test]
fn test_new_text_input() {
    let input = TextInput::new();
    assert_eq!(input.value, "");
    assert_eq!(input.cursor_pos, 0);
    assert!(!input.is_focused);
}

#[test]
fn test_with_value() {
    let input = TextInput::new().with_value("hello");
    assert_eq!(input.value, "hello");
    assert_eq!(input.cursor_pos, 5);
}

#[test]
fn test_char_input() {
    let mut input = TextInput::new();
    assert!(input.handle_key(Key::Char('a')));
    assert_eq!(input.value, "a");
    assert_eq!(input.cursor_pos, 1);
}

#[test]
fn test_backspace() {
    let mut input = TextInput::new().with_value("abc");
    assert!(input.handle_key(Key::Backspace));
    assert_eq!(input.value, "ab");
    assert_eq!(input.cursor_pos, 2);
}

#[test]
fn insert_and_delete_in_the_middle() {
    let mut input = TextInput::new().with_value("ac");
    assert!(input.handle_key(Key::Left));
    assert!(input.handle_key(Key::Char('b')));
    assert_eq!(input.value, "abc");
    assert_eq!(input.cursor_pos, 2);
    assert!(input.handle_key(Key::Delete));
    assert_eq!(input.value, "ab");
    assert!(!input.handle_key(Key::Delete));
}

#[test]
fn test_max_length() {
    let mut input = TextInput::new().with_max_length(3);
    input.handle_key(Key::Char('a'));
    input.handle_key(Key::Char('b'));
    input.handle_key(Key::Char('c'));
    assert!(!input.handle_key(Key::Char('d')));
    assert_eq!(input.value, "abc");
}

#[test]
fn test_validator() {
    let mut input = TextInput::new().with_validator(CharRule::Digit);
    assert!(input.handle_key(Key::Char('5')));
    assert!(!input.handle_key(Key::Char('a')));
    assert_eq!(input.value, "5");
}

#[test]
fn test_cursor_movement() {
    let mut input = TextInput::new().with_value("abc");
    input.cursor_pos = 3;
    assert!(input.handle_key(Key::Left));
    assert_eq!(input.cursor_pos, 2);
    assert!(input.handle_key(Key::Right));
    assert_eq!(input.cursor_pos, 3);
    assert!(input.handle_key(Key::Home));
    assert_eq!(input.cursor_pos, 0);
    assert!(input.handle_key(Key::End));
    assert_eq!(input.cursor_pos, 3);
}

#[test]
fn text_input_test_clear() {
    let mut input = TextInput::new().with_value("test");
    input.clear();
    assert_eq!(input.value, "");
    assert_eq!(input.cursor_pos, 0);
}

#[test]
fn test_alphanumeric_validator() {
    assert!(alphanumeric_validator('a'));
    assert!(alphanumeric_validator('Z'));
    assert!(alphanumeric_validator('5'));
    assert!(alphanumeric_validator('_'));
    assert!(!alphanumeric_validator('-'));
    assert!(!alphanumeric_validator(' '));
}

#[test]
fn test_digit_validator() {
    assert!(digit_validator('0'));
    assert!(digit_validator('9'));
    assert!(!digit_validator('a'));
    assert!(!digit_validator('-'));
}

#[test]
fn test_url_validator() {
    assert!(url_validator('h'));
    assert!(url_validator(':'));
    assert!(url_validator('/'));
    assert!(url_validator('.'));
    assert!(url_validator('?'));
    assert!(!url_validator(' '));
    assert!(!url_validator('#'));
}

#[test]
fn subreddit_validator_accepts_name_characters() {
    assert!(subreddit_validator('r'));
    assert!(subreddit_validator('_'));
    assert!(!subreddit_validator('+'));
}

#[test]
fn test_new_is_empty() {
    let msg = MessageDisplay::new();
    assert!(!msg.has_message());
    assert_eq!(msg.error, None);
    assert_eq!(msg.success, None);
}

#[test]
fn test_set_error() {
    let mut msg = MessageDisplay::default();
    msg.set_error("Test error".to_string());
    assert!(msg.has_message());
    assert_eq!(msg.error, Some("Test error".to_string()));
    assert_eq!(msg.success, None);
}

#[test]
fn test_set_success() {
    let mut msg = MessageDisplay::default();
    msg.set_success("Test success".to_string());
    assert!(msg.has_message());
    assert_eq!(msg.success, Some("Test success".to_string()));
    assert_eq!(msg.error, None);
}

#[test]
fn test_set_success_clears_error() {
    let mut msg = MessageDisplay::default();
    msg.set_error("Error".to_string());
    msg.set_success("Success".to_string());
    assert_eq!(msg.error, None);
    assert_eq!(msg.success, Some("Success".to_string()));
}

#[test]
fn test_set_error_clears_success() {
    let mut msg = MessageDisplay::default();
    msg.set_success("Success".to_string());
    msg.set_error("Error".to_string());
    assert_eq!(msg.success, None);
    assert_eq!(msg.error, Some("Error".to_string()));
}

#[test]
fn messages_test_clear() {
    let mut msg = MessageDisplay::default();
    msg.set_error("Error".to_string());
    assert!(msg.has_message());
    msg.clear();
    assert!(!msg.has_message());
    assert_eq!(msg.error, None);
    assert_eq!(msg.success, None);
}
