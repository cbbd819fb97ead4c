//! Screen identities, navigation history, and the state of each screen.
use vstd::prelude::*;
use crate::checkbox_list::CheckboxList;
use crate::config_builder::ConfigBuilder;
use crate::keys::Key;
use crate::models::{EndpointRow, NotifiedPostRow, SubscriptionRow};
use crate::navigation::Navigable;
use crate::text_input::TextInput;

verus! {

/// The screens of the configuration interface.
#[derive(Debug, Clone, Copy, PartialEq, Eq, Hash, Structural)]
pub enum ScreenId {
    MainMenu,
    Subscriptions,
    Endpoints,
    TestNotification,
    Logs,
}

/// Where a key press leads.
#[derive(Debug, Clone, Copy, PartialEq, Eq, Structural)]
pub enum ScreenTransition {
    Stay,
    GoTo(ScreenId),
    Back,
    Quit,
}

/// The current screen and the screens visited before it.
#[derive(Debug)]
pub struct ScreenStateMachine {
    pub current: ScreenId,
    pub history: Vec<ScreenId>,
}

impl ScreenStateMachine {
    /// Starts on the main menu with no history.
    pub fn new() -> (r: ScreenStateMachine)
        ensures
            r.current == ScreenId::MainMenu,
            r.history@.len() == 0,
    {
        ScreenStateMachine { current: ScreenId::MainMenu, history: Vec::new() }
    }

    /// Goes to a screen, remembering the current one.
    pub fn go_to(&mut self, screen_id: ScreenId)
        ensures
            final(self).current == screen_id,
            final(self).history@ == old(self).history@.push(old(self).current),
    {
        self.history.push(self.current);
        self.current = screen_id;
    }

    /// Returns to the last remembered screen; false when there is none.
    pub fn go_back(&mut self) -> (r: bool)
        ensures
            r == (old(self).history@.len() > 0),
            r ==> final(self).current == old(self).history@.last() && final(self).history@ == old(self).history@.drop_last(),
            !r ==> final(self).current == old(self).current && final(self).history@ == old(self).history@,
    {
        match self.history.pop() {
            Some(previous) => {
                self.current = previous;
                true
            },
            None => false,
        }
    }

    pub fn current(&self) -> (r: ScreenId)
        ensures
            r == self.current,
    {
        self.current
    }

    pub fn history(&self) -> (r: &[ScreenId])
        ensures
            r@ == self.history@,
    {
        self.history.as_slice()
    }

    /// Carries out a transition: going to a screen, going back, or nothing.
    /// Returns whether the transition asks to quit.
    pub fn apply(&mut self, t: ScreenTransition) -> (quit: bool)
        ensures
            quit == (t == ScreenTransition::Quit),
            t matches ScreenTransition::GoTo(id) ==> final(self).current == id
                && final(self).history@ == old(self).history@.push(old(self).current),
            t == ScreenTransition::Back && old(self).history@.len() > 0 ==> final(self).current == old(self).history@.last()
                && final(self).history@ == old(self).history@.drop_last(),
            (t == ScreenTransition::Stay || t == ScreenTransition::Quit || (t == ScreenTransition::Back
                && old(self).history@.len() == 0)) ==> final(self).current == old(self).current
                && final(self).history@ == old(self).history@,
    {
        match t {
            ScreenTransition::Stay => false,
            ScreenTransition::GoTo(id) => {
                self.go_to(id);
                false
            },
            ScreenTransition::Back => {
                self.go_back();
                false
            },
            ScreenTransition::Quit => true,
        }
    }

    pub fn clear_history(&mut self)
        ensures
            final(self).current == old(self).current,
            final(self).history@.len() == 0,
    {
        self.history.clear();
    }
}

impl Default for ScreenStateMachine {
    fn default() -> (r: ScreenStateMachine)
        ensures
            r.current == ScreenId::MainMenu,
            r.history@.len() == 0,
    {
        ScreenStateMachine::new()
    }
}

/// Going to a screen and back returns to where one was, with the same history.
pub proof fn lemma_go_to_then_back(
    m0: ScreenStateMachine,
    target: ScreenId,
    m1: ScreenStateMachine,
    m2: ScreenStateMachine,
    r: bool,
)
    requires
        m1.current == target,
        m1.history@ == m0.history@.push(m0.current),
        r == (m1.history@.len() > 0),
        r ==> m2.current == m1.history@.last() && m2.history@ == m1.history@.drop_last(),
    ensures
        r,
        m2.current == m0.current,
        m2.history@ == m0.history@,
{
    assert(m1.history@.drop_last() =~= m0.history@);
}

/// The main menu: its entries and the selected one.
#[derive(Debug)]
pub struct MainMenuState {
    pub selected: usize,
    pub items: Vec<&'static str>,
}

impl MainMenuState {
    pub fn new() -> (r: MainMenuState)
        ensures
            r.selected == 0,
            r.items@.len() == 5,
    {
        let mut items: Vec<&'static str> = Vec::new();
        items.push("Manage Subscriptions");
        items.push("Manage Endpoints");
        items.push("Test Notification");
        items.push("View Logs");
        items.push("Quit");
        MainMenuState { selected: 0, items }
    }
}

/// The screen that each main-menu entry opens; the last entry quits.
pub open spec fn menu_choice(index: nat) -> ScreenTransition {
    if index == 0 {
        ScreenTransition::GoTo(ScreenId::Subscriptions)
    } else if index == 1 {
        ScreenTransition::GoTo(ScreenId::Endpoints)
    } else if index == 2 {
        ScreenTransition::GoTo(ScreenId::TestNotification)
    } else if index == 3 {
        ScreenTransition::GoTo(ScreenId::Logs)
    } else if index == 4 {
        ScreenTransition::Quit
    } else {
        ScreenTransition::Stay
    }
}

impl MainMenuState {
    /// Up and Down move through the entries, Enter opens the selected one,
    /// `q` quits; anything else stays.
    pub fn handle_key(&mut self, key: Key) -> (r: ScreenTransition)
        ensures
            final(self).items@ == old(self).items@,
            key == Key::Enter ==> r == menu_choice(old(self).selected as nat) && final(self).selected == old(self).selected,
            key == Key::Char('q') ==> r == ScreenTransition::Quit,
            key != Key::Enter && key != Key::Char('q') ==> r == ScreenTransition::Stay,
            key == Key::Down && old(self).items@.len() > 0 ==> final(self).selected == (old(self).selected + 1) % (old(self).items@.len() as int),
            key == Key::Up && old(self).items@.len() > 0 ==> final(self).selected == if old(self).selected > 0 {
                old(self).selected - 1
            } else {
                old(self).items@.len() - 1
            },
    {
        match key {
            Key::Up => {
                let n = self.items.len();
                if n > 0 {
                    self.selected = if self.selected > 0 { self.selected - 1 } else { n - 1 };
                }
                ScreenTransition::Stay
            },
            Key::Down => {
                let n = self.items.len();
                if n > 0 {
                    let m = self.selected % n;
                    proof {
                        crate::navigation::lemma_wrap_next(self.selected as int, n as int);
                    }
                    self.selected = if m + 1 == n { 0 } else { m + 1 };
                }
                ScreenTransition::Stay
            },
            Key::Enter => {
                if self.selected == 0 {
                    ScreenTransition::GoTo(ScreenId::Subscriptions)
                } else if self.selected == 1 {
                    ScreenTransition::GoTo(ScreenId::Endpoints)
                } else if self.selected == 2 {
                    ScreenTransition::GoTo(ScreenId::TestNotification)
                } else if self.selected == 3 {
                    ScreenTransition::GoTo(ScreenId::Logs)
                } else if self.selected == 4 {
                    ScreenTransition::Quit
                } else {
                    ScreenTransition::Stay
                }
            },
            Key::Char('q') => ScreenTransition::Quit,
            _ => ScreenTransition::Stay,
        }
    }
}

impl Navigable for MainMenuState {
    open spec fn nav_len(&self) -> nat {
        self.items@.len()
    }

    open spec fn nav_selected(&self) -> nat {
        self.selected as nat
    }

    fn len(&self) -> (r: usize) {
        self.items.len()
    }

    fn selected(&self) -> (r: usize) {
        self.selected
    }

    fn set_selected(&mut self, index: usize) {
        self.selected = index;
    }
}

/// What the endpoints screen is doing.
#[derive(Debug, Clone)]
pub enum EndpointsMode {
    List,
    Creating(ConfigBuilder),
    Editing { endpoint_id: i64, builder: ConfigBuilder },
    Viewing { endpoint: EndpointRow },
    ConfirmDelete { endpoint_id: i64, endpoint_desc: String },
}

#[derive(Debug)]
pub struct EndpointsState {
    pub endpoints: Vec<EndpointRow>,
    pub selected: usize,
    pub mode: EndpointsMode,
}

impl EndpointsState {
    pub fn new() -> (r: EndpointsState)
        ensures
            r.endpoints@.len() == 0,
            r.selected == 0,
            r.mode is List,
    {
        EndpointsState { endpoints: Vec::new(), selected: 0, mode: EndpointsMode::List }
    }
}

impl Navigable for EndpointsState {
    open spec fn nav_len(&self) -> nat {
        self.endpoints@.len()
    }

    open spec fn nav_selected(&self) -> nat {
        self.selected as nat
    }

    fn len(&self) -> (r: usize) {
        self.endpoints.len()
    }

    fn selected(&self) -> (r: usize) {
        self.selected
    }

    fn set_selected(&mut self, index: usize) {
        self.selected = index;
    }
}

/// What the subscriptions screen is doing.
#[derive(Debug)]
pub enum SubscriptionsMode {
    List,
    Creating(TextInput),
    ManagingEndpoints { subscription_id: i64, checkbox_list: CheckboxList<EndpointRow> },
    ConfirmDelete { subscription_id: i64, subreddit_name: String },
}

#[derive(Debug)]
pub struct SubscriptionsState {
    pub subscriptions: Vec<SubscriptionRow>,
    pub selected: usize,
    pub mode: SubscriptionsMode,
}

impl SubscriptionsState {
    pub fn new() -> (r: SubscriptionsState)
        ensures
            r.subscriptions@.len() == 0,
            r.selected == 0,
            r.mode is List,
    {
        SubscriptionsState { subscriptions: Vec::new(), selected: 0, mode: SubscriptionsMode::List }
    }
}

impl Navigable for SubscriptionsState {
    open spec fn nav_len(&self) -> nat {
        self.subscriptions@.len()
    }

    open spec fn nav_selected(&self) -> nat {
        self.selected as nat
    }

    fn len(&self) -> (r: usize) {
        self.subscriptions.len()
    }

    fn selected(&self) -> (r: usize) {
        self.selected
    }

    fn set_selected(&mut self, index: usize) {
        self.selected = index;
    }
}

/// Progress of a test notification.
#[derive(Debug, Clone)]
pub enum TestStatus {
    Ready,
    Sending,
    Success(String),
    Error(String),
}

#[derive(Debug)]
pub struct TestNotificationState {
    pub endpoints: Vec<EndpointRow>,
    pub selected: usize,
    pub status: TestStatus,
}

impl TestNotificationState {
    pub fn new() -> (r: TestNotificationState)
        ensures
            r.endpoints@.len() == 0,
            r.selected == 0,
            r.status is Ready,
    {
        TestNotificationState { endpoints: Vec::new(), selected: 0, status: TestStatus::Ready }
    }
}

impl Navigable for TestNotificationState {
    open spec fn nav_len(&self) -> nat {
        self.endpoints@.len()
    }

    open spec fn nav_selected(&self) -> nat {
        self.selected as nat
    }

    fn len(&self) -> (r: usize) {
        self.endpoints.len()
    }

    fn selected(&self) -> (r: usize) {
        self.selected
    }

    fn set_selected(&mut self, index: usize) {
        self.selected = index;
    }
}

/// Rows of the notification history shown per page.
pub const LOGS_PAGE_SIZE: i64 = 50;

/// The notification-history screen.
#[derive(Debug)]
pub struct LogsState {
    pub posts: Vec<NotifiedPostRow>,
    pub current_page: i64,
    pub total_count: usize,
    pub filter_subreddit: Option<String>,
    pub available_subreddits: Vec<String>,
    pub filter_mode: bool,
    pub filter_selected: usize,
    pub selected_post: usize,
    pub confirm_delete: Option<i64>,
    pub truncate_mode: bool,
    pub truncate_days_input: String,
    pub truncate_result: Option<String>,
}

/// Pages of history for a number of rows: at least one.
pub open spec fn log_pages(total: int) -> int {
    let p = (total + LOGS_PAGE_SIZE - 1) / (LOGS_PAGE_SIZE as int);
    if p >= 1 { p } else { 1 }
}

impl LogsState {
    /// An empty history on the first page, keeping seven days when truncating.
    pub fn new() -> (r: LogsState)
        ensures
            r.posts@.len() == 0,
            r.current_page == 0,
            r.total_count == 0,
            r.filter_subreddit is None,
            r.available_subreddits@.len() == 0,
            !r.filter_mode,
            r.filter_selected == 0,
            r.selected_post == 0,
            r.confirm_delete is None,
            !r.truncate_mode,
            r.truncate_days_input@ == "7"@,
            r.truncate_result is None,
    {
        LogsState {
            posts: Vec::new(),
            current_page: 0,
            total_count: 0,
            filter_subreddit: None,
            available_subreddits: Vec::new(),
            filter_mode: false,
            filter_selected: 0,
            selected_post: 0,
            confirm_delete: None,
            truncate_mode: false,
            truncate_days_input: String::from_str("7"),
            truncate_result: None,
        }
    }

    /// Selects the following row, stopping at the last.
    pub fn next_post(&mut self)
        ensures
            final(self).posts@ == old(self).posts@,
            final(self).current_page == old(self).current_page,
            old(self).posts@.len() > 0 ==> final(self).selected_post == if old(self).selected_post + 1 <= old(self).posts@.len() - 1 {
                old(self).selected_post + 1
            } else {
                old(self).posts@.len() - 1
            },
            old(self).posts@.len() == 0 ==> final(self).selected_post == old(self).selected_post,
    {
        let n = self.posts.len();
        if n > 0 {
            self.selected_post = if self.selected_post >= n - 1 { n - 1 } else { self.selected_post + 1 };
        }
    }

    /// Selects the preceding row, stopping at the first.
    pub fn prev_post(&mut self)
        ensures
            final(self).posts@ == old(self).posts@,
            final(self).selected_post == if old(self).selected_post > 0 { old(self).selected_post - 1 } else { 0 },
    {
        if self.selected_post > 0 {
            self.selected_post = self.selected_post - 1;
        }
    }

    /// Pages of history, fifty rows each, at least one.
    pub fn total_pages(&self) -> (r: i64)
        requires
            self.total_count <= i64::MAX - LOGS_PAGE_SIZE,
        ensures
            r == log_pages(self.total_count as int),
            r >= 1,
    {
        let p = (self.total_count as i64 + LOGS_PAGE_SIZE - 1) / LOGS_PAGE_SIZE;
        if p >= 1 { p } else { 1 }
    }

    /// Moves to the following page, unless on the last.
    pub fn next_page(&mut self)
        requires
            old(self).total_count <= i64::MAX - LOGS_PAGE_SIZE,
        ensures
            final(self).total_count == old(self).total_count,
            final(self).current_page == if old(self).current_page < log_pages(old(self).total_count as int) - 1 {
                old(self).current_page + 1
            } else {
                old(self).current_page as int
            },
    {
        if self.current_page < self.total_pages() - 1 {
            self.current_page = self.current_page + 1;
        }
    }

    /// Moves to the preceding page, unless on the first.
    pub fn prev_page(&mut self)
        ensures
            final(self).total_count == old(self).total_count,
            final(self).current_page == if old(self).current_page > 0 {
                old(self).current_page - 1
            } else {
                old(self).current_page as int
            },
    {
        if self.current_page > 0 {
            self.current_page = self.current_page - 1;
        }
    }

    /// Moves the feed filter forward through "all" (0) and each feed, wrapping.
    pub fn next_filter(&mut self)
        requires
            old(self).available_subreddits@.len() < usize::MAX,
        ensures
            final(self).available_subreddits@ == old(self).available_subreddits@,
            old(self).available_subreddits@.len() > 0 ==> final(self).filter_selected == (old(self).filter_selected + 1) % (
            old(self).available_subreddits@.len() + 1) as int,
            old(self).available_subreddits@.len() == 0 ==> final(self).filter_selected == old(self).filter_selected,
    {
        let n = self.available_subreddits.len();
        if n > 0 {
            let m = n + 1;
            let r = self.filter_selected % m;
            proof {
                crate::navigation::lemma_wrap_next(self.filter_selected as int, m as int);
            }
            self.filter_selected = if r + 1 == m { 0 } else { r + 1 };
        }
    }

    /// Moves the feed filter backward, from "all" round to the last feed.
    pub fn prev_filter(&mut self)
        ensures
            final(self).available_subreddits@ == old(self).available_subreddits@,
            old(self).available_subreddits@.len() > 0 ==> final(self).filter_selected == if old(self).filter_selected > 0 {
                old(self).filter_selected - 1
            } else {
                old(self).available_subreddits@.len() as int
            },
            old(self).available_subreddits@.len() == 0 ==> final(self).filter_selected == old(self).filter_selected,
    {
        let n = self.available_subreddits.len();
        if n > 0 {
            if self.filter_selected > 0 {
                self.filter_selected = self.filter_selected - 1;
            } else {
                self.filter_selected = n;
            }
        }
    }
}

/// The state of every screen.
#[derive(Debug)]
pub struct ScreenStates {
    pub main_menu_state: MainMenuState,
    pub subscriptions_state: SubscriptionsState,
    pub endpoints_state: EndpointsState,
    pub test_notification_state: TestNotificationState,
    pub logs_state: LogsState,
}

impl ScreenStates {
    pub fn new() -> (r: ScreenStates)
        ensures
            r.main_menu_state.selected == 0,
            r.subscriptions_state.mode is List,
            r.endpoints_state.mode is List,
            r.test_notification_state.status is Ready,
            r.logs_state.current_page == 0,
    {
        ScreenStates {
            main_menu_state: MainMenuState::new(),
            subscriptions_state: SubscriptionsState::new(),
            endpoints_state: EndpointsState::new(),
            test_notification_state: TestNotificationState::new(),
            logs_state: LogsState::new(),
        }
    }
}

} // verus!
