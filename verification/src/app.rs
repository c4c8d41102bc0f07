//! The application state and its transitions: filtering and selection, keys and events.

use vstd::prelude::*;
use vstd::string::*;

use crate::profiles::{IpInfo, VpnConfig};
use crate::text::{
    contains, lemma_contains_transitive, lowercase, pop_char, push_char, str_contains, to_lowercase,
};
use crate::theme::Theme;

verus! {

/// The view that the main area shows.
#[derive(PartialEq, Eq, Structural, Clone, Copy, Debug)]
pub enum ActiveTab {
    Connections,
    Import,
    PublicIp,
    Help,
}

/// The position that a list highlights, if any.
pub struct Selection {
    pub selected: Option<usize>,
}

impl Selection {
    /// No position highlighted.
    pub fn new() -> (s: Self)
        ensures
            s.selected is None,
    {
        Selection { selected: None }
    }

    /// The highlighted position.
    pub fn selected(&self) -> (r: Option<usize>)
        ensures
            r == self.selected,
    {
        self.selected
    }

    /// Highlights a position, or none.
    pub fn select(&mut self, index: Option<usize>)
        ensures
            final(self).selected == index,
    {
        self.selected = index;
    }
}

/// The profile's name contains the query, both in lower case.
pub open spec fn name_matches(v: VpnConfig, query: Seq<char>) -> bool {
    contains(lowercase(v.name@), lowercase(query))
}

/// The test that the search applies to each profile.
pub open spec fn matching(query: Seq<char>) -> spec_fn(VpnConfig) -> bool {
    |v: VpnConfig| name_matches(v, query)
}

/// The profiles that a search shows: all of them for an empty query, otherwise those whose name
/// contains the query regardless of case, in their order.
pub open spec fn search_result(vpns: Seq<VpnConfig>, query: Seq<char>) -> Seq<VpnConfig> {
    if query.len() == 0 {
        vpns
    } else {
        vpns.filter(matching(query))
    }
}

/// The highlight that a list of `len` entries keeps after a change of its entries: none for an
/// empty list, otherwise the old position (the first when there was none) brought within the list.
pub open spec fn clamped(sel: Option<usize>, len: nat) -> Option<usize> {
    if len == 0 {
        None
    } else {
        match sel {
            Some(i) => if i < len {
                Some(i)
            } else {
                Some((len - 1) as usize)
            },
            None => Some(0),
        }
    }
}

/// The highlight one entry further down a list of `len` entries, wrapping to the first.
pub open spec fn next_position(sel: Option<usize>, len: nat) -> Option<usize> {
    if len == 0 {
        sel
    } else {
        match sel {
            Some(i) => Some(((i + 1) % (len as int)) as usize),
            None => Some(0),
        }
    }
}

/// The highlight one entry further up a list of `len` entries, wrapping to the last.
pub open spec fn prev_position(sel: Option<usize>, len: nat) -> Option<usize> {
    if len == 0 {
        sel
    } else {
        match sel {
            Some(i) => if i == 0 {
                Some((len - 1) as usize)
            } else {
                Some((i - 1) as usize)
            },
            None => Some(0),
        }
    }
}

/// The state of the application, as values.
pub struct AppState {
    pub vpns: Seq<VpnConfig>,
    pub filtered_vpns: Seq<VpnConfig>,
    pub selected: Option<usize>,
    pub active_tab: ActiveTab,
    pub search_query: Seq<char>,
    pub is_searching: bool,
    pub status_msg: Seq<char>,
    pub ip_info: Option<IpInfo>,
    pub is_fetching_ip: bool,
    pub ping_ms: Option<u128>,
    pub should_quit: bool,
    pub show_quit_popup: bool,
    pub show_help_popup: bool,
    pub downloaded_files: Seq<String>,
    pub download_selected: Option<usize>,
    pub theme: Theme,
}

impl AppState {
    /// The state once the search is applied again to the profiles.
    pub open spec fn refiltered(self) -> AppState {
        let f = search_result(self.vpns, self.search_query);
        AppState { filtered_vpns: f, selected: clamped(self.selected, f.len()), ..self }
    }

    /// The state once the highlight of the current view's list moves down.
    pub open spec fn moved_down(self) -> AppState {
        match self.active_tab {
            ActiveTab::Connections => AppState {
                selected: next_position(self.selected, self.filtered_vpns.len()),
                ..self
            },
            ActiveTab::Import => AppState {
                download_selected: next_position(self.download_selected, self.downloaded_files.len()),
                ..self
            },
            _ => self,
        }
    }

    /// The state once the highlight of the current view's list moves up.
    pub open spec fn moved_up(self) -> AppState {
        match self.active_tab {
            ActiveTab::Connections => AppState {
                selected: prev_position(self.selected, self.filtered_vpns.len()),
                ..self
            },
            ActiveTab::Import => AppState {
                download_selected: prev_position(self.download_selected, self.downloaded_files.len()),
                ..self
            },
            _ => self,
        }
    }

    /// Moving down would step past the largest position that a `usize` holds.
    pub open spec fn down_overflows(self) -> bool {
        ||| self.active_tab == ActiveTab::Connections && self.filtered_vpns.len() > 0
            && self.selected == Some(usize::MAX)
        ||| self.active_tab == ActiveTab::Import && self.downloaded_files.len() > 0
            && self.download_selected == Some(usize::MAX)
    }
}

/// The state of the application.
pub struct App {
    pub vpns: Vec<VpnConfig>,
    pub filtered_vpns: Vec<VpnConfig>,
    pub list_state: Selection,
    pub active_tab: ActiveTab,
    pub search_query: String,
    pub is_searching: bool,
    pub status_msg: String,
    pub ip_info: Option<IpInfo>,
    pub is_fetching_ip: bool,
    pub ping_ms: Option<u128>,
    pub should_quit: bool,
    pub show_quit_popup: bool,
    pub show_help_popup: bool,
    pub downloaded_files: Vec<String>,
    pub download_list_state: Selection,
    pub theme: Theme,
}

impl View for App {
    type V = AppState;

    open spec fn view(&self) -> AppState {
        AppState {
            vpns: self.vpns@,
            filtered_vpns: self.filtered_vpns@,
            selected: self.list_state.selected,
            active_tab: self.active_tab,
            search_query: self.search_query@,
            is_searching: self.is_searching,
            status_msg: self.status_msg@,
            ip_info: self.ip_info,
            is_fetching_ip: self.is_fetching_ip,
            ping_ms: self.ping_ms,
            should_quit: self.should_quit,
            show_quit_popup: self.show_quit_popup,
            show_help_popup: self.show_help_popup,
            downloaded_files: self.downloaded_files@,
            download_selected: self.download_list_state.selected,
            theme: self.theme,
        }
    }
}

fn copy_profiles(v: &Vec<VpnConfig>) -> (r: Vec<VpnConfig>)
    ensures
        r@ == v@,
{
    let mut r: Vec<VpnConfig> = Vec::new();
    let n = v.len();
    for i in 0..n
        invariant
            n == v@.len(),
            r@ == v@.take(i as int),
    {
        r.push(v[i].clone());
        proof {
            assert(v@.take(i + 1) =~= v@.take(i as int).push(v@[i as int]));
        }
    }
    proof {
        assert(v@.take(n as int) =~= v@);
    }
    r
}

impl App {
    /// Shows the profiles that the search query selects and brings the highlight within them.
    pub fn filter_vpns(&mut self)
        ensures
            final(self)@ == old(self)@.refiltered(),
    {
        if self.search_query.as_str().is_empty() {
            self.filtered_vpns = copy_profiles(&self.vpns);
        } else {
            let q = to_lowercase(self.search_query.as_str());
            let ghost query = self.search_query@;
            let mut out: Vec<VpnConfig> = Vec::new();
            let n = self.vpns.len();
            for i in 0..n
                invariant
                    n == self.vpns@.len(),
                    query == self.search_query@,
                    q@ == lowercase(query),
                    out@ == self.vpns@.take(i as int).filter(matching(query)),
            {
                proof {
                    reveal(Seq::filter);
                    assert(self.vpns@.take(i + 1).drop_last() =~= self.vpns@.take(i as int));
                    assert(self.vpns@.take(i + 1).last() == self.vpns@[i as int]);
                }
                let name = to_lowercase(self.vpns[i].name.as_str());
                if str_contains(name.as_str(), q.as_str()) {
                    out.push(self.vpns[i].clone());
                }
            }
            proof {
                assert(self.vpns@.take(n as int) =~= self.vpns@);
            }
            self.filtered_vpns = out;
        }
        let len = self.filtered_vpns.len();
        if len == 0 {
            self.list_state.select(None);
        } else {
            let selected = match self.list_state.selected() {
                Some(i) => i,
                None => 0,
            };
            if selected >= len {
                self.list_state.select(Some(len - 1));
            } else {
                self.list_state.select(Some(selected));
            }
        }
    }

    /// Moves the highlight of the current view's list one entry down, wrapping to the first.
    pub fn select_next(&mut self)
        requires
            !old(self)@.down_overflows(),
        ensures
            final(self)@ == old(self)@.moved_down(),
    {
        match self.active_tab {
            ActiveTab::Connections => {
                if self.filtered_vpns.len() == 0 {
                    return ;
                }
                let i = match self.list_state.selected() {
                    Some(i) => (i + 1) % self.filtered_vpns.len(),
                    None => 0,
                };
                self.list_state.select(Some(i));
            },
            ActiveTab::Import => {
                if self.downloaded_files.len() == 0 {
                    return ;
                }
                let i = match self.download_list_state.selected() {
                    Some(i) => (i + 1) % self.downloaded_files.len(),
                    None => 0,
                };
                self.download_list_state.select(Some(i));
            },
            _ => {},
        }
    }

    /// Moves the highlight of the current view's list one entry up, wrapping to the last.
    pub fn select_prev(&mut self)
        ensures
            final(self)@ == old(self)@.moved_up(),
    {
        match self.active_tab {
            ActiveTab::Connections => {
                if self.filtered_vpns.len() == 0 {
                    return ;
                }
                let i = match self.list_state.selected() {
                    Some(i) => {
                        if i == 0 {
                            self.filtered_vpns.len() - 1
                        } else {
                            i - 1
                        }
                    },
                    None => 0,
                };
                self.list_state.select(Some(i));
            },
            ActiveTab::Import => {
                if self.downloaded_files.len() == 0 {
                    return ;
                }
                let i = match self.download_list_state.selected() {
                    Some(i) => {
                        if i == 0 {
                            self.downloaded_files.len() - 1
                        } else {
                            i - 1
                        }
                    },
                    None => 0,
                };
                self.download_list_state.select(Some(i));
            },
            _ => {},
        }
    }
}

/// A key as the application distinguishes keys.
#[derive(PartialEq, Eq, Structural, Clone, Copy, Debug)]
pub enum Key {
    Char(char),
    Esc,
    Enter,
    Backspace,
    Tab,
    Up,
    Down,
    Other,
}

/// A key press, with whether the Control modifier was held.
#[derive(PartialEq, Eq, Structural, Clone, Copy, Debug)]
pub struct KeyPress {
    pub code: Key,
    pub ctrl: bool,
}

/// Outside work that a transition asks for.
pub enum Action {
    /// Nothing to do.
    Nothing,
    /// Load the theme file again, and refresh the profiles, the downloads and the latency.
    Reload,
    /// Look the public address up.
    FetchIpInfo,
    /// Make `target` the default profile, among all the profiles.
    SetDefault { target: VpnConfig, all: Vec<VpnConfig> },
    /// Switch the profile up or down.
    Toggle(VpnConfig),
    /// Import the configuration file at the path.
    Import(String),
}

/// An action, as values.
pub enum ActionView {
    Nothing,
    Reload,
    FetchIpInfo,
    SetDefault(VpnConfig, Seq<VpnConfig>),
    Toggle(VpnConfig),
    Import(String),
}

impl View for Action {
    type V = ActionView;

    open spec fn view(&self) -> ActionView {
        match self {
            Action::Nothing => ActionView::Nothing,
            Action::Reload => ActionView::Reload,
            Action::FetchIpInfo => ActionView::FetchIpInfo,
            Action::SetDefault { target, all } => ActionView::SetDefault(*target, all@),
            Action::Toggle(v) => ActionView::Toggle(*v),
            Action::Import(p) => ActionView::Import(*p),
        }
    }
}

/// Control-C, which quits from every state.
pub open spec fn is_quit_chord(k: KeyPress) -> bool {
    k.code == Key::Char('c') && k.ctrl
}

/// The view after `t` in the cycle Connections, Import, GeoIP, Help.
pub open spec fn next_tab(t: ActiveTab) -> ActiveTab {
    match t {
        ActiveTab::Connections => ActiveTab::Import,
        ActiveTab::Import => ActiveTab::PublicIp,
        ActiveTab::PublicIp => ActiveTab::Help,
        ActiveTab::Help => ActiveTab::Connections,
    }
}

/// The view before `t` in the cycle Connections, Import, GeoIP, Help.
pub open spec fn prev_tab(t: ActiveTab) -> ActiveTab {
    match t {
        ActiveTab::Connections => ActiveTab::Help,
        ActiveTab::Import => ActiveTab::Connections,
        ActiveTab::PublicIp => ActiveTab::Import,
        ActiveTab::Help => ActiveTab::PublicIp,
    }
}

/// The query without its last character, if it has one.
pub open spec fn without_last(q: Seq<char>) -> Seq<char> {
    if q.len() > 0 {
        q.drop_last()
    } else {
        q
    }
}

impl AppState {
    /// No popup is open and no search is being typed.
    pub open spec fn in_normal_mode(self) -> bool {
        !self.show_quit_popup && !self.show_help_popup && !self.is_searching
    }

    /// The state after a key while the quit confirmation is open.
    pub open spec fn after_quit_popup_key(self, code: Key) -> AppState {
        if code == Key::Char('y') || code == Key::Char('Y') {
            AppState { should_quit: true, ..self }
        } else if code == Key::Char('n') || code == Key::Char('N') || code == Key::Esc || code
            == Key::Char('q') {
            AppState { show_quit_popup: false, ..self }
        } else {
            self
        }
    }

    /// The state after a key while the help overlay is open.
    pub open spec fn after_help_popup_key(self, code: Key) -> AppState {
        if code == Key::Char('?') || code == Key::Esc || code == Key::Char('q') {
            AppState { show_help_popup: false, ..self }
        } else {
            self
        }
    }

    /// The state after a key while a search is typed.
    pub open spec fn after_search_key(self, code: Key) -> AppState {
        match code {
            Key::Esc => AppState { is_searching: false, ..self },
            Key::Enter => AppState { is_searching: false, ..self },
            Key::Backspace => AppState {
                search_query: without_last(self.search_query),
                ..self
            }.refiltered(),
            Key::Char(c) => AppState { search_query: self.search_query.push(c), ..self }.refiltered(),
            _ => self,
        }
    }

    /// What Enter or `l` asks for: switching the highlighted profile, or importing the
    /// highlighted file.
    pub open spec fn activation(self) -> ActionView {
        match self.active_tab {
            ActiveTab::Connections => match self.selected {
                Some(i) => if i < self.filtered_vpns.len() {
                    ActionView::Toggle(self.filtered_vpns[i as int])
                } else {
                    ActionView::Nothing
                },
                None => ActionView::Nothing,
            },
            ActiveTab::Import => match self.download_selected {
                Some(i) => if i < self.downloaded_files.len() {
                    ActionView::Import(self.downloaded_files[i as int])
                } else {
                    ActionView::Nothing
                },
                None => ActionView::Nothing,
            },
            _ => ActionView::Nothing,
        }
    }

    /// What `d` asks for: making the highlighted profile the default, in the Connections view.
    pub open spec fn default_request(self) -> ActionView {
        if self.active_tab == ActiveTab::Connections {
            match self.selected {
                Some(i) => if i < self.filtered_vpns.len() {
                    ActionView::SetDefault(self.filtered_vpns[i as int], self.vpns)
                } else {
                    ActionView::Nothing
                },
                None => ActionView::Nothing,
            }
        } else {
            ActionView::Nothing
        }
    }

    /// The state and the action after a key when no popup is open and no search is typed.
    pub open spec fn after_normal_key(self, code: Key) -> (AppState, ActionView) {
        if code == Key::Char('q') || code == Key::Esc {
            (AppState { show_quit_popup: true, ..self }, ActionView::Nothing)
        } else if code == Key::Char('?') {
            (AppState { show_help_popup: true, ..self }, ActionView::Nothing)
        } else if code == Key::Char('/') {
            (AppState { is_searching: true, ..self }, ActionView::Nothing)
        } else if code == Key::Char('1') {
            (AppState { active_tab: ActiveTab::Connections, ..self }, ActionView::Nothing)
        } else if code == Key::Char('2') {
            (AppState { active_tab: ActiveTab::Import, ..self }, ActionView::Nothing)
        } else if code == Key::Char('3') {
            (AppState { active_tab: ActiveTab::PublicIp, ..self }, ActionView::Nothing)
        } else if code == Key::Char('4') {
            (AppState { active_tab: ActiveTab::Help, ..self }, ActionView::Nothing)
        } else if code == Key::Tab {
            (AppState { active_tab: next_tab(self.active_tab), ..self }, ActionView::Nothing)
        } else if code == Key::Char('r') {
            (
                AppState { status_msg: "Reloaded config & refreshing status..."@, ..self },
                ActionView::Reload,
            )
        } else if code == Key::Char('i') {
            (
                AppState { is_fetching_ip: true, status_msg: "Fetching IP info..."@, ..self },
                ActionView::FetchIpInfo,
            )
        } else if code == Key::Char('d') {
            (self, self.default_request())
        } else if code == Key::Down || code == Key::Char('j') {
            (self.moved_down(), ActionView::Nothing)
        } else if code == Key::Up || code == Key::Char('k') {
            (self.moved_up(), ActionView::Nothing)
        } else if code == Key::Char('h') {
            (AppState { active_tab: prev_tab(self.active_tab), ..self }, ActionView::Nothing)
        } else if code == Key::Char('l') || code == Key::Enter {
            (self, self.activation())
        } else {
            (self, ActionView::Nothing)
        }
    }

    /// The state and the action after a key press.
    pub open spec fn on_key(self, key: KeyPress) -> (AppState, ActionView) {
        if is_quit_chord(key) {
            (AppState { should_quit: true, ..self }, ActionView::Nothing)
        } else if self.show_quit_popup {
            (self.after_quit_popup_key(key.code), ActionView::Nothing)
        } else if self.show_help_popup {
            (self.after_help_popup_key(key.code), ActionView::Nothing)
        } else if self.is_searching {
            (self.after_search_key(key.code), ActionView::Nothing)
        } else {
            self.after_normal_key(key.code)
        }
    }

    /// The key moves the highlight down, from a position that cannot move further.
    pub open spec fn key_overflows(self, key: KeyPress) -> bool {
        &&& !is_quit_chord(key)
        &&& self.in_normal_mode()
        &&& key.code == Key::Down || key.code == Key::Char('j')
        &&& self.down_overflows()
    }
}

impl App {
    fn activation(&self) -> (a: Action)
        ensures
            a@ == self@.activation(),
    {
        match self.active_tab {
            ActiveTab::Connections => {
                if let Some(i) = self.list_state.selected() {
                    if i < self.filtered_vpns.len() {
                        return Action::Toggle(self.filtered_vpns[i].clone());
                    }
                }
                Action::Nothing
            },
            ActiveTab::Import => {
                if let Some(i) = self.download_list_state.selected() {
                    if i < self.downloaded_files.len() {
                        return Action::Import(self.downloaded_files[i].clone());
                    }
                }
                Action::Nothing
            },
            _ => Action::Nothing,
        }
    }

    fn default_request(&self) -> (a: Action)
        ensures
            a@ == self@.default_request(),
    {
        if self.active_tab == ActiveTab::Connections {
            if let Some(i) = self.list_state.selected() {
                if i < self.filtered_vpns.len() {
                    return Action::SetDefault {
                        target: self.filtered_vpns[i].clone(),
                        all: copy_profiles(&self.vpns),
                    };
                }
            }
        }
        Action::Nothing
    }
}

impl App {
    /// Whether the key would move the highlight down from a position that cannot move further:
    /// the one input on which `handle_key_input` cannot run.
    pub fn key_would_overflow(&self, key: KeyPress) -> (b: bool)
        ensures
            b == self@.key_overflows(key),
    {
        let chord = key.code == Key::Char('c') && key.ctrl;
        let normal = !self.show_quit_popup && !self.show_help_popup && !self.is_searching;
        let down = key.code == Key::Down || key.code == Key::Char('j');
        let at_end = match self.active_tab {
            ActiveTab::Connections => self.filtered_vpns.len() > 0 && self.list_state.selected
                == Some(usize::MAX),
            ActiveTab::Import => self.downloaded_files.len() > 0 && self.download_list_state.selected
                == Some(usize::MAX),
            _ => false,
        };
        !chord && normal && down && at_end
    }
}

/// Applies a key press to the state, and returns the outside work that it asks for.
pub fn handle_key_input(app: &mut App, key: KeyPress) -> (a: Action)
    requires
        !old(app)@.key_overflows(key),
    ensures
        final(app)@ == old(app)@.on_key(key).0,
        a@ == old(app)@.on_key(key).1,
{
    if key.code == Key::Char('c') && key.ctrl {
        app.should_quit = true;
        return Action::Nothing;
    }
    if app.show_quit_popup {
        match key.code {
            Key::Char('y') | Key::Char('Y') => app.should_quit = true,
            Key::Char('n') | Key::Char('N') | Key::Esc | Key::Char('q') => {
                app.show_quit_popup = false;
            },
            _ => {},
        }
        return Action::Nothing;
    }
    if app.show_help_popup {
        match key.code {
            Key::Char('?') | Key::Esc | Key::Char('q') => {
                app.show_help_popup = false;
            },
            _ => {},
        }
        return Action::Nothing;
    }
    if app.is_searching {
        match key.code {
            Key::Esc | Key::Enter => app.is_searching = false,
            Key::Backspace => {
                pop_char(&mut app.search_query);
                app.filter_vpns();
            },
            Key::Char(c) => {
                push_char(&mut app.search_query, c);
                app.filter_vpns();
            },
            _ => {},
        }
        return Action::Nothing;
    }
    match key.code {
        Key::Char('q') | Key::Esc => app.show_quit_popup = true,
        Key::Char('?') => app.show_help_popup = true,
        Key::Char('/') => app.is_searching = true,
        Key::Char('1') => app.active_tab = ActiveTab::Connections,
        Key::Char('2') => app.active_tab = ActiveTab::Import,
        Key::Char('3') => app.active_tab = ActiveTab::PublicIp,
        Key::Char('4') => app.active_tab = ActiveTab::Help,
        Key::Tab => {
            app.active_tab =
            match app.active_tab {
                ActiveTab::Connections => ActiveTab::Import,
                ActiveTab::Import => ActiveTab::PublicIp,
                ActiveTab::PublicIp => ActiveTab::Help,
                ActiveTab::Help => ActiveTab::Connections,
            };
        },
        Key::Char('r') => {
            app.status_msg = "Reloaded config & refreshing status...".to_owned();
            return Action::Reload;
        },
        Key::Char('i') => {
            app.is_fetching_ip = true;
            app.status_msg = "Fetching IP info...".to_owned();
            return Action::FetchIpInfo;
        },
        Key::Char('d') => {
            return app.default_request();
        },
        Key::Down | Key::Char('j') => app.select_next(),
        Key::Up | Key::Char('k') => app.select_prev(),
        Key::Char('h') => {
            app.active_tab =
            match app.active_tab {
                ActiveTab::Connections => ActiveTab::Help,
                ActiveTab::Import => ActiveTab::Connections,
                ActiveTab::PublicIp => ActiveTab::Import,
                ActiveTab::Help => ActiveTab::PublicIp,
            };
        },
        Key::Char('l') | Key::Enter => {
            return app.activation();
        },
        _ => {},
    }
    Action::Nothing
}

/// Something that happened: a key press, a clock tick, or the result of outside work.
pub enum AppEvent {
    Key(KeyPress),
    Tick,
    VpnListUpdated(Vec<VpnConfig>),
    IpInfoUpdated(Option<IpInfo>),
    PingResult(Option<u128>),
    StatusMsg(String),
    DownloadsUpdated(Vec<String>),
}

/// An event, as values.
pub enum AppEventView {
    Key(KeyPress),
    Tick,
    VpnListUpdated(Seq<VpnConfig>),
    IpInfoUpdated(Option<IpInfo>),
    PingResult(Option<u128>),
    StatusMsg(Seq<char>),
    DownloadsUpdated(Seq<String>),
}

impl View for AppEvent {
    type V = AppEventView;

    open spec fn view(&self) -> AppEventView {
        match self {
            AppEvent::Key(k) => AppEventView::Key(*k),
            AppEvent::Tick => AppEventView::Tick,
            AppEvent::VpnListUpdated(v) => AppEventView::VpnListUpdated(v@),
            AppEvent::IpInfoUpdated(i) => AppEventView::IpInfoUpdated(*i),
            AppEvent::PingResult(p) => AppEventView::PingResult(*p),
            AppEvent::StatusMsg(m) => AppEventView::StatusMsg(m@),
            AppEvent::DownloadsUpdated(f) => AppEventView::DownloadsUpdated(f@),
        }
    }
}

impl AppState {
    /// The state at start: no profiles or files yet, the Connections view, and a loading message.
    pub open spec fn initial(theme: Theme) -> AppState {
        AppState {
            vpns: seq![],
            filtered_vpns: seq![],
            selected: None,
            active_tab: ActiveTab::Connections,
            search_query: seq![],
            is_searching: false,
            status_msg: "Initialized. Loading connections..."@,
            ip_info: None,
            is_fetching_ip: false,
            ping_ms: None,
            should_quit: false,
            show_quit_popup: false,
            show_help_popup: false,
            downloaded_files: seq![],
            download_selected: None,
            theme: theme,
        }
    }

    /// The state and the action after an event.
    pub open spec fn on_event(self, e: AppEventView) -> (AppState, ActionView) {
        match e {
            AppEventView::Key(k) => self.on_key(k),
            AppEventView::Tick => (self, ActionView::Nothing),
            AppEventView::VpnListUpdated(v) => (
                AppState { vpns: v, ..self }.refiltered(),
                ActionView::Nothing,
            ),
            AppEventView::IpInfoUpdated(i) => (
                AppState { ip_info: i, is_fetching_ip: false, ..self },
                ActionView::Nothing,
            ),
            AppEventView::PingResult(p) => (AppState { ping_ms: p, ..self }, ActionView::Nothing),
            AppEventView::StatusMsg(m) => (AppState { status_msg: m, ..self }, ActionView::Nothing),
            AppEventView::DownloadsUpdated(f) => (
                AppState {
                    downloaded_files: f,
                    download_selected: if f.len() > 0 && self.download_selected is None {
                        Some(0)
                    } else {
                        self.download_selected
                    },
                    ..self
                },
                ActionView::Nothing,
            ),
        }
    }

    /// The event is a key press that moves the highlight down from a position that cannot move further.
    pub open spec fn event_overflows(self, e: AppEventView) -> bool {
        e matches AppEventView::Key(k) && self.key_overflows(k)
    }
}

impl App {
    /// The application at start, with the theme that was loaded.
    pub fn new(theme: Theme) -> (app: Self)
        ensures
            app@ == AppState::initial(theme),
    {
        let app = App {
            vpns: Vec::new(),
            filtered_vpns: Vec::new(),
            list_state: Selection::new(),
            active_tab: ActiveTab::Connections,
            search_query: String::new(),
            is_searching: false,
            status_msg: "Initialized. Loading connections...".to_owned(),
            ip_info: None,
            is_fetching_ip: false,
            ping_ms: None,
            should_quit: false,
            show_quit_popup: false,
            show_help_popup: false,
            downloaded_files: Vec::new(),
            download_list_state: Selection::new(),
            theme,
        };
        proof {
            assert(app@.vpns =~= seq![]);
            assert(app@.filtered_vpns =~= seq![]);
            assert(app@.downloaded_files =~= seq![]);
            assert(app@.search_query =~= seq![]);
        }
        app
    }

    /// Applies an event to the state, and returns the outside work that it asks for.
    pub fn handle_event(&mut self, event: AppEvent) -> (a: Action)
        requires
            !old(self)@.event_overflows(event@),
        ensures
            final(self)@ == old(self)@.on_event(event@).0,
            a@ == old(self)@.on_event(event@).1,
    {
        match event {
            AppEvent::Key(k) => handle_key_input(self, k),
            AppEvent::Tick => Action::Nothing,
            AppEvent::VpnListUpdated(v) => {
                self.vpns = v;
                self.filter_vpns();
                Action::Nothing
            },
            AppEvent::DownloadsUpdated(f) => {
                self.downloaded_files = f;
                if self.downloaded_files.len() > 0 && self.download_list_state.selected().is_none() {
                    self.download_list_state.select(Some(0));
                }
                Action::Nothing
            },
            AppEvent::StatusMsg(m) => {
                self.status_msg = m;
                Action::Nothing
            },
            AppEvent::IpInfoUpdated(i) => {
                self.ip_info = i;
                self.is_fetching_ip = false;
                Action::Nothing
            },
            AppEvent::PingResult(p) => {
                self.ping_ms = p;
                Action::Nothing
            },
        }
    }
}

/// The highlight of the Connections list is consistent with it: absent exactly when the list is
/// empty, and within the list otherwise.
pub open spec fn connection_highlight_valid(s: AppState) -> bool {
    ||| s.filtered_vpns.len() == 0 && s.selected is None
    ||| s.selected matches Some(i) && i < s.filtered_vpns.len()
}

/// The list of the current view has a highlight within it (views without a list always do).
pub open spec fn current_highlight_within(s: AppState) -> bool {
    match s.active_tab {
        ActiveTab::Connections => s.selected matches Some(i) && i < s.filtered_vpns.len(),
        ActiveTab::Import => s.download_selected matches Some(i) && i < s.downloaded_files.len(),
        _ => true,
    }
}

/// Law: Control-C quits from every state, and asks for nothing else.
pub proof fn lemma_quit_chord_quits(s: AppState, key: KeyPress)
    requires
        is_quit_chord(key),
    ensures
        s.on_key(key).0 == (AppState { should_quit: true, ..s }),
        s.on_key(key).1 is Nothing,
{
}

/// Law: Tab followed by `h` gives back the state, and so does `h` followed by Tab, when no popup
/// is open and no search is typed.
pub proof fn lemma_tab_and_h_undo_each_other(s: AppState, tab: KeyPress, h: KeyPress)
    requires
        s.in_normal_mode(),
        tab.code == Key::Tab,
        h.code == Key::Char('h'),
    ensures
        s.on_key(tab).0.on_key(h).0 == s,
        s.on_key(h).0.on_key(tab).0 == s,
{
}

/// Law: four presses of Tab go round the four views and give back the state.
pub proof fn lemma_four_tabs_cycle(s: AppState, tab: KeyPress)
    requires
        s.in_normal_mode(),
        tab.code == Key::Tab,
    ensures
        s.on_key(tab).0.on_key(tab).0.on_key(tab).0.on_key(tab).0 == s,
{
}

proof fn lemma_next_then_prev(i: usize, len: nat)
    requires
        i < len,
    ensures
        len <= usize::MAX ==> prev_position(next_position(Some(i), len), len) == Some(i),
        len <= usize::MAX ==> next_position(prev_position(Some(i), len), len) == Some(i),
        next_position(Some(i), len) matches Some(j) && j < len,
        prev_position(Some(i), len) matches Some(j) && j < len,
{
    if i + 1 < len {
        vstd::arithmetic::div_mod::lemma_small_mod((i + 1) as nat, len);
        assert((i + 1) % (len as int) == i + 1);
    } else {
        vstd::arithmetic::div_mod::lemma_mod_self_0(len as int);
        assert((i + 1) % (len as int) == 0);
    }
    if i > 0 {
        vstd::arithmetic::div_mod::lemma_small_mod(i as nat, len);
        assert((i as int) % (len as int) == i);
    } else {
        vstd::arithmetic::div_mod::lemma_mod_self_0(len as int);
        assert((len as int) % (len as int) == 0);
    }
}

/// Law: moving the highlight down and then up (or up and then down) gives back the state, when the
/// current view's list has a highlight within it.
pub proof fn lemma_down_and_up_undo_each_other(s: AppState, down: KeyPress, up: KeyPress)
    requires
        s.in_normal_mode(),
        current_highlight_within(s),
        s.filtered_vpns.len() <= usize::MAX,
        s.downloaded_files.len() <= usize::MAX,
        down.code == Key::Down || down.code == Key::Char('j'),
        up.code == Key::Up || up.code == Key::Char('k'),
    ensures
        s.on_key(down).0.on_key(up).0 == s,
        s.on_key(up).0.on_key(down).0 == s,
{
    match s.active_tab {
        ActiveTab::Connections => {
            lemma_next_then_prev(s.selected->0, s.filtered_vpns.len());
        },
        ActiveTab::Import => {
            lemma_next_then_prev(s.download_selected->0, s.downloaded_files.len());
        },
        _ => {},
    }
}

/// Law: declining the quit confirmation (`q`, then `n`), or opening and closing the help overlay
/// (`?` twice), gives back the state.
pub proof fn lemma_popups_close_to_same_state(s: AppState, q: KeyPress, n: KeyPress, help: KeyPress)
    requires
        s.in_normal_mode(),
        q.code == Key::Char('q'),
        n.code == Key::Char('n'),
        help.code == Key::Char('?'),
    ensures
        s.on_key(q).0.on_key(n).0 == s,
        s.on_key(help).0.on_key(help).0 == s,
{
}

/// Law: while a search is typed, a character followed by Backspace gives back the query, and the
/// list shows what the search for that query shows.
pub proof fn lemma_type_then_erase(s: AppState, typed: KeyPress, erase: KeyPress)
    requires
        !s.show_quit_popup,
        !s.show_help_popup,
        s.is_searching,
        !is_quit_chord(typed),
        typed.code is Char,
        erase.code == Key::Backspace,
    ensures
        s.on_key(typed).0.on_key(erase).0.search_query == s.search_query,
        s.on_key(typed).0.on_key(erase).0.filtered_vpns == search_result(s.vpns, s.search_query),
{
    let c = typed.code->Char_0;
    assert(s.search_query.push(c).drop_last() =~= s.search_query);
}

/// Law: the search shows exactly the profiles whose name contains the query, regardless of case
/// (all of them for an empty query), and nothing that is not among the profiles.
pub proof fn lemma_search_shows_matches(vpns: Seq<VpnConfig>, query: Seq<char>, v: VpnConfig)
    ensures
        search_result(vpns, query).contains(v) <==> vpns.contains(v) && (query.len() == 0
            || name_matches(v, query)),
{
    if query.len() > 0 {
        let f = vpns.filter(matching(query));
        if f.contains(v) {
            vpns.lemma_filter_contains_rev(matching(query), v);
            let k = choose|k: int| 0 <= k < f.len() && f[k] == v;
            vpns.lemma_filter_pred(matching(query), k);
        }
        if vpns.contains(v) && name_matches(v, query) {
            let k = choose|k: int| 0 <= k < vpns.len() && vpns[k] == v;
            vpns.lemma_filter_contains(matching(query), k);
        }
    }
}

proof fn lemma_refiltered_valid(s: AppState)
    ensures
        connection_highlight_valid(s.refiltered()),
{
}

/// Law: the highlight of the Connections list stays consistent with the list through every
/// event; the state at start has it so.
pub proof fn lemma_connection_highlight_stays_valid(s: AppState, e: AppEventView, theme: Theme)
    requires
        connection_highlight_valid(s),
    ensures
        connection_highlight_valid(s.on_event(e).0),
        connection_highlight_valid(AppState::initial(theme)),
{
    match e {
        AppEventView::Key(k) => {
            if s.selected is Some && s.filtered_vpns.len() > 0 {
                lemma_next_then_prev(s.selected->0, s.filtered_vpns.len());
            }
            if !is_quit_chord(k) && !s.show_quit_popup && !s.show_help_popup && s.is_searching {
                lemma_refiltered_valid(AppState { search_query: without_last(s.search_query), ..s });
                if k.code is Char {
                    lemma_refiltered_valid(
                        AppState { search_query: s.search_query.push(k.code->Char_0), ..s },
                    );
                }
            }
        },
        AppEventView::VpnListUpdated(v) => {
            lemma_refiltered_valid(AppState { vpns: v, ..s });
        },
        _ => {},
    }
}

/// Law: applying the search a second time changes nothing, neither the list nor its highlight.
pub proof fn lemma_refilter_idempotent(s: AppState)
    ensures
        s.refiltered().refiltered() == s.refiltered(),
{
}

/// Filtering by a stricter test after a weaker one keeps what the stricter test alone keeps.
proof fn lemma_filter_stricter(
    s: Seq<VpnConfig>,
    weak: spec_fn(VpnConfig) -> bool,
    strict: spec_fn(VpnConfig) -> bool,
)
    requires
        forall|v: VpnConfig| #[trigger] strict(v) ==> weak(v),
    ensures
        s.filter(strict) == s.filter(weak).filter(strict),
    decreases s.len(),
{
    reveal(Seq::filter);
    if s.len() > 0 {
        let d = s.drop_last();
        let l = s.last();
        lemma_filter_stricter(d, weak, strict);
        if weak(l) {
            assert(d.filter(weak).push(l).drop_last() =~= d.filter(weak));
        }
    }
}

/// Law: a query whose lower-case form contains that of a shorter query (as typing more characters
/// gives) narrows the search: it shows the profiles that the shorter query shows which also
/// match it, in their order, and so nothing that the shorter query hides.
pub proof fn lemma_longer_query_narrows(vpns: Seq<VpnConfig>, short: Seq<char>, long: Seq<char>)
    requires
        long.len() > 0,
        short.len() > 0 ==> contains(lowercase(long), lowercase(short)),
    ensures
        search_result(vpns, long) == search_result(vpns, short).filter(matching(long)),
        forall|v: VpnConfig|
            #[trigger] search_result(vpns, long).contains(v) ==> search_result(vpns, short).contains(v),
{
    if short.len() > 0 {
        assert forall|v: VpnConfig| #[trigger] matching(long)(v) implies matching(short)(v) by {
            lemma_contains_transitive(lowercase(v.name@), lowercase(long), lowercase(short));
        }
        lemma_filter_stricter(vpns, matching(short), matching(long));
    }
    assert forall|v: VpnConfig| #[trigger]
        search_result(vpns, long).contains(v) implies search_result(vpns, short).contains(v) by {
        search_result(vpns, short).lemma_filter_contains_rev(matching(long), v);
    }
}

/// Law: with no popup open and no search typed, Down or `j` moves the highlight as `select_next`
/// does, and Up or `k` as `select_prev` does; neither asks for outside work.
pub proof fn lemma_arrow_keys_move_highlight(s: AppState, k: KeyPress)
    requires
        s.in_normal_mode(),
    ensures
        k.code == Key::Down || k.code == Key::Char('j') ==> s.on_key(k).0 == s.moved_down()
            && s.on_key(k).1 is Nothing,
        k.code == Key::Up || k.code == Key::Char('k') ==> s.on_key(k).0 == s.moved_up()
            && s.on_key(k).1 is Nothing,
{
}

/// Law: under a non-empty query a profile of the list is shown exactly when its lower-cased
/// name contains the lower-cased query; whether it is connected or the default plays no part.
pub proof fn lemma_search_decided_by_name_alone(s: AppState, v: VpnConfig)
    requires
        s.search_query.len() > 0,
        s.vpns.contains(v),
    ensures
        s.refiltered().filtered_vpns.contains(v) <==> contains(
            lowercase(v.name@),
            lowercase(s.search_query),
        ),
{
    lemma_search_shows_matches(s.vpns, s.search_query, v);
}

/// Law: two profiles of the list with the same name are both shown or both hidden by a search,
/// whatever their other fields.
pub proof fn lemma_same_name_same_visibility(s: AppState, v: VpnConfig, w: VpnConfig)
    requires
        s.vpns.contains(v),
        s.vpns.contains(w),
        v.name@ == w.name@,
    ensures
        s.refiltered().filtered_vpns.contains(v) <==> s.refiltered().filtered_vpns.contains(w),
{
    lemma_search_shows_matches(s.vpns, s.search_query, v);
    lemma_search_shows_matches(s.vpns, s.search_query, w);
}

/// Law: while the quit confirmation is open, `y` or `Y` quits and asks for no outside work.
pub proof fn lemma_yes_confirms_quit(s: AppState, key: KeyPress)
    requires
        s.show_quit_popup,
        key.code == Key::Char('y') || key.code == Key::Char('Y'),
    ensures
        s.on_key(key).0.should_quit,
        s.on_key(key).1 is Nothing,
{
}

/// Law: in the Connections view with the highlight on the `i`-th shown profile, `d` asks to make
/// exactly that shown profile the default, among all the profiles, and changes nothing else.
pub proof fn lemma_d_defaults_the_highlighted_profile(s: AppState, key: KeyPress, i: usize)
    requires
        s.in_normal_mode(),
        s.active_tab == ActiveTab::Connections,
        s.selected == Some(i),
        i < s.filtered_vpns.len(),
        key.code == Key::Char('d'),
    ensures
        s.on_key(key).0 == s,
        s.on_key(key).1 == ActionView::SetDefault(s.filtered_vpns[i as int], s.vpns),
{
}

/// Law: the result of an address lookup replaces what is shown, a failed lookup (`None`)
/// included, and the lookup is over.
pub proof fn lemma_ip_lookup_result_replaces_shown(s: AppState, info: Option<IpInfo>)
    ensures
        s.on_event(AppEventView::IpInfoUpdated(info)).0.ip_info == info,
        !s.on_event(AppEventView::IpInfoUpdated(info)).0.is_fetching_ip,
        s.on_event(AppEventView::IpInfoUpdated(info)).1 is Nothing,
{
}

/// Law: applying the search again keeps the profiles, the query and the view, shows all
/// profiles for an empty query, and keeps the highlight on a shown profile: an old highlight
/// still within the list stays, none becomes the first, and an empty list has none.
pub proof fn lemma_refilter_keeps_highlight_within(s: AppState)
    ensures
        s.refiltered().vpns == s.vpns,
        s.refiltered().search_query == s.search_query,
        s.refiltered().active_tab == s.active_tab,
        s.search_query.len() == 0 ==> s.refiltered().filtered_vpns == s.vpns,
        s.refiltered().filtered_vpns.len() <= s.vpns.len(),
        (s.refiltered().selected is None) == (s.refiltered().filtered_vpns.len() == 0),
        s.refiltered().selected is Some ==> s.refiltered().selected->0 < s.refiltered().filtered_vpns.len(),
        s.selected is Some && s.selected->0 < s.refiltered().filtered_vpns.len()
            ==> s.refiltered().selected == s.selected,
        s.selected is None && s.refiltered().filtered_vpns.len() > 0 ==> s.refiltered().selected
            == Some(0usize),
{
    if s.search_query.len() > 0 {
        s.vpns.lemma_filter_len(matching(s.search_query));
    }
}

/// Law: while the quit confirmation is open, `n`, `N`, Esc and `q` close it without quitting,
/// every other key but `y`, `Y` and Control-C leaves the state as it is, and none asks for
/// outside work.
pub proof fn lemma_quit_popup_answers(s: AppState, key: KeyPress)
    requires
        s.show_quit_popup,
        !is_quit_chord(key),
    ensures
        s.on_key(key).1 is Nothing,
        key.code == Key::Char('n') || key.code == Key::Char('N') || key.code == Key::Esc
            || key.code == Key::Char('q') ==> s.on_key(key).0 == (AppState {
            show_quit_popup: false,
            ..s
        }),
        !(key.code == Key::Char('n') || key.code == Key::Char('N') || key.code == Key::Esc
            || key.code == Key::Char('q') || key.code == Key::Char('y') || key.code == Key::Char(
            'Y',
        )) ==> s.on_key(key).0 == s,
{
}

/// Law: while the help overlay is open (and no quit confirmation), `?`, Esc and `q` close it,
/// every other key but Control-C leaves the state as it is, and none asks for outside work.
pub proof fn lemma_help_popup_answers(s: AppState, key: KeyPress)
    requires
        !s.show_quit_popup,
        s.show_help_popup,
        !is_quit_chord(key),
    ensures
        s.on_key(key).1 is Nothing,
        key.code == Key::Char('?') || key.code == Key::Esc || key.code == Key::Char('q')
            ==> s.on_key(key).0 == (AppState { show_help_popup: false, ..s }),
        !(key.code == Key::Char('?') || key.code == Key::Esc || key.code == Key::Char('q'))
            ==> s.on_key(key).0 == s,
{
}

/// Law: each result of background work replaces what the state holds of it and asks for no
/// outside work: a latency, a status message, a profile list (shown through the current search)
/// and a file list; a tick changes nothing.
pub proof fn lemma_background_results_replace(
    s: AppState,
    p: Option<u128>,
    m: Seq<char>,
    v: Seq<VpnConfig>,
    f: Seq<String>,
)
    ensures
        s.on_event(AppEventView::PingResult(p)).0.ping_ms == p,
        s.on_event(AppEventView::PingResult(p)).1 is Nothing,
        s.on_event(AppEventView::StatusMsg(m)).0.status_msg == m,
        s.on_event(AppEventView::StatusMsg(m)).1 is Nothing,
        s.on_event(AppEventView::VpnListUpdated(v)).0.vpns == v,
        s.on_event(AppEventView::VpnListUpdated(v)).0.filtered_vpns == search_result(
            v,
            s.search_query,
        ),
        s.on_event(AppEventView::VpnListUpdated(v)).1 is Nothing,
        s.on_event(AppEventView::DownloadsUpdated(f)).0.downloaded_files == f,
        s.on_event(AppEventView::DownloadsUpdated(f)).1 is Nothing,
        s.on_event(AppEventView::Tick) == (s, ActionView::Nothing),
{
}

} // verus!
