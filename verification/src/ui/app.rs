//! Session state and the controller that interprets each event.
//!
//! The controller never waits and never fetches. Each event is answered by a
//! new state and a [`Command`]: what the program around the library has to do
//! before the next event is handled. Records that it fetched come back
//! through `teams_loaded`, `team_data_loaded` and `initial_teams_loaded`, and
//! a fetch that failed through `fetch_failed`.

use vstd::prelude::*;
use vstd::string::StringExecFns;
use crate::client::types::{Issue, Project, Team};
use crate::ui::components::issues::{IssuesComponent, UiError};
use crate::ui::components::projects::ProjectsComponent;
use crate::ui::components::teams::TeamsComponent;
use crate::ui::events::{AppEvent, KeyCode, KeyEvent};
use crate::ui::view;

verus! {

/// What is left to do after an event was handled.
#[derive(Debug, Clone, PartialEq, Eq)]
pub enum Command {
    /// Nothing but drawing the next frame.
    Render,
    /// End the session.
    Quit,
    /// Fetch all teams and hand them to `teams_loaded`.
    FetchTeams,
    /// Fetch the issues and the projects of one team and hand both to
    /// `team_data_loaded`.
    FetchTeamData { team_id: String },
    /// Open a link outside the session.
    OpenUrl { url: String },
    /// Tell the user of a failure and go on.
    Report { error: UiError },
}

/// The state of a session: the view, the active team, the overlay and the
/// three lists.
pub struct AppState {
    pub current_view: view::View,
    pub current_team: Option<Team>,
    pub show_help: bool,
    pub issues_component: IssuesComponent,
    pub projects_component: ProjectsComponent,
    pub teams_component: TeamsComponent,
    pub loading: bool,
}

/// What the frame shows.
#[derive(Debug, Clone, Copy, PartialEq, Eq, Structural)]
pub enum Screen {
    /// The help overlay, in place of everything else.
    Help,
    /// The tab bar, the given view and the status bar.
    Dashboard(view::View),
}

/// The title of a view in the tab bar.
pub open spec fn spec_tab_title(v: view::View) -> Seq<char> {
    match v {
        view::View::Issues => "Issues"@,
        view::View::Projects => "Projects"@,
        view::View::Teams => "Teams"@,
    }
}

/// The title of a view in the tab bar.
pub fn tab_title(v: view::View) -> (r: &'static str)
    ensures
        r@ == spec_tab_title(v),
{
    match v {
        view::View::Issues => "Issues",
        view::View::Projects => "Projects",
        view::View::Teams => "Teams",
    }
}

/// Whether a key moves the cursor of a list forward.
pub open spec fn is_down_key(code: KeyCode) -> bool {
    code == KeyCode::Down || code == KeyCode::Char('j')
}

/// Whether a key moves the cursor of a list backward.
pub open spec fn is_up_key(code: KeyCode) -> bool {
    code == KeyCode::Up || code == KeyCode::Char('k')
}

/// Whether a key means the same in every view: quitting, the help toggle,
/// the manual refresh, the view jumps and the cyclic steps.
pub open spec fn is_global_key(key: KeyEvent) -> bool {
    ||| key.spec_is_quit()
    ||| key.code == KeyCode::Char('?')
    ||| key.code == KeyCode::Char('r')
    ||| key.code == KeyCode::Char('1')
    ||| key.code == KeyCode::Char('2')
    ||| key.code == KeyCode::Char('3')
    ||| key.code == KeyCode::Tab
    ||| key.code == KeyCode::BackTab
}

impl AppState {
    /// The state at the start of a session: the issues view, no team, empty
    /// lists, no overlay.
    pub fn new() -> (r: Self)
        ensures
            r.is_initial(),
            r.consistent(),
            r.current_view == view::View::Issues,
            r.current_team is None,
            !r.show_help,
            !r.loading,
            r.issues_component.list.items@.len() == 0,
            r.issues_component.list.cursor is None,
            !r.issues_component.show_details,
            r.issues_component.filter@.len() == 0,
            r.projects_component.list.items@.len() == 0,
            r.projects_component.list.cursor is None,
            r.teams_component.list.items@.len() == 0,
            r.teams_component.list.cursor is None,
    {
        AppState {
            current_view: view::View::Issues,
            current_team: None,
            show_help: false,
            issues_component: IssuesComponent::new(),
            projects_component: ProjectsComponent::new(),
            teams_component: TeamsComponent::new(),
            loading: false,
        }
    }

    /// The state at the start of a session.
    pub open spec fn is_initial(self) -> bool {
        &&& self.current_view == view::View::Issues
        &&& self.current_team is None
        &&& !self.show_help
        &&& self.issues_component.list.items@.len() == 0
        &&& self.issues_component.list.cursor is None
        &&& !self.issues_component.show_details
        &&& self.projects_component.list.items@.len() == 0
        &&& self.projects_component.list.cursor is None
        &&& self.teams_component.list.items@.len() == 0
        &&& self.teams_component.list.cursor is None
    }

    /// In each of the three lists, a list without a cursor is empty.
    pub open spec fn consistent(self) -> bool {
        &&& self.issues_component.list.consistent()
        &&& self.projects_component.list.consistent()
        &&& self.teams_component.list.consistent()
    }

    /// The reload of the active team's issues and projects, if a team is
    /// active.
    pub open spec fn spec_load_team_data(self) -> Command {
        match self.current_team {
            Some(team) => Command::FetchTeamData { team_id: team.id },
            None => Command::Render,
        }
    }

    /// The refresh of the current view: the teams in the teams view, the
    /// active team's issues and projects in the other two.
    pub open spec fn spec_refresh_current_view(self) -> Command {
        match self.current_view {
            view::View::Teams => Command::FetchTeams,
            _ => self.spec_load_team_data(),
        }
    }

    /// State and command after a key that is left to the current view.
    pub open spec fn spec_handle_view_input(self, code: KeyCode) -> (AppState, Command) {
        match self.current_view {
            view::View::Issues => if is_down_key(code) {
                (
                    AppState { issues_component: self.issues_component.spec_select_next(), ..self },
                    Command::Render,
                )
            } else if is_up_key(code) {
                (
                    AppState {
                        issues_component: self.issues_component.spec_select_previous(),
                        ..self
                    },
                    Command::Render,
                )
            } else if code == KeyCode::Char('v') {
                (
                    self,
                    match self.issues_component.spec_open_selected_issue() {
                        Ok(url) => Command::OpenUrl { url },
                        Err(error) => Command::Report { error },
                    },
                )
            } else if code == KeyCode::Char('d') {
                (
                    AppState {
                        issues_component: self.issues_component.spec_toggle_details(),
                        ..self
                    },
                    Command::Render,
                )
            } else {
                (self, Command::Render)
            },
            view::View::Projects => if is_down_key(code) {
                (
                    AppState {
                        projects_component: self.projects_component.spec_select_next(),
                        ..self
                    },
                    Command::Render,
                )
            } else if is_up_key(code) {
                (
                    AppState {
                        projects_component: self.projects_component.spec_select_previous(),
                        ..self
                    },
                    Command::Render,
                )
            } else {
                (self, Command::Render)
            },
            view::View::Teams => if is_down_key(code) {
                (
                    AppState { teams_component: self.teams_component.spec_select_next(), ..self },
                    Command::Render,
                )
            } else if is_up_key(code) {
                (
                    AppState {
                        teams_component: self.teams_component.spec_select_previous(),
                        ..self
                    },
                    Command::Render,
                )
            } else if code == KeyCode::Enter {
                match self.teams_component.list.spec_selected() {
                    Some(team) => (
                        AppState {
                            current_team: Some(team),
                            current_view: view::View::Issues,
                            ..self
                        },
                        Command::FetchTeamData { team_id: team.id },
                    ),
                    None => (self, Command::Render),
                }
            } else {
                (self, Command::Render)
            },
        }
    }

    /// State and command after a key event.
    ///
    /// The quit keys and the help toggle always work. While the help overlay
    /// is shown every other key is dropped. Without the overlay the manual
    /// refresh, the view jumps and the cyclic steps come next, and every
    /// other key goes to the current view.
    pub open spec fn spec_handle_key(self, key: KeyEvent) -> (AppState, Command) {
        if key.spec_is_quit() {
            (self, Command::Quit)
        } else if key.code == KeyCode::Char('?') {
            (AppState { show_help: !self.show_help, ..self }, Command::Render)
        } else if self.show_help {
            (self, Command::Render)
        } else if key.code == KeyCode::Char('r') {
            (self, self.spec_refresh_current_view())
        } else if key.code == KeyCode::Char('1') {
            (AppState { current_view: view::View::Issues, ..self }, Command::Render)
        } else if key.code == KeyCode::Char('2') {
            (AppState { current_view: view::View::Projects, ..self }, Command::Render)
        } else if key.code == KeyCode::Char('3') {
            (AppState { current_view: view::View::Teams, ..self }, Command::Render)
        } else if key.code == KeyCode::Tab {
            (AppState { current_view: self.current_view.spec_next(), ..self }, Command::Render)
        } else if key.code == KeyCode::BackTab {
            (AppState { current_view: self.current_view.spec_previous(), ..self }, Command::Render)
        } else {
            self.spec_handle_view_input(key.code)
        }
    }

    /// State and command after an event.
    pub open spec fn spec_handle_event(self, event: AppEvent) -> (AppState, Command) {
        match event {
            AppEvent::Key(key) => self.spec_handle_key(key),
            AppEvent::Refresh => (self, self.spec_refresh_current_view()),
            AppEvent::Tick => (self, Command::Render),
            AppEvent::Quit => (self, Command::Quit),
        }
    }

    /// The state after fetched teams were applied.
    pub open spec fn spec_teams_loaded(self, teams: Vec<Team>) -> AppState {
        AppState { teams_component: self.teams_component.spec_update_teams(teams), ..self }
    }

    /// The state after the fetched issues and projects of the active team
    /// were applied.
    pub open spec fn spec_team_data_loaded(
        self,
        issues: Vec<Issue>,
        projects: Vec<Project>,
    ) -> AppState {
        AppState {
            issues_component: self.issues_component.spec_update_issues(issues),
            projects_component: self.projects_component.spec_update_projects(projects),
            ..self
        }
    }

    /// State and command after the first fetch of the teams: the teams are
    /// applied, and the first of them, if there is one, becomes the active
    /// team, whose issues and projects are fetched next. Without a team the
    /// initial load is over.
    pub open spec fn spec_initial_teams_loaded(self, teams: Vec<Team>) -> (AppState, Command) {
        if teams@.len() > 0 {
            (
                AppState { current_team: Some(teams@[0]), ..self.spec_teams_loaded(teams) },
                Command::FetchTeamData { team_id: teams@[0].id },
            )
        } else {
            (AppState { loading: false, ..self.spec_teams_loaded(teams) }, Command::Render)
        }
    }
}

/// While the help overlay is shown, every key but the quit keys and the
/// help toggle changes nothing: no cursor, no view, no team, and nothing is
/// fetched or opened.
pub proof fn lemma_help_suppresses_keys(state: AppState, key: KeyEvent)
    requires
        state.show_help,
        !key.spec_is_quit(),
        key.code != KeyCode::Char('?'),
    ensures
        state.spec_handle_key(key) == (state, Command::Render),
{
}

/// Without the help overlay, a key that does not mean the same in every
/// view is left to the current view.
pub proof fn lemma_other_keys_go_to_the_view(state: AppState, key: KeyEvent)
    requires
        !state.show_help,
        !is_global_key(key),
    ensures
        state.spec_handle_key(key) == state.spec_handle_view_input(key.code),
{
}

/// Toggling the help overlay twice restores the state: the view, the team
/// and every list with its cursor are as before.
pub proof fn lemma_help_toggle_twice_restores(state: AppState, key: KeyEvent)
    requires
        key.code == KeyCode::Char('?'),
    ensures
        state.spec_handle_key(key).0 == (AppState { show_help: !state.show_help, ..state }),
        state.spec_handle_key(key).0.spec_handle_key(key).0 == state,
        state.spec_handle_key(key).1 == Command::Render,
{
}

/// Without the help overlay, three presses of Tab lead back to the state
/// before the first, and fewer do not; Tab never touches a list, a cursor or
/// the active team.
pub proof fn lemma_tab_has_period_three(state: AppState, key: KeyEvent)
    requires
        !state.show_help,
        key.code == KeyCode::Tab,
    ensures
        state.spec_handle_key(key).0 == (AppState {
            current_view: state.current_view.spec_next(),
            ..state
        }),
        state.spec_handle_key(key).0.spec_handle_key(key).0.spec_handle_key(key).0 == state,
        state.spec_handle_key(key).0 != state,
        state.spec_handle_key(key).0.spec_handle_key(key).0 != state,
{
    view::lemma_next_has_period_three(state.current_view);
}

/// Without the help overlay, a press of BackTab undoes a press of Tab.
pub proof fn lemma_back_tab_undoes_tab(state: AppState, tab: KeyEvent, back_tab: KeyEvent)
    requires
        !state.show_help,
        tab.code == KeyCode::Tab,
        back_tab.code == KeyCode::BackTab,
    ensures
        state.spec_handle_key(tab).0.spec_handle_key(back_tab).0 == state,
        state.spec_handle_key(back_tab).0.spec_handle_key(tab).0 == state,
{
    view::lemma_previous_undoes_next(state.current_view);
}

/// No event changes the items of a list: items change only when fetched
/// records are applied.
pub proof fn lemma_events_keep_items(state: AppState, event: AppEvent)
    ensures
        state.spec_handle_event(event).0.issues_component.list.items
            == state.issues_component.list.items,
        state.spec_handle_event(event).0.projects_component.list.items
            == state.projects_component.list.items,
        state.spec_handle_event(event).0.teams_component.list.items
            == state.teams_component.list.items,
        state.spec_handle_event(event).0.loading == state.loading,
{
}

/// The session ends on the quit event and on the quit keys, and on nothing
/// else.
pub proof fn lemma_quit_exactly_on_quit(state: AppState, event: AppEvent)
    ensures
        state.spec_handle_event(event).1 == Command::Quit <==> (event == AppEvent::Quit || (
        event matches AppEvent::Key(key) && key.spec_is_quit())),
{
}

/// No event and no applied record breaks the rule that a list without a
/// cursor is empty.
pub proof fn lemma_consistency_is_kept(
    state: AppState,
    event: AppEvent,
    teams: Vec<Team>,
    issues: Vec<Issue>,
    projects: Vec<Project>,
)
    requires
        state.consistent(),
    ensures
        state.spec_handle_event(event).0.consistent(),
        state.spec_teams_loaded(teams).consistent(),
        state.spec_team_data_loaded(issues, projects).consistent(),
        state.spec_initial_teams_loaded(teams).0.consistent(),
{
}

/// Team switch: in the teams view, without the help overlay, Enter on a
/// cursor that stands on a team makes that team the active one, shows the
/// issues view, and asks for that team's issues and projects and for nothing
/// else. The lists and their cursors stay as they are.
pub proof fn lemma_team_switch(state: AppState, key: KeyEvent, i: usize)
    requires
        state.current_view == view::View::Teams,
        !state.show_help,
        key.code == KeyCode::Enter,
        state.teams_component.list.cursor == Some(i),
        i < state.teams_component.list.items@.len(),
    ensures
        state.spec_handle_key(key).0 == (AppState {
            current_team: Some(state.teams_component.list.items@[i as int]),
            current_view: view::View::Issues,
            ..state
        }),
        state.spec_handle_key(key).1 == (Command::FetchTeamData {
            team_id: state.teams_component.list.items@[i as int].id,
        }),
{
}

/// Initial load: from the state at the start of a session, once the teams
/// and the first team's issues and projects are applied, the first team is
/// the active one, the issues view is shown, the lists hold exactly what was
/// fetched, and each list that is not empty has its cursor on its first
/// item. Without a team nothing more is asked for and no team is active.
pub proof fn lemma_initial_load(
    state: AppState,
    teams: Vec<Team>,
    issues: Vec<Issue>,
    projects: Vec<Project>,
)
    requires
        state.is_initial(),
    ensures
        teams@.len() == 0 ==> state.spec_initial_teams_loaded(teams).1 == Command::Render
            && state.spec_initial_teams_loaded(teams).0.current_team is None
            && !state.spec_initial_teams_loaded(teams).0.loading,
        teams@.len() > 0 ==> {
            let (loaded, command) = state.spec_initial_teams_loaded(teams);
            let done = loaded.spec_team_data_loaded(issues, projects);
            &&& command == (Command::FetchTeamData { team_id: teams@[0].id })
            &&& done.current_view == view::View::Issues
            &&& done.current_team == Some(teams@[0])
            &&& done.teams_component.list.items == teams
            &&& done.teams_component.list.cursor == Some(0usize)
            &&& done.issues_component.list.items == issues
            &&& done.issues_component.list.cursor == if issues@.len() > 0 {
                Some(0usize)
            } else {
                None
            }
            &&& done.projects_component.list.items == projects
            &&& done.projects_component.list.cursor == if projects@.len() > 0 {
                Some(0usize)
            } else {
                None
            }
        },
{
}

/// The session controller: owner of the session state.
pub struct TuiApp {
    pub state: AppState,
}

impl TuiApp {
    /// A controller over the state at the start of a session.
    pub fn new() -> (r: Self)
        ensures
            r.state.is_initial(),
            r.state.consistent(),
            r.state.current_view == view::View::Issues,
            r.state.current_team is None,
            !r.state.show_help,
            !r.state.loading,
            r.state.issues_component.list.items@.len() == 0,
            r.state.issues_component.list.cursor is None,
            !r.state.issues_component.show_details,
            r.state.issues_component.filter@.len() == 0,
            r.state.projects_component.list.items@.len() == 0,
            r.state.projects_component.list.cursor is None,
            r.state.teams_component.list.items@.len() == 0,
            r.state.teams_component.list.cursor is None,
    {
        TuiApp { state: AppState::new() }
    }

    /// Handles one event of the queue and says what is left to do before
    /// the next one.
    pub fn handle_event(&mut self, event: AppEvent) -> (command: Command)
        ensures
            (final(self).state, command) == old(self).state.spec_handle_event(event),
            event == AppEvent::Tick ==> final(self).state == old(self).state && command
                == Command::Render,
    {
        match event {
            AppEvent::Key(key) => self.handle_key(key),
            AppEvent::Refresh => self.refresh_current_view(),
            AppEvent::Tick => Command::Render,
            AppEvent::Quit => Command::Quit,
        }
    }

    /// Handles one key event. The quit keys end the session and the help
    /// toggle flips the overlay, whatever is shown. While the overlay is
    /// shown every other key is dropped. Without it the manual refresh, the
    /// view jumps and the cyclic steps are handled here, and every other key
    /// goes to the current view.
    pub fn handle_key(&mut self, key: KeyEvent) -> (command: Command)
        ensures
            (final(self).state, command) == old(self).state.spec_handle_key(key),
    {
        if key.is_quit() {
            return Command::Quit;
        }
        let toggle = match key.code {
            KeyCode::Char(c) => c == '?',
            _ => false,
        };
        if toggle {
            self.state.show_help = !self.state.show_help;
            return Command::Render;
        }
        if self.state.show_help {
            return Command::Render;
        }
        match key.code {
            KeyCode::Char(c) => {
                if c == 'r' {
                    self.refresh_current_view()
                } else if c == '1' {
                    self.state.current_view = view::View::Issues;
                    Command::Render
                } else if c == '2' {
                    self.state.current_view = view::View::Projects;
                    Command::Render
                } else if c == '3' {
                    self.state.current_view = view::View::Teams;
                    Command::Render
                } else {
                    self.handle_view_input(key.code)
                }
            },
            KeyCode::Tab => {
                self.next_view();
                Command::Render
            },
            KeyCode::BackTab => {
                self.previous_view();
                Command::Render
            },
            _ => self.handle_view_input(key.code),
        }
    }

    /// Handles a key that is left to the current view: list navigation in
    /// every view, the link and the detail sub-view in the issues view, the
    /// activation of the selected team in the teams view.
    pub fn handle_view_input(&mut self, code: KeyCode) -> (command: Command)
        ensures
            (final(self).state, command) == old(self).state.spec_handle_view_input(code),
    {
        let down = match code {
            KeyCode::Down => true,
            KeyCode::Char(c) => c == 'j',
            _ => false,
        };
        let up = match code {
            KeyCode::Up => true,
            KeyCode::Char(c) => c == 'k',
            _ => false,
        };
        match self.state.current_view {
            view::View::Issues => {
                if down {
                    self.state.issues_component.select_next();
                    Command::Render
                } else if up {
                    self.state.issues_component.select_previous();
                    Command::Render
                } else {
                    match code {
                        KeyCode::Char(c) => {
                            if c == 'v' {
                                match self.state.issues_component.open_selected_issue() {
                                    Ok(url) => Command::OpenUrl { url },
                                    Err(error) => Command::Report { error },
                                }
                            } else if c == 'd' {
                                self.state.issues_component.toggle_details();
                                Command::Render
                            } else {
                                Command::Render
                            }
                        },
                        _ => Command::Render,
                    }
                }
            },
            view::View::Projects => {
                if down {
                    self.state.projects_component.select_next();
                } else if up {
                    self.state.projects_component.select_previous();
                }
                Command::Render
            },
            view::View::Teams => {
                if down {
                    self.state.teams_component.select_next();
                    Command::Render
                } else if up {
                    self.state.teams_component.select_previous();
                    Command::Render
                } else {
                    match code {
                        KeyCode::Enter => {
                            let chosen = match self.state.teams_component.selected_team() {
                                Some(team) => Some(team.clone()),
                                None => None,
                            };
                            match chosen {
                                Some(team) => {
                                    let team_id = team.id.clone();
                                    self.state.current_team = Some(team);
                                    self.state.current_view = view::View::Issues;
                                    Command::FetchTeamData { team_id }
                                },
                                None => Command::Render,
                            }
                        },
                        _ => Command::Render,
                    }
                }
            },
        }
    }

    /// One step forward in the cyclic order of the views. The lists and
    /// their cursors are left alone.
    pub fn next_view(&mut self)
        ensures
            final(self).state == (AppState {
                current_view: old(self).state.current_view.spec_next(),
                ..old(self).state
            }),
    {
        self.state.current_view = self.state.current_view.next();
    }

    /// One step backward in the cyclic order of the views. The lists and
    /// their cursors are left alone.
    pub fn previous_view(&mut self)
        ensures
            final(self).state == (AppState {
                current_view: old(self).state.current_view.spec_previous(),
                ..old(self).state
            }),
    {
        self.state.current_view = self.state.current_view.previous();
    }

    /// Starts the initial load: marks the session as loading and asks for
    /// the teams, which go to `initial_teams_loaded`.
    pub fn load_initial_data(&mut self) -> (command: Command)
        ensures
            final(self).state == (AppState { loading: true, ..old(self).state }),
            command == Command::FetchTeams,
    {
        self.state.loading = true;
        Command::FetchTeams
    }

    /// Applies the teams of the initial load. The first team, if there is
    /// one, becomes the active team and its issues and projects are asked
    /// for; `finish_initial_load` follows once they are applied. Without a
    /// team the initial load ends here.
    pub fn initial_teams_loaded(&mut self, teams: Vec<Team>) -> (command: Command)
        ensures
            (final(self).state, command) == old(self).state.spec_initial_teams_loaded(teams),
    {
        let first = if teams.len() > 0 {
            Some(teams[0].clone())
        } else {
            None
        };
        self.state.teams_component.update_teams(teams);
        match first {
            Some(team) => {
                let team_id = team.id.clone();
                self.state.current_team = Some(team);
                Command::FetchTeamData { team_id }
            },
            None => {
                self.state.loading = false;
                Command::Render
            },
        }
    }

    /// Ends the initial load.
    pub fn finish_initial_load(&mut self)
        ensures
            final(self).state == (AppState { loading: false, ..old(self).state }),
    {
        self.state.loading = false;
    }

    /// Asks for the issues and the projects of the active team, if a team is
    /// active.
    pub fn load_team_data(&self) -> (command: Command)
        ensures
            command == self.state.spec_load_team_data(),
    {
        match &self.state.current_team {
            Some(team) => Command::FetchTeamData { team_id: team.id.clone() },
            None => Command::Render,
        }
    }

    /// Asks for what the current view shows: the teams in the teams view,
    /// the active team's issues and projects in the other two.
    pub fn refresh_current_view(&self) -> (command: Command)
        ensures
            command == self.state.spec_refresh_current_view(),
    {
        match self.state.current_view {
            view::View::Teams => Command::FetchTeams,
            _ => self.load_team_data(),
        }
    }

    /// What follows a fetch that failed, during the initial load or later:
    /// the session ends, and the state is left as it was before the fetch,
    /// so that nothing of it is half applied.
    pub fn fetch_failed(&self) -> (command: Command)
        ensures
            command == Command::Quit,
    {
        Command::Quit
    }

    /// Applies fetched teams to the teams list.
    pub fn teams_loaded(&mut self, teams: Vec<Team>)
        ensures
            final(self).state == old(self).state.spec_teams_loaded(teams),
    {
        self.state.teams_component.update_teams(teams);
    }

    /// Applies the fetched issues and projects of the active team, both
    /// before anything else happens.
    pub fn team_data_loaded(&mut self, issues: Vec<Issue>, projects: Vec<Project>)
        ensures
            final(self).state == old(self).state.spec_team_data_loaded(issues, projects),
    {
        self.state.issues_component.update_issues(issues);
        self.state.projects_component.update_projects(projects);
    }

    /// The active team as the status bar names it.
    pub fn team_label(&self) -> (r: String)
        ensures
            r@ == match self.state.current_team {
                Some(team) => " Team: "@ + team.name@ + " "@,
                None => " No team selected "@,
            },
    {
        match &self.state.current_team {
            Some(team) => {
                let mut r = String::from_str(" Team: ");
                r.append(team.name.as_str());
                r.append(" ");
                r
            },
            None => String::from_str(" No team selected "),
        }
    }

    /// What the next frame shows: the help overlay alone while it is on,
    /// else the current view.
    pub fn screen(&self) -> (r: Screen)
        ensures
            r == if self.state.show_help {
                Screen::Help
            } else {
                Screen::Dashboard(self.state.current_view)
            },
    {
        if self.state.show_help {
            Screen::Help
        } else {
            Screen::Dashboard(self.state.current_view)
        }
    }
}

} // verus!
