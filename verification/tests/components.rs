use ltui::client::types::{Issue, IssueState, Project, ProjectStatus, Team, Timestamp, User};
use ltui::ui::components::help::{HelpComponent, HelpLine};
use ltui::ui::components::issues::{
    assignee_name, description_lines, priority_color, priority_label, priority_symbol,
    state_color, IssueColumns, IssuesComponent, IssuesLayout, IssuesOverview, UiError,
};
use ltui::ui::components::projects::{
    lead_name, status_color, ProjectColumns, ProjectsComponent, ProjectsOverview,
};
use ltui::ui::components::style::{flexible_width, selection_indicator, status_width, Color};
use ltui::ui::components::teams::{description_text, TeamColumns, TeamsComponent, TeamsOverview};

fn person(name: &str) -> User {
    User {
        id: format!("user-{name}"),
        name: name.to_lowercase(),
        email: Some(format!("{name}@example.org")),
        display_name: name.to_string(),
        avatar_url: None,
    }
}

fn some_team(key: &str, description: Option<&str>) -> Team {
    Team {
        id: format!("team-{key}"),
        name: format!("Team {key}"),
        key: key.to_string(),
        description: description.map(|d| d.to_string()),
    }
}

fn some_issue(n: u32, state_type: &str, priority: Option<i32>, assignee: Option<&str>) -> Issue {
    Issue {
        id: format!("issue-{n}"),
        title: format!("Issue number {n}"),
        description: None,
        identifier: format!("ENG-{n}"),
        priority,
        state: IssueState {
            id: format!("state-{state_type}"),
            name: state_type.to_uppercase(),
            color: "#abc".to_string(),
            state_type: state_type.to_string(),
        },
        assignee: assignee.map(person),
        creator: person("Carla"),
        team: some_team("ENG", None),
        created_at: Timestamp { seconds: 1_700_000_000, nanoseconds: 5 },
        updated_at: Timestamp { seconds: 1_700_000_500, nanoseconds: 7 },
        url: format!("https://tracker.example/ENG-{n}"),
    }
}

fn some_project(name: &str, status_type: &str, lead: Option<&str>) -> Project {
    Project {
        id: format!("project-{name}"),
        name: name.to_string(),
        description: None,
        status: ProjectStatus {
            name: status_type.to_uppercase(),
            color: "#123".to_string(),
            status_type: status_type.to_string(),
        },
        lead: lead.map(person),
    }
}

fn issues_component(issues: Vec<Issue>) -> IssuesComponent {
    let mut component = IssuesComponent::new();
    component.update_issues(issues);
    component
}

fn mixed_issues() -> Vec<Issue> {
    vec![
        some_issue(1, "completed", Some(4), Some("Ann")),
        some_issue(2, "started", Some(3), None),
        some_issue(3, "started", Some(2), Some("Bob")),
        some_issue(4, "unstarted", Some(1), None),
        some_issue(5, "canceled", None, None),
        some_issue(6, "triage", Some(0), Some("Ann")),
        some_issue(7, "completed", Some(4), None),
    ]
}

#[test]
fn issues_component_starts_empty() {
    let component = IssuesComponent::new();
    assert!(component.list.is_empty());
    assert_eq!(component.list.cursor, None);
    assert_eq!(component.filter, "");
    assert!(!component.show_details);
    assert!(component.selected_issue().is_none());
}

#[test]
fn issues_component_navigation_and_update() {
    let mut component = issues_component(mixed_issues());
    assert_eq!(component.selected_issue().unwrap().identifier, "ENG-1");
    component.select_previous();
    assert_eq!(component.selected_issue().unwrap().identifier, "ENG-7");
    component.select_next();
    component.select_next();
    assert_eq!(component.selected_issue().unwrap().identifier, "ENG-2");
    assert_eq!(
        component.open_selected_issue(),
        Ok("https://tracker.example/ENG-2".to_string())
    );
    component.update_issues(vec![some_issue(9, "started", None, None)]);
    assert_eq!(component.list.cursor, Some(1));
    assert!(component.selected_issue().is_none());
    assert_eq!(component.open_selected_issue(), Err(UiError::NoIssueSelected));
}

#[test]
fn issues_overview_counts_by_state_priority_and_assignee() {
    let component = issues_component(mixed_issues());
    assert_eq!(
        component.overview(),
        IssuesOverview {
            total: 7,
            completed: 2,
            started: 2,
            unstarted: 1,
            canceled: 1,
            urgent: 2,
            high: 1,
            medium: 1,
            low: 1,
            assigned: 3,
            unassigned: 4,
        }
    );
}

#[test]
fn issues_overview_of_no_issues_is_all_zero() {
    let overview = IssuesComponent::new().overview();
    assert_eq!(overview.total, 0);
    assert_eq!(overview.assigned, 0);
    assert_eq!(overview.unassigned, 0);
    assert_eq!(overview.urgent + overview.high + overview.medium + overview.low, 0);
}

#[test]
fn issue_columns_leave_the_rest_to_the_title() {
    assert_eq!(
        IssuesComponent::columns(120),
        IssueColumns {
            id_width: 10,
            priority_width: 4,
            title_width: 48,
            state_width: 14,
            assignee_width: 30,
        }
    );
    assert_eq!(IssuesComponent::columns(73).title_width, 1);
    assert_eq!(IssuesComponent::columns(72).title_width, 0);
    assert_eq!(IssuesComponent::columns(10).title_width, 0);
    assert_eq!(IssuesComponent::columns(0).title_width, 0);
    assert_eq!(IssuesComponent::columns(u16::MAX).title_width, u16::MAX - 72);
}

#[test]
fn flexible_and_status_widths() {
    assert_eq!(flexible_width(100, 58), 40);
    assert_eq!(flexible_width(60, 58), 0);
    assert_eq!(flexible_width(1, 0), 0);
    assert_eq!(status_width(80), 76);
    assert_eq!(status_width(4), 0);
    assert_eq!(status_width(3), 0);
}

#[test]
fn priority_colours_symbols_and_labels() {
    assert_eq!(priority_color(Some(4)), Color::Red);
    assert_eq!(priority_color(Some(3)), Color::Yellow);
    assert_eq!(priority_color(Some(2)), Color::Green);
    assert_eq!(priority_color(Some(1)), Color::Blue);
    assert_eq!(priority_color(Some(0)), Color::White);
    assert_eq!(priority_color(Some(9)), Color::White);
    assert_eq!(priority_color(None), Color::White);
    assert_eq!(priority_symbol(Some(4)), "🔴");
    assert_eq!(priority_symbol(Some(3)), "🟠");
    assert_eq!(priority_symbol(Some(2)), "🟢");
    assert_eq!(priority_symbol(Some(1)), "🔵");
    assert_eq!(priority_symbol(None), "⚪");
    assert_eq!(priority_label(Some(4)), "🔴 URGENT");
    assert_eq!(priority_label(Some(3)), "🟠 HIGH");
    assert_eq!(priority_label(Some(2)), "🟢 MEDIUM");
    assert_eq!(priority_label(Some(1)), "🔵 LOW");
    assert_eq!(priority_label(Some(-3)), "⚪ NO PRIORITY");
    assert_eq!(priority_label(None), "⚪ NO PRIORITY");
}

#[test]
fn state_and_status_colours() {
    assert_eq!(state_color("completed"), Color::Green);
    assert_eq!(state_color("started"), Color::Yellow);
    assert_eq!(state_color("unstarted"), Color::Gray);
    assert_eq!(state_color("canceled"), Color::Red);
    assert_eq!(state_color("backlog"), Color::White);
    assert_eq!(state_color("Completed"), Color::White);
    assert_eq!(state_color(""), Color::White);
    assert_eq!(status_color("completed"), Color::Green);
    assert_eq!(status_color("started"), Color::Yellow);
    assert_eq!(status_color("planned"), Color::Blue);
    assert_eq!(status_color("paused"), Color::Gray);
    assert_eq!(status_color("canceled"), Color::Red);
    assert_eq!(status_color("unstarted"), Color::White);
}

#[test]
fn selection_indicator_marks_only_the_cursor_row() {
    assert_eq!(selection_indicator(true), "➤ ");
    assert_eq!(selection_indicator(false), "  ");
}

#[test]
fn issue_row_holds_truncated_cells() {
    let mut issue = some_issue(12, "started", Some(3), Some("Alexandra Theodora von Hohenberg-Langenfeld"));
    issue.title = "A title that is much longer than its column".to_string();
    let mut component = issues_component(vec![some_issue(1, "completed", None, None), issue]);
    component.select_next();
    let columns = IssuesComponent::columns(92);
    assert_eq!(columns.title_width, 20);

    let row = component.row(1, &columns).unwrap();
    assert!(row.selected);
    assert_eq!(row.indicator, "➤ ");
    assert_eq!(row.identifier, "ENG-12");
    assert_eq!(row.priority_symbol, "🟠");
    assert_eq!(row.priority_color, Color::Yellow);
    assert_eq!(row.title, "A title that is m...");
    assert_eq!(row.title.len(), 20);
    assert_eq!(row.state_name, "STARTED");
    assert_eq!(row.state_color, Color::Yellow);
    assert_eq!(row.assignee, "Alexandra Theodora von Hohe...");
    assert_eq!(row.assignee.len(), 30);

    let other = component.row(0, &columns).unwrap();
    assert!(!other.selected);
    assert_eq!(other.indicator, "  ");
    assert_eq!(other.title, "Issue number 1");
    assert_eq!(other.assignee, "Unassigned");
    assert_eq!(other.priority_symbol, "⚪");
    assert_eq!(other.state_color, Color::Green);
}

#[test]
fn issue_row_is_refused_where_a_cut_splits_a_character() {
    let mut issue = some_issue(1, "started", None, None);
    issue.title = "ééééééééééééé".to_string();
    let component = issues_component(vec![issue]);
    let mut columns = IssuesComponent::columns(100);
    columns.title_width = 10;
    assert!(component.row(0, &columns).is_none());
    columns.title_width = 11;
    assert_eq!(component.row(0, &columns).unwrap().title, "éééé...");
    columns.title_width = 3;
    assert_eq!(component.row(0, &columns).unwrap().title, "ééé");
    columns.title_width = 0;
    assert_eq!(component.row(0, &columns).unwrap().title, "");
}

#[test]
fn issue_status_text_and_line() {
    let mut component = issues_component(mixed_issues());
    component.select_next();
    assert_eq!(
        component.status_text(),
        "Selected: ENG-2 - Issue number 2 | Team: ENG | Creator: Carla | Press ? for help"
    );
    assert_eq!(
        component.status_line(200),
        Some("Selected: ENG-2 - Issue number 2 | Team: ENG | Creator: Carla | Press ? for help".to_string())
    );
    assert_eq!(component.status_line(24), Some("Selected: ENG-2 -...".to_string()));
    let empty = IssuesComponent::new();
    assert_eq!(empty.status_text(), "No issue selected | Press ? for help");
    assert_eq!(empty.status_line(14), Some("No issu...".to_string()));
}

#[test]
fn issue_title_names_the_filter() {
    let mut component = IssuesComponent::new();
    assert_eq!(component.title_text(), "🎯 Linear Issues");
    component.filter = "bug".to_string();
    assert_eq!(component.title_text(), "🎯 Linear Issues - Filter: 'bug'");
}

#[test]
fn issues_layout_follows_details_and_selection() {
    let mut component = issues_component(mixed_issues());
    assert_eq!(component.layout(), IssuesLayout::List);
    component.toggle_details();
    assert_eq!(component.layout(), IssuesLayout::Details);
    component.update_issues(Vec::new());
    assert_eq!(component.layout(), IssuesLayout::NoSelection);
    component.toggle_details();
    assert_eq!(component.layout(), IssuesLayout::List);
}

#[test]
fn issue_header_of_selected_issue() {
    let component = issues_component(mixed_issues());
    let header = component.header().unwrap();
    assert_eq!(header.identifier, "ENG-1");
    assert_eq!(header.title, "Issue number 1");
    assert_eq!(header.priority_label, "🔴 URGENT");
    assert_eq!(header.priority_color, Color::Red);
    assert_eq!(header.state_name, "COMPLETED");
    assert_eq!(header.state_color, Color::Green);
    assert_eq!(header.assignee, "Ann");
    assert_eq!(header.creator, "Carla");
    assert!(IssuesComponent::new().header().is_none());
}

#[test]
fn assignee_and_lead_names_have_fallbacks() {
    assert_eq!(assignee_name(&some_issue(1, "started", None, Some("Ann"))), "Ann");
    assert_eq!(assignee_name(&some_issue(1, "started", None, None)), "Unassigned");
    assert_eq!(lead_name(&some_project("P", "started", Some("Bob"))), "Bob");
    assert_eq!(lead_name(&some_project("P", "started", None)), "No lead");
    assert_eq!(description_text(&some_team("A", Some("Core"))), "Core");
    assert_eq!(description_text(&some_team("A", None)), "No description");
}

#[test]
fn description_is_wrapped_to_the_area() {
    let mut issue = some_issue(1, "started", None, None);
    assert_eq!(description_lines(&issue, 80), vec!["No description available".to_string()]);
    issue.description = Some("short line\nthe quick brown fox jumps over the lazy dog".to_string());
    assert_eq!(
        description_lines(&issue, 24),
        vec![
            "short line".to_string(),
            "the quick brown fox".to_string(),
            "jumps over the lazy".to_string(),
            "dog".to_string(),
        ]
    );
}

#[test]
fn projects_component_navigation_and_overview() {
    let mut component = ProjectsComponent::new();
    assert!(component.selected_project().is_none());
    component.update_projects(vec![
        some_project("Alpha", "completed", Some("Ann")),
        some_project("Beta", "started", None),
        some_project("Gamma", "planned", Some("Bob")),
        some_project("Delta", "paused", None),
        some_project("Epsilon", "canceled", None),
        some_project("Zeta", "backlog", Some("Ann")),
        some_project("Eta", "started", None),
    ]);
    assert_eq!(component.selected_project().unwrap().name, "Alpha");
    component.select_previous();
    assert_eq!(component.selected_project().unwrap().name, "Eta");
    component.select_next();
    assert_eq!(component.selected_project().unwrap().name, "Alpha");
    assert_eq!(
        component.overview(),
        ProjectsOverview {
            total: 7,
            completed: 1,
            started: 2,
            planned: 1,
            paused: 1,
            canceled: 1,
            with_leads: 3,
            without_leads: 4,
        }
    );
}

#[test]
fn project_columns_rows_and_status() {
    let mut component = ProjectsComponent::new();
    component.update_projects(vec![
        some_project("A project with quite a long name", "planned", Some("Ann")),
        some_project("Beta", "started", None),
    ]);
    assert_eq!(
        ProjectsComponent::columns(100),
        ProjectColumns { name_width: 40, status_width: 12, lead_width: 40 }
    );
    assert_eq!(ProjectsComponent::columns(59).name_width, 0);
    let columns = ProjectsComponent::columns(80);
    assert_eq!(columns.name_width, 20);
    let row = component.row(0, &columns).unwrap();
    assert!(row.selected);
    assert_eq!(row.name, "A project with qu...");
    assert_eq!(row.status_name, "PLANNED");
    assert_eq!(row.status_color, Color::Blue);
    assert_eq!(row.lead, "Ann");
    let second = component.row(1, &columns).unwrap();
    assert!(!second.selected);
    assert_eq!(second.lead, "No lead");
    assert_eq!(second.status_color, Color::Yellow);

    component.select_next();
    assert_eq!(
        component.status_text(),
        "Selected: Beta - STARTED | Lead: No lead | Press ? for help"
    );
    assert_eq!(component.status_line(20), Some("Selected: Bet...".to_string()));
    assert_eq!(
        ProjectsComponent::new().status_text(),
        "No project selected | Press ? for help"
    );
}

#[test]
fn teams_component_navigation_overview_and_rows() {
    let mut component = TeamsComponent::new();
    assert!(component.selected_team().is_none());
    assert_eq!(component.status_text(), "No team selected | Press ? for help");
    component.update_teams(vec![
        some_team("ENG", Some("Engineering")),
        some_team("OPS", None),
        some_team("DES", Some("")),
    ]);
    assert_eq!(
        component.overview(),
        TeamsOverview { total: 3, with_descriptions: 1, without_descriptions: 2 }
    );
    assert_eq!(
        TeamsComponent::columns(100),
        TeamColumns { key_width: 10, name_width: 50, desc_width: 32 }
    );
    assert_eq!(TeamsComponent::columns(68).desc_width, 0);
    assert_eq!(component.status_text(), "Selected: Team ENG - Engineering | Press ? for help");
    component.select_previous();
    assert_eq!(component.selected_team().unwrap().key, "DES");
    assert_eq!(component.status_text(), "Selected: Team DES -  | Press ? for help");
    component.select_previous();
    assert_eq!(component.status_text(), "Selected: Team OPS - No description | Press ? for help");

    let columns = TeamsComponent::columns(74);
    assert_eq!(columns.desc_width, 6);
    let row = component.row(0, &columns).unwrap();
    assert!(!row.selected);
    assert_eq!(row.key, "ENG");
    assert_eq!(row.name, "Team ENG");
    assert_eq!(row.description, "Eng...");
    let selected = component.row(1, &columns).unwrap();
    assert!(selected.selected);
    assert_eq!(selected.description, "No ...");
}

#[test]
fn help_overlay_lists_the_keys() {
    let lines = HelpComponent::lines();
    assert_eq!(lines.len(), 19);
    assert_eq!(lines[0], HelpLine::Heading("Navigation:"));
    assert_eq!(
        lines[1],
        HelpLine::Entry { keys: "Tab/Shift+Tab", action: "   Switch between views" }
    );
    assert_eq!(lines[3], HelpLine::Blank);
    assert_eq!(lines[4], HelpLine::Heading("Actions:"));
    assert_eq!(lines[11], HelpLine::Heading("Views:"));
    assert_eq!(lines[16], HelpLine::Heading("Other:"));
    assert_eq!(
        lines[18],
        HelpLine::Entry { keys: "q/Ctrl+C", action: "      Quit application" }
    );
    let headings = lines.iter().filter(|l| matches!(l, HelpLine::Heading(_))).count();
    let blanks = lines.iter().filter(|l| matches!(l, HelpLine::Blank)).count();
    assert_eq!((headings, blanks), (4, 3));
}
