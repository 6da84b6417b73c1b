//! The issues view: the list of issues, its cursor and its detail sub-view.

use vstd::prelude::*;
use vstd::string::StringExecFns;
use crate::client::types::Issue;
use crate::ui::components::style::{
    flexible_width, selection_indicator, spec_flexible_width, spec_selection_indicator,
    spec_status_width, status_width, Color,
};
use crate::ui::selection::SelectableList;
use crate::utils::formatters::{
    can_truncate_text, spec_can_truncate_text, spec_truncate_text, truncate_text,
};
use crate::utils::wrap::{spec_wrap_text, wrap_text};
use crate::utils::text::{count_matching, lemma_count_matching_bound, lemma_count_matching_step, str_eq};

verus! {

/// A failure that the session reports to the user and survives.
#[derive(Debug, Clone, Copy, PartialEq, Eq, Structural)]
pub enum UiError {
    /// An action on the selected issue was asked for while none is selected.
    NoIssueSelected,
}

impl UiError {
    /// The text shown to the user.
    pub fn message(&self) -> (r: &'static str)
        ensures
            r@ == "No issue selected"@,
    {
        "No issue selected"
    }
}

/// The level of a priority: the number itself, and 0 where there is none.
pub open spec fn spec_priority_level(priority: Option<i32>) -> i32 {
    match priority {
        Some(level) => level,
        None => 0,
    }
}

/// The colour of a priority: red for urgent, yellow for high, green for
/// medium, blue for low, white for everything else.
pub open spec fn spec_priority_color(priority: Option<i32>) -> Color {
    let level = spec_priority_level(priority);
    if level == 4 {
        Color::Red
    } else if level == 3 {
        Color::Yellow
    } else if level == 2 {
        Color::Green
    } else if level == 1 {
        Color::Blue
    } else {
        Color::White
    }
}

/// The glyph of a priority in a row of the list.
pub open spec fn spec_priority_symbol(priority: Option<i32>) -> Seq<char> {
    let level = spec_priority_level(priority);
    if level == 4 {
        "🔴"@
    } else if level == 3 {
        "🟠"@
    } else if level == 2 {
        "🟢"@
    } else if level == 1 {
        "🔵"@
    } else {
        "⚪"@
    }
}

/// The glyph and name of a priority in the detail sub-view.
pub open spec fn spec_priority_label(priority: Option<i32>) -> Seq<char> {
    let level = spec_priority_level(priority);
    if level == 4 {
        "🔴 URGENT"@
    } else if level == 3 {
        "🟠 HIGH"@
    } else if level == 2 {
        "🟢 MEDIUM"@
    } else if level == 1 {
        "🔵 LOW"@
    } else {
        "⚪ NO PRIORITY"@
    }
}

/// The colour of a workflow state, by its type: green for completed, yellow
/// for started, gray for unstarted, red for canceled, white for every other.
pub open spec fn spec_state_color(state_type: Seq<char>) -> Color {
    if state_type == "completed"@ {
        Color::Green
    } else if state_type == "started"@ {
        Color::Yellow
    } else if state_type == "unstarted"@ {
        Color::Gray
    } else if state_type == "canceled"@ {
        Color::Red
    } else {
        Color::White
    }
}

/// The name shown for the assignee of an issue.
pub open spec fn spec_assignee_name(issue: Issue) -> Seq<char> {
    match issue.assignee {
        Some(user) => user.display_name@,
        None => "Unassigned"@,
    }
}

/// The issues whose workflow state has the given type.
pub open spec fn has_state_type(state_type: Seq<char>) -> spec_fn(Issue) -> bool {
    |issue: Issue| issue.state.state_type@ == state_type
}

/// The issues of the given priority level.
pub open spec fn has_priority_level(level: i32) -> spec_fn(Issue) -> bool {
    |issue: Issue| spec_priority_level(issue.priority) == level
}

/// The issues that have an assignee.
pub open spec fn is_assigned() -> spec_fn(Issue) -> bool {
    |issue: Issue| issue.assignee is Some
}

/// The numbers of the overview panel.
#[derive(Debug, Clone, Copy, PartialEq, Eq, Structural)]
pub struct IssuesOverview {
    pub total: usize,
    pub completed: usize,
    pub started: usize,
    pub unstarted: usize,
    pub canceled: usize,
    pub urgent: usize,
    pub high: usize,
    pub medium: usize,
    pub low: usize,
    pub assigned: usize,
    pub unassigned: usize,
}

/// The numbers of the overview panel over the given issues.
pub open spec fn spec_issues_overview(issues: Seq<Issue>) -> IssuesOverview {
    IssuesOverview {
        total: issues.len() as usize,
        completed: count_matching(issues, has_state_type("completed"@)) as usize,
        started: count_matching(issues, has_state_type("started"@)) as usize,
        unstarted: count_matching(issues, has_state_type("unstarted"@)) as usize,
        canceled: count_matching(issues, has_state_type("canceled"@)) as usize,
        urgent: count_matching(issues, has_priority_level(4)) as usize,
        high: count_matching(issues, has_priority_level(3)) as usize,
        medium: count_matching(issues, has_priority_level(2)) as usize,
        low: count_matching(issues, has_priority_level(1)) as usize,
        assigned: count_matching(issues, is_assigned()) as usize,
        unassigned: (issues.len() - count_matching(issues, is_assigned())) as usize,
    }
}

/// The widths of the columns of the list, in cells.
#[derive(Debug, Clone, Copy, PartialEq, Eq, Structural)]
pub struct IssueColumns {
    pub id_width: u16,
    pub priority_width: u16,
    pub title_width: u16,
    pub state_width: u16,
    pub assignee_width: u16,
}

/// The columns in an area `area_width` cells wide: fixed widths for all but
/// the title, which takes what the borders, the other columns and twelve
/// cells of separators leave.
pub open spec fn spec_issue_columns(area_width: u16) -> IssueColumns {
    IssueColumns {
        id_width: 10,
        priority_width: 4,
        title_width: spec_flexible_width(area_width, 70),
        state_width: 14,
        assignee_width: 30,
    }
}

/// One row of the list.
#[derive(Debug, Clone, PartialEq, Eq)]
pub struct IssueRow {
    pub selected: bool,
    pub indicator: &'static str,
    pub identifier: String,
    pub priority_symbol: &'static str,
    pub priority_color: Color,
    pub title: String,
    pub state_name: String,
    pub state_color: Color,
    pub assignee: String,
}

/// The head of the detail sub-view.
#[derive(Debug, Clone, PartialEq, Eq)]
pub struct IssueHeader {
    pub identifier: String,
    pub title: String,
    pub priority_label: &'static str,
    pub priority_color: Color,
    pub state_name: String,
    pub state_color: Color,
    pub assignee: String,
    pub creator: String,
}

/// What the issues view shows.
#[derive(Debug, Clone, Copy, PartialEq, Eq, Structural)]
pub enum IssuesLayout {
    /// Title bar, overview panel, list and status bar.
    List,
    /// Head, description and navigation bar of the selected issue.
    Details,
    /// The detail sub-view with nothing selected.
    NoSelection,
}

/// The colour of a priority.
pub fn priority_color(priority: Option<i32>) -> (r: Color)
    ensures
        r == spec_priority_color(priority),
{
    let level: i32 = match priority {
        Some(level) => level,
        None => 0,
    };
    match level {
        4 => Color::Red,
        3 => Color::Yellow,
        2 => Color::Green,
        1 => Color::Blue,
        _ => Color::White,
    }
}

/// The glyph of a priority in a row of the list.
pub fn priority_symbol(priority: Option<i32>) -> (r: &'static str)
    ensures
        r@ == spec_priority_symbol(priority),
{
    let level: i32 = match priority {
        Some(level) => level,
        None => 0,
    };
    match level {
        4 => "🔴",
        3 => "🟠",
        2 => "🟢",
        1 => "🔵",
        _ => "⚪",
    }
}

/// The glyph and name of a priority in the detail sub-view.
pub fn priority_label(priority: Option<i32>) -> (r: &'static str)
    ensures
        r@ == spec_priority_label(priority),
{
    let level: i32 = match priority {
        Some(level) => level,
        None => 0,
    };
    match level {
        4 => "🔴 URGENT",
        3 => "🟠 HIGH",
        2 => "🟢 MEDIUM",
        1 => "🔵 LOW",
        _ => "⚪ NO PRIORITY",
    }
}

/// The colour of a workflow state, by its type.
pub fn state_color(state_type: &str) -> (r: Color)
    ensures
        r == spec_state_color(state_type@),
{
    if str_eq(state_type, "completed") {
        Color::Green
    } else if str_eq(state_type, "started") {
        Color::Yellow
    } else if str_eq(state_type, "unstarted") {
        Color::Gray
    } else if str_eq(state_type, "canceled") {
        Color::Red
    } else {
        Color::White
    }
}

/// The name shown for the assignee of an issue.
pub fn assignee_name(issue: &Issue) -> (r: &str)
    ensures
        r@ == spec_assignee_name(*issue),
{
    match &issue.assignee {
        Some(user) => user.display_name.as_str(),
        None => "Unassigned",
    }
}

/// The description shown for an issue.
pub open spec fn spec_description_text(issue: Issue) -> Seq<char> {
    match issue.description {
        Some(text) => text@,
        None => "No description available"@,
    }
}

/// The description of an issue, or the note that there is none, wrapped
/// into the lines of an area `area_width` cells wide, of which borders and
/// padding take four.
pub fn description_lines(issue: &Issue, area_width: u16) -> (r: Vec<String>)
    ensures
        r@.len() == spec_wrap_text(
            spec_description_text(*issue),
            spec_status_width(area_width) as nat,
        ).len(),
        forall|i: int| 0 <= i < r@.len() ==> #[trigger] r@[i]@ == spec_wrap_text(
            spec_description_text(*issue),
            spec_status_width(area_width) as nat,
        )[i],
{
    let text: &str = match &issue.description {
        Some(text) => text.as_str(),
        None => "No description available",
    };
    wrap_text(text, status_width(area_width))
}

/// The issues view.
pub struct IssuesComponent {
    pub list: SelectableList<Issue>,
    pub filter: String,
    pub show_details: bool,
}

impl IssuesComponent {
    /// The component after one step forward in its list.
    pub open spec fn spec_select_next(self) -> Self {
        IssuesComponent { list: self.list.spec_select_next(), ..self }
    }

    /// The component after one step backward in its list.
    pub open spec fn spec_select_previous(self) -> Self {
        IssuesComponent { list: self.list.spec_select_previous(), ..self }
    }

    /// The component after the detail sub-view was toggled.
    pub open spec fn spec_toggle_details(self) -> Self {
        IssuesComponent { show_details: !self.show_details, ..self }
    }

    /// The component after its issues were replaced.
    pub open spec fn spec_update_issues(self, issues: Vec<Issue>) -> Self {
        IssuesComponent { list: self.list.spec_replace(issues), ..self }
    }

    /// The link of the selected issue, or the reason why there is none.
    pub open spec fn spec_open_selected_issue(&self) -> Result<String, UiError> {
        match self.list.spec_selected() {
            Some(issue) => Ok(issue.url),
            None => Err(UiError::NoIssueSelected),
        }
    }

    /// The text of the title bar.
    pub open spec fn spec_title_text(&self) -> Seq<char> {
        if self.filter@.len() > 0 {
            "🎯 Linear Issues - Filter: '"@ + self.filter@ + "'"@
        } else {
            "🎯 Linear Issues"@
        }
    }

    /// The text of the status bar, before it is cut to the width of the bar.
    pub open spec fn spec_status_text(&self) -> Seq<char> {
        match self.list.spec_selected() {
            Some(issue) => "Selected: "@ + issue.identifier@ + " - "@ + issue.title@
                + " | Team: "@ + issue.team.key@ + " | Creator: "@ + issue.creator.display_name@
                + " | Press ? for help"@,
            None => "No issue selected | Press ? for help"@,
        }
    }

    /// What the view shows.
    pub open spec fn spec_layout(&self) -> IssuesLayout {
        if !self.show_details {
            IssuesLayout::List
        } else if self.list.spec_selected() is Some {
            IssuesLayout::Details
        } else {
            IssuesLayout::NoSelection
        }
    }

    /// Whether the row at `index` can be built for the given columns: its
    /// title and the name of its assignee can be cut to their columns.
    pub open spec fn spec_row_can_render(&self, index: int, columns: IssueColumns) -> bool {
        &&& spec_can_truncate_text(self.list.items@[index].title@, columns.title_width as usize)
        &&& spec_can_truncate_text(
            spec_assignee_name(self.list.items@[index]),
            columns.assignee_width as usize,
        )
    }

    /// No issues, no cursor, no filter, the list shown.
    pub fn new() -> (r: Self)
        ensures
            r.list.items@.len() == 0,
            r.list.cursor is None,
            r.filter@.len() == 0,
            !r.show_details,
    {
        IssuesComponent { list: SelectableList::new(), filter: String::new(), show_details: false }
    }

    /// Moves the cursor one item forward, wrapping past the last item to the
    /// first. Does nothing on an empty list.
    pub fn select_next(&mut self)
        ensures
            *final(self) == old(self).spec_select_next(),
    {
        self.list.select_next();
    }

    /// Moves the cursor one item backward, wrapping from the first item to
    /// the last. Does nothing on an empty list.
    pub fn select_previous(&mut self)
        ensures
            *final(self) == old(self).spec_select_previous(),
    {
        self.list.select_previous();
    }

    /// The issue under the cursor, if the cursor is set and in range.
    pub fn selected_issue(&self) -> (r: Option<&Issue>)
        ensures
            match r {
                Some(issue) => self.list.spec_selected() == Some(*issue),
                None => self.list.spec_selected() is None,
            },
    {
        self.list.selected()
    }

    /// The link to open for the selected issue. Opening it is left to the
    /// caller; without a selected issue there is nothing to open.
    pub fn open_selected_issue(&self) -> (r: Result<String, UiError>)
        ensures
            r == self.spec_open_selected_issue(),
    {
        match self.list.selected() {
            Some(issue) => Ok(issue.url.clone()),
            None => Err(UiError::NoIssueSelected),
        }
    }

    /// Switches between the list and the detail sub-view.
    pub fn toggle_details(&mut self)
        ensures
            *final(self) == old(self).spec_toggle_details(),
    {
        self.show_details = !self.show_details;
    }

    /// Replaces the issues, keeping a cursor that is already set.
    pub fn update_issues(&mut self, issues: Vec<Issue>)
        ensures
            *final(self) == old(self).spec_update_issues(issues),
    {
        self.list.replace(issues);
    }

    /// What the view shows: the list, or, in the detail sub-view, the
    /// selected issue or the note that none is selected.
    pub fn layout(&self) -> (r: IssuesLayout)
        ensures
            r == self.spec_layout(),
    {
        if !self.show_details {
            IssuesLayout::List
        } else {
            match self.list.selected() {
                Some(_) => IssuesLayout::Details,
                None => IssuesLayout::NoSelection,
            }
        }
    }

    /// The text of the title bar, which names the filter where one is set.
    pub fn title_text(&self) -> (r: String)
        ensures
            r@ == self.spec_title_text(),
    {
        if !self.filter.as_str().is_empty() {
            let mut r = String::from_str("🎯 Linear Issues - Filter: '");
            r.append(self.filter.as_str());
            r.append("'");
            r
        } else {
            String::from_str("🎯 Linear Issues")
        }
    }

    /// The numbers of the overview panel: the issues by type of state, by
    /// priority, and with or without an assignee.
    pub fn overview(&self) -> (r: IssuesOverview)
        ensures
            r == spec_issues_overview(self.list.items@),
    {
        let n = self.list.items.len();
        let mut completed: usize = 0;
        let mut started: usize = 0;
        let mut unstarted: usize = 0;
        let mut canceled: usize = 0;
        let mut urgent: usize = 0;
        let mut high: usize = 0;
        let mut medium: usize = 0;
        let mut low: usize = 0;
        let mut assigned: usize = 0;
        let mut i: usize = 0;
        let ghost issues = self.list.items@;
        while i < n
            invariant
                i <= n,
                n == issues.len(),
                issues == self.list.items@,
                completed == count_matching(issues.take(i as int), has_state_type("completed"@)),
                started == count_matching(issues.take(i as int), has_state_type("started"@)),
                unstarted == count_matching(issues.take(i as int), has_state_type("unstarted"@)),
                canceled == count_matching(issues.take(i as int), has_state_type("canceled"@)),
                urgent == count_matching(issues.take(i as int), has_priority_level(4)),
                high == count_matching(issues.take(i as int), has_priority_level(3)),
                medium == count_matching(issues.take(i as int), has_priority_level(2)),
                low == count_matching(issues.take(i as int), has_priority_level(1)),
                assigned == count_matching(issues.take(i as int), is_assigned()),
            decreases n - i,
        {
            proof {
                lemma_count_matching_step(issues, has_state_type("completed"@), i as int);
                lemma_count_matching_step(issues, has_state_type("started"@), i as int);
                lemma_count_matching_step(issues, has_state_type("unstarted"@), i as int);
                lemma_count_matching_step(issues, has_state_type("canceled"@), i as int);
                lemma_count_matching_step(issues, has_priority_level(4), i as int);
                lemma_count_matching_step(issues, has_priority_level(3), i as int);
                lemma_count_matching_step(issues, has_priority_level(2), i as int);
                lemma_count_matching_step(issues, has_priority_level(1), i as int);
                lemma_count_matching_step(issues, is_assigned(), i as int);
                lemma_count_matching_bound(issues.take(i as int), has_state_type("completed"@));
                lemma_count_matching_bound(issues.take(i as int), has_state_type("started"@));
                lemma_count_matching_bound(issues.take(i as int), has_state_type("unstarted"@));
                lemma_count_matching_bound(issues.take(i as int), has_state_type("canceled"@));
                lemma_count_matching_bound(issues.take(i as int), has_priority_level(4));
                lemma_count_matching_bound(issues.take(i as int), has_priority_level(3));
                lemma_count_matching_bound(issues.take(i as int), has_priority_level(2));
                lemma_count_matching_bound(issues.take(i as int), has_priority_level(1));
                lemma_count_matching_bound(issues.take(i as int), is_assigned());
            }
            let issue = &self.list.items[i];
            let state_type = issue.state.state_type.as_str();
            if str_eq(state_type, "completed") {
                completed += 1;
            }
            if str_eq(state_type, "started") {
                started += 1;
            }
            if str_eq(state_type, "unstarted") {
                unstarted += 1;
            }
            if str_eq(state_type, "canceled") {
                canceled += 1;
            }
            let level: i32 = match issue.priority {
                Some(level) => level,
                None => 0,
            };
            if level == 4 {
                urgent += 1;
            }
            if level == 3 {
                high += 1;
            }
            if level == 2 {
                medium += 1;
            }
            if level == 1 {
                low += 1;
            }
            if issue.assignee.is_some() {
                assigned += 1;
            }
            i += 1;
        }
        proof {
            assert(issues.take(n as int) =~= issues);
            lemma_count_matching_bound(issues, is_assigned());
        }
        IssuesOverview {
            total: n,
            completed,
            started,
            unstarted,
            canceled,
            urgent,
            high,
            medium,
            low,
            assigned,
            unassigned: n - assigned,
        }
    }

    /// The widths of the columns of the list in an area `area_width` cells
    /// wide.
    pub fn columns(area_width: u16) -> (r: IssueColumns)
        ensures
            r == spec_issue_columns(area_width),
    {
        IssueColumns {
            id_width: 10,
            priority_width: 4,
            title_width: flexible_width(area_width, 70),
            state_width: 14,
            assignee_width: 30,
        }
    }

    /// The row of the list at `index`: marked where the cursor stands on it,
    /// with the colours of its priority and state, and with its title and
    /// the name of its assignee cut to their columns. There is no row where
    /// a cut would split a character.
    pub fn row(&self, index: usize, columns: &IssueColumns) -> (r: Option<IssueRow>)
        requires
            index < self.list.items@.len(),
        ensures
            r is Some <==> self.spec_row_can_render(index as int, *columns),
            r matches Some(row) ==> {
                let issue = self.list.items@[index as int];
                &&& row.selected == (self.list.cursor == Some(index))
                &&& row.indicator@ == spec_selection_indicator(row.selected)
                &&& row.identifier == issue.identifier
                &&& row.priority_symbol@ == spec_priority_symbol(issue.priority)
                &&& row.priority_color == spec_priority_color(issue.priority)
                &&& row.title@ == spec_truncate_text(issue.title@, columns.title_width as usize)
                &&& row.state_name == issue.state.name
                &&& row.state_color == spec_state_color(issue.state.state_type@)
                &&& row.assignee@ == spec_truncate_text(
                    spec_assignee_name(issue),
                    columns.assignee_width as usize,
                )
            },
    {
        let issue = &self.list.items[index];
        let selected = match self.list.cursor {
            Some(i) => i == index,
            None => false,
        };
        let title_width = columns.title_width as usize;
        let assignee_width = columns.assignee_width as usize;
        if !can_truncate_text(issue.title.as_str(), title_width) {
            return None;
        }
        if !can_truncate_text(assignee_name(issue), assignee_width) {
            return None;
        }
        Some(
            IssueRow {
                selected,
                indicator: selection_indicator(selected),
                identifier: issue.identifier.clone(),
                priority_symbol: priority_symbol(issue.priority),
                priority_color: priority_color(issue.priority),
                title: truncate_text(issue.title.as_str(), title_width),
                state_name: issue.state.name.clone(),
                state_color: state_color(issue.state.state_type.as_str()),
                assignee: truncate_text(assignee_name(issue), assignee_width),
            },
        )
    }

    /// The text of the status bar, before it is cut: the selected issue with
    /// its team and its creator, or the note that no issue is selected.
    pub fn status_text(&self) -> (r: String)
        ensures
            r@ == self.spec_status_text(),
    {
        match self.list.selected() {
            Some(issue) => {
                let mut r = String::from_str("Selected: ");
                r.append(issue.identifier.as_str());
                r.append(" - ");
                r.append(issue.title.as_str());
                r.append(" | Team: ");
                r.append(issue.team.key.as_str());
                r.append(" | Creator: ");
                r.append(issue.creator.display_name.as_str());
                r.append(" | Press ? for help");
                r
            },
            None => String::from_str("No issue selected | Press ? for help"),
        }
    }

    /// The text of the status bar in an area `area_width` cells wide, cut to
    /// the bar if it can be cut there; nothing where the cut would split a
    /// character.
    pub fn status_line(&self, area_width: u16) -> (r: Option<String>)
        ensures
            r is Some <==> spec_can_truncate_text(
                self.spec_status_text(),
                spec_status_width(area_width),
            ),
            r matches Some(line) ==> line@ == spec_truncate_text(
                self.spec_status_text(),
                spec_status_width(area_width),
            ),
    {
        let text = self.status_text();
        let width = status_width(area_width);
        if can_truncate_text(text.as_str(), width) {
            Some(truncate_text(text.as_str(), width))
        } else {
            None
        }
    }

    /// The head of the detail sub-view for the selected issue, if one is
    /// selected.
    pub fn header(&self) -> (r: Option<IssueHeader>)
        ensures
            match self.list.spec_selected() {
                Some(issue) => r matches Some(h) && h.identifier == issue.identifier && h.title
                    == issue.title && h.priority_label@ == spec_priority_label(issue.priority)
                    && h.priority_color == spec_priority_color(issue.priority) && h.state_name
                    == issue.state.name && h.state_color == spec_state_color(
                    issue.state.state_type@,
                ) && h.assignee@ == spec_assignee_name(issue) && h.creator
                    == issue.creator.display_name,
                None => r is None,
            },
    {
        match self.list.selected() {
            Some(issue) => Some(
                IssueHeader {
                    identifier: issue.identifier.clone(),
                    title: issue.title.clone(),
                    priority_label: priority_label(issue.priority),
                    priority_color: priority_color(issue.priority),
                    state_name: issue.state.name.clone(),
                    state_color: state_color(issue.state.state_type.as_str()),
                    assignee: String::from_str(assignee_name(issue)),
                    creator: issue.creator.display_name.clone(),
                },
            ),
            None => None,
        }
    }
}

} // verus!
