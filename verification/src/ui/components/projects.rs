//! The projects view: the list of projects and its cursor.

use vstd::prelude::*;
use vstd::string::StringExecFns;
use crate::client::types::Project;
use crate::ui::components::style::{
    flexible_width, selection_indicator, spec_flexible_width, spec_selection_indicator,
    spec_status_width, status_width, Color,
};
use crate::ui::selection::SelectableList;
use crate::utils::formatters::{
    can_truncate_text, spec_can_truncate_text, spec_truncate_text, truncate_text,
};
use crate::utils::text::{count_matching, lemma_count_matching_bound, lemma_count_matching_step, str_eq};

verus! {

/// The colour of a project status, by its type: green for completed, yellow
/// for started, blue for planned, gray for paused, red for canceled, white
/// for every other.
pub open spec fn spec_status_color(status_type: Seq<char>) -> Color {
    if status_type == "completed"@ {
        Color::Green
    } else if status_type == "started"@ {
        Color::Yellow
    } else if status_type == "planned"@ {
        Color::Blue
    } else if status_type == "paused"@ {
        Color::Gray
    } else if status_type == "canceled"@ {
        Color::Red
    } else {
        Color::White
    }
}

/// The name shown for the lead of a project.
pub open spec fn spec_lead_name(project: Project) -> Seq<char> {
    match project.lead {
        Some(user) => user.display_name@,
        None => "No lead"@,
    }
}

/// The projects whose status has the given type.
pub open spec fn has_status_type(status_type: Seq<char>) -> spec_fn(Project) -> bool {
    |project: Project| project.status.status_type@ == status_type
}

/// The projects that have a lead.
pub open spec fn has_lead() -> spec_fn(Project) -> bool {
    |project: Project| project.lead is Some
}

/// The numbers of the overview panel.
#[derive(Debug, Clone, Copy, PartialEq, Eq, Structural)]
pub struct ProjectsOverview {
    pub total: usize,
    pub completed: usize,
    pub started: usize,
    pub planned: usize,
    pub paused: usize,
    pub canceled: usize,
    pub with_leads: usize,
    pub without_leads: usize,
}

/// The numbers of the overview panel over the given projects.
pub open spec fn spec_projects_overview(projects: Seq<Project>) -> ProjectsOverview {
    ProjectsOverview {
        total: projects.len() as usize,
        completed: count_matching(projects, has_status_type("completed"@)) as usize,
        started: count_matching(projects, has_status_type("started"@)) as usize,
        planned: count_matching(projects, has_status_type("planned"@)) as usize,
        paused: count_matching(projects, has_status_type("paused"@)) as usize,
        canceled: count_matching(projects, has_status_type("canceled"@)) as usize,
        with_leads: count_matching(projects, has_lead()) as usize,
        without_leads: (projects.len() - count_matching(projects, has_lead())) as usize,
    }
}

/// The widths of the columns of the list, in cells.
#[derive(Debug, Clone, Copy, PartialEq, Eq, Structural)]
pub struct ProjectColumns {
    pub name_width: u16,
    pub status_width: u16,
    pub lead_width: u16,
}

/// The columns in an area `area_width` cells wide: fixed widths for status
/// and lead, and for the name what the borders, those two and six cells of
/// separators leave.
pub open spec fn spec_project_columns(area_width: u16) -> ProjectColumns {
    ProjectColumns {
        name_width: spec_flexible_width(area_width, 58),
        status_width: 12,
        lead_width: 40,
    }
}

/// One row of the list.
#[derive(Debug, Clone, PartialEq, Eq)]
pub struct ProjectRow {
    pub selected: bool,
    pub indicator: &'static str,
    pub name: String,
    pub status_name: String,
    pub status_color: Color,
    pub lead: String,
}

/// The colour of a project status, by its type.
pub fn status_color(status_type: &str) -> (r: Color)
    ensures
        r == spec_status_color(status_type@),
{
    if str_eq(status_type, "completed") {
        Color::Green
    } else if str_eq(status_type, "started") {
        Color::Yellow
    } else if str_eq(status_type, "planned") {
        Color::Blue
    } else if str_eq(status_type, "paused") {
        Color::Gray
    } else if str_eq(status_type, "canceled") {
        Color::Red
    } else {
        Color::White
    }
}

/// The name shown for the lead of a project.
pub fn lead_name(project: &Project) -> (r: &str)
    ensures
        r@ == spec_lead_name(*project),
{
    match &project.lead {
        Some(user) => user.display_name.as_str(),
        None => "No lead",
    }
}

/// The projects view.
pub struct ProjectsComponent {
    pub list: SelectableList<Project>,
}

impl ProjectsComponent {
    /// The component after one step forward in its list.
    pub open spec fn spec_select_next(self) -> Self {
        ProjectsComponent { list: self.list.spec_select_next() }
    }

    /// The component after one step backward in its list.
    pub open spec fn spec_select_previous(self) -> Self {
        ProjectsComponent { list: self.list.spec_select_previous() }
    }

    /// The component after its projects were replaced.
    pub open spec fn spec_update_projects(self, projects: Vec<Project>) -> Self {
        ProjectsComponent { list: self.list.spec_replace(projects) }
    }

    /// The text of the status bar, before it is cut to the width of the bar.
    pub open spec fn spec_status_text(&self) -> Seq<char> {
        match self.list.spec_selected() {
            Some(project) => "Selected: "@ + project.name@ + " - "@ + project.status.name@
                + " | Lead: "@ + spec_lead_name(project) + " | Press ? for help"@,
            None => "No project selected | Press ? for help"@,
        }
    }

    /// Whether the row at `index` can be built for the given columns: its
    /// name and the name of its lead can be cut to their columns.
    pub open spec fn spec_row_can_render(&self, index: int, columns: ProjectColumns) -> bool {
        &&& spec_can_truncate_text(self.list.items@[index].name@, columns.name_width as usize)
        &&& spec_can_truncate_text(
            spec_lead_name(self.list.items@[index]),
            columns.lead_width as usize,
        )
    }

    /// No projects and no cursor.
    pub fn new() -> (r: Self)
        ensures
            r.list.items@.len() == 0,
            r.list.cursor is None,
    {
        ProjectsComponent { list: SelectableList::new() }
    }

    /// Moves the cursor one item forward, wrapping past the last item to the
    /// first. Does nothing on an empty list.
    pub fn select_next(&mut self)
        ensures
            *final(self) == old(self).spec_select_next(),
    {
        self.list.select_next();
    }

    /// Moves the cursor one item backward, wrapping from the first item to
    /// the last. Does nothing on an empty list.
    pub fn select_previous(&mut self)
        ensures
            *final(self) == old(self).spec_select_previous(),
    {
        self.list.select_previous();
    }

    /// The project under the cursor, if the cursor is set and in range.
    pub fn selected_project(&self) -> (r: Option<&Project>)
        ensures
            match r {
                Some(project) => self.list.spec_selected() == Some(*project),
                None => self.list.spec_selected() is None,
            },
    {
        self.list.selected()
    }

    /// Replaces the projects, keeping a cursor that is already set.
    pub fn update_projects(&mut self, projects: Vec<Project>)
        ensures
            *final(self) == old(self).spec_update_projects(projects),
    {
        self.list.replace(projects);
    }

    /// The numbers of the overview panel: the projects by type of status,
    /// and with or without a lead.
    pub fn overview(&self) -> (r: ProjectsOverview)
        ensures
            r == spec_projects_overview(self.list.items@),
    {
        let n = self.list.items.len();
        let mut completed: usize = 0;
        let mut started: usize = 0;
        let mut planned: usize = 0;
        let mut paused: usize = 0;
        let mut canceled: usize = 0;
        let mut with_leads: usize = 0;
        let mut i: usize = 0;
        let ghost projects = self.list.items@;
        while i < n
            invariant
                i <= n,
                n == projects.len(),
                projects == self.list.items@,
                completed == count_matching(
                    projects.take(i as int),
                    has_status_type("completed"@),
                ),
                started == count_matching(projects.take(i as int), has_status_type("started"@)),
                planned == count_matching(projects.take(i as int), has_status_type("planned"@)),
                paused == count_matching(projects.take(i as int), has_status_type("paused"@)),
                canceled == count_matching(projects.take(i as int), has_status_type("canceled"@)),
                with_leads == count_matching(projects.take(i as int), has_lead()),
            decreases n - i,
        {
            proof {
                lemma_count_matching_step(projects, has_status_type("completed"@), i as int);
                lemma_count_matching_step(projects, has_status_type("started"@), i as int);
                lemma_count_matching_step(projects, has_status_type("planned"@), i as int);
                lemma_count_matching_step(projects, has_status_type("paused"@), i as int);
                lemma_count_matching_step(projects, has_status_type("canceled"@), i as int);
                lemma_count_matching_step(projects, has_lead(), i as int);
                lemma_count_matching_bound(projects.take(i as int), has_status_type("completed"@));
                lemma_count_matching_bound(projects.take(i as int), has_status_type("started"@));
                lemma_count_matching_bound(projects.take(i as int), has_status_type("planned"@));
                lemma_count_matching_bound(projects.take(i as int), has_status_type("paused"@));
                lemma_count_matching_bound(projects.take(i as int), has_status_type("canceled"@));
                lemma_count_matching_bound(projects.take(i as int), has_lead());
            }
            let project = &self.list.items[i];
            let status_type = project.status.status_type.as_str();
            if str_eq(status_type, "completed") {
                completed += 1;
            }
            if str_eq(status_type, "started") {
                started += 1;
            }
            if str_eq(status_type, "planned") {
                planned += 1;
            }
            if str_eq(status_type, "paused") {
                paused += 1;
            }
            if str_eq(status_type, "canceled") {
                canceled += 1;
            }
            if project.lead.is_some() {
                with_leads += 1;
            }
            i += 1;
        }
        proof {
            assert(projects.take(n as int) =~= projects);
            lemma_count_matching_bound(projects, has_lead());
        }
        ProjectsOverview {
            total: n,
            completed,
            started,
            planned,
            paused,
            canceled,
            with_leads,
            without_leads: n - with_leads,
        }
    }

    /// The widths of the columns of the list in an area `area_width` cells
    /// wide.
    pub fn columns(area_width: u16) -> (r: ProjectColumns)
        ensures
            r == spec_project_columns(area_width),
    {
        ProjectColumns {
            name_width: flexible_width(area_width, 58),
            status_width: 12,
            lead_width: 40,
        }
    }

    /// The row of the list at `index`: marked where the cursor stands on it,
    /// with the colour of its status, and with its name and the name of its
    /// lead cut to their columns. There is no row where a cut would split a
    /// character.
    pub fn row(&self, index: usize, columns: &ProjectColumns) -> (r: Option<ProjectRow>)
        requires
            index < self.list.items@.len(),
        ensures
            r is Some <==> self.spec_row_can_render(index as int, *columns),
            r matches Some(row) ==> {
                let project = self.list.items@[index as int];
                &&& row.selected == (self.list.cursor == Some(index))
                &&& row.indicator@ == spec_selection_indicator(row.selected)
                &&& row.name@ == spec_truncate_text(project.name@, columns.name_width as usize)
                &&& row.status_name == project.status.name
                &&& row.status_color == spec_status_color(project.status.status_type@)
                &&& row.lead@ == spec_truncate_text(
                    spec_lead_name(project),
                    columns.lead_width as usize,
                )
            },
    {
        let project = &self.list.items[index];
        let selected = match self.list.cursor {
            Some(i) => i == index,
            None => false,
        };
        let name_width = columns.name_width as usize;
        let lead_width = columns.lead_width as usize;
        if !can_truncate_text(project.name.as_str(), name_width) {
            return None;
        }
        if !can_truncate_text(lead_name(project), lead_width) {
            return None;
        }
        Some(
            ProjectRow {
                selected,
                indicator: selection_indicator(selected),
                name: truncate_text(project.name.as_str(), name_width),
                status_name: project.status.name.clone(),
                status_color: status_color(project.status.status_type.as_str()),
                lead: truncate_text(lead_name(project), lead_width),
            },
        )
    }

    /// The text of the status bar, before it is cut: the selected project
    /// with its status and its lead, or the note that no project is
    /// selected.
    pub fn status_text(&self) -> (r: String)
        ensures
            r@ == self.spec_status_text(),
    {
        match self.list.selected() {
            Some(project) => {
                let mut r = String::from_str("Selected: ");
                r.append(project.name.as_str());
                r.append(" - ");
                r.append(project.status.name.as_str());
                r.append(" | Lead: ");
                r.append(lead_name(project));
                r.append(" | Press ? for help");
                r
            },
            None => String::from_str("No project selected | Press ? for help"),
        }
    }

    /// The text of the status bar in an area `area_width` cells wide, cut to
    /// the bar if it can be cut there; nothing where the cut would split a
    /// character.
    pub fn status_line(&self, area_width: u16) -> (r: Option<String>)
        ensures
            r is Some <==> spec_can_truncate_text(
                self.spec_status_text(),
                spec_status_width(area_width),
            ),
            r matches Some(line) ==> line@ == spec_truncate_text(
                self.spec_status_text(),
                spec_status_width(area_width),
            ),
    {
        let text = self.status_text();
        let width = status_width(area_width);
        if can_truncate_text(text.as_str(), width) {
            Some(truncate_text(text.as_str(), width))
        } else {
            None
        }
    }
}

} // verus!
