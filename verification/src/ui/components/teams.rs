//! The teams view: the list of teams and its cursor.

use vstd::prelude::*;
use vstd::string::StringExecFns;
use crate::client::types::Team;
use crate::ui::components::style::{
    flexible_width, selection_indicator, spec_flexible_width, spec_selection_indicator,
};
use crate::ui::selection::SelectableList;
use crate::utils::formatters::{
    can_truncate_text, spec_can_truncate_text, spec_truncate_text, truncate_text,
};
use crate::utils::text::{count_matching, lemma_count_matching_bound, lemma_count_matching_step};

verus! {

/// The description shown for a team.
pub open spec fn spec_description_text(team: Team) -> Seq<char> {
    match team.description {
        Some(text) => text@,
        None => "No description"@,
    }
}

/// The teams that have a description which is not empty.
pub open spec fn is_described() -> spec_fn(Team) -> bool {
    |team: Team| team.description matches Some(text) && text@.len() > 0
}

/// The numbers of the overview panel.
#[derive(Debug, Clone, Copy, PartialEq, Eq, Structural)]
pub struct TeamsOverview {
    pub total: usize,
    pub with_descriptions: usize,
    pub without_descriptions: usize,
}

/// The numbers of the overview panel over the given teams.
pub open spec fn spec_teams_overview(teams: Seq<Team>) -> TeamsOverview {
    TeamsOverview {
        total: teams.len() as usize,
        with_descriptions: count_matching(teams, is_described()) as usize,
        without_descriptions: (teams.len() - count_matching(teams, is_described())) as usize,
    }
}

/// The widths of the columns of the list, in cells.
#[derive(Debug, Clone, Copy, PartialEq, Eq, Structural)]
pub struct TeamColumns {
    pub key_width: u16,
    pub name_width: u16,
    pub desc_width: u16,
}

/// The columns in an area `area_width` cells wide: fixed widths for key and
/// name, and for the description what the borders, those two and six cells
/// of separators leave.
pub open spec fn spec_team_columns(area_width: u16) -> TeamColumns {
    TeamColumns { key_width: 10, name_width: 50, desc_width: spec_flexible_width(area_width, 66) }
}

/// One row of the list.
#[derive(Debug, Clone, PartialEq, Eq)]
pub struct TeamRow {
    pub selected: bool,
    pub indicator: &'static str,
    pub key: String,
    pub name: String,
    pub description: String,
}

/// The description shown for a team.
pub fn description_text(team: &Team) -> (r: &str)
    ensures
        r@ == spec_description_text(*team),
{
    match &team.description {
        Some(text) => text.as_str(),
        None => "No description",
    }
}

/// The teams view.
pub struct TeamsComponent {
    pub list: SelectableList<Team>,
}

impl TeamsComponent {
    /// The component after one step forward in its list.
    pub open spec fn spec_select_next(self) -> Self {
        TeamsComponent { list: self.list.spec_select_next() }
    }

    /// The component after one step backward in its list.
    pub open spec fn spec_select_previous(self) -> Self {
        TeamsComponent { list: self.list.spec_select_previous() }
    }

    /// The component after its teams were replaced.
    pub open spec fn spec_update_teams(self, teams: Vec<Team>) -> Self {
        TeamsComponent { list: self.list.spec_replace(teams) }
    }

    /// The text of the status bar.
    pub open spec fn spec_status_text(&self) -> Seq<char> {
        match self.list.spec_selected() {
            Some(team) => "Selected: "@ + team.name@ + " - "@ + spec_description_text(team)
                + " | Press ? for help"@,
            None => "No team selected | Press ? for help"@,
        }
    }

    /// Whether the row at `index` can be built for the given columns: its
    /// name and its description can be cut to their columns.
    pub open spec fn spec_row_can_render(&self, index: int, columns: TeamColumns) -> bool {
        &&& spec_can_truncate_text(self.list.items@[index].name@, columns.name_width as usize)
        &&& spec_can_truncate_text(
            spec_description_text(self.list.items@[index]),
            columns.desc_width as usize,
        )
    }

    /// No teams and no cursor.
    pub fn new() -> (r: Self)
        ensures
            r.list.items@.len() == 0,
            r.list.cursor is None,
    {
        TeamsComponent { list: SelectableList::new() }
    }

    /// Moves the cursor one item forward, wrapping past the last item to the
    /// first. Does nothing on an empty list.
    pub fn select_next(&mut self)
        ensures
            *final(self) == old(self).spec_select_next(),
    {
        self.list.select_next();
    }

    /// Moves the cursor one item backward, wrapping from the first item to
    /// the last. Does nothing on an empty list.
    pub fn select_previous(&mut self)
        ensures
            *final(self) == old(self).spec_select_previous(),
    {
        self.list.select_previous();
    }

    /// The team under the cursor, if the cursor is set and in range.
    pub fn selected_team(&self) -> (r: Option<&Team>)
        ensures
            match r {
                Some(team) => self.list.spec_selected() == Some(*team),
                None => self.list.spec_selected() is None,
            },
    {
        self.list.selected()
    }

    /// Replaces the teams, keeping a cursor that is already set.
    pub fn update_teams(&mut self, teams: Vec<Team>)
        ensures
            *final(self) == old(self).spec_update_teams(teams),
    {
        self.list.replace(teams);
    }

    /// The numbers of the overview panel: the teams with and without a
    /// description. An empty description counts as none.
    pub fn overview(&self) -> (r: TeamsOverview)
        ensures
            r == spec_teams_overview(self.list.items@),
    {
        let n = self.list.items.len();
        let mut with_descriptions: usize = 0;
        let mut i: usize = 0;
        let ghost teams = self.list.items@;
        while i < n
            invariant
                i <= n,
                n == teams.len(),
                teams == self.list.items@,
                with_descriptions == count_matching(teams.take(i as int), is_described()),
            decreases n - i,
        {
            proof {
                lemma_count_matching_step(teams, is_described(), i as int);
                lemma_count_matching_bound(teams.take(i as int), is_described());
            }
            let described = match &self.list.items[i].description {
                Some(text) => !text.as_str().is_empty(),
                None => false,
            };
            if described {
                with_descriptions += 1;
            }
            i += 1;
        }
        proof {
            assert(teams.take(n as int) =~= teams);
            lemma_count_matching_bound(teams, is_described());
        }
        TeamsOverview { total: n, with_descriptions, without_descriptions: n - with_descriptions }
    }

    /// The widths of the columns of the list in an area `area_width` cells
    /// wide.
    pub fn columns(area_width: u16) -> (r: TeamColumns)
        ensures
            r == spec_team_columns(area_width),
    {
        TeamColumns { key_width: 10, name_width: 50, desc_width: flexible_width(area_width, 66) }
    }

    /// The row of the list at `index`: marked where the cursor stands on it,
    /// with its name and its description cut to their columns. There is no
    /// row where a cut would split a character.
    pub fn row(&self, index: usize, columns: &TeamColumns) -> (r: Option<TeamRow>)
        requires
            index < self.list.items@.len(),
        ensures
            r is Some <==> self.spec_row_can_render(index as int, *columns),
            r matches Some(row) ==> {
                let team = self.list.items@[index as int];
                &&& row.selected == (self.list.cursor == Some(index))
                &&& row.indicator@ == spec_selection_indicator(row.selected)
                &&& row.key == team.key
                &&& row.name@ == spec_truncate_text(team.name@, columns.name_width as usize)
                &&& row.description@ == spec_truncate_text(
                    spec_description_text(team),
                    columns.desc_width as usize,
                )
            },
    {
        let team = &self.list.items[index];
        let selected = match self.list.cursor {
            Some(i) => i == index,
            None => false,
        };
        let name_width = columns.name_width as usize;
        let desc_width = columns.desc_width as usize;
        if !can_truncate_text(team.name.as_str(), name_width) {
            return None;
        }
        if !can_truncate_text(description_text(team), desc_width) {
            return None;
        }
        Some(
            TeamRow {
                selected,
                indicator: selection_indicator(selected),
                key: team.key.clone(),
                name: truncate_text(team.name.as_str(), name_width),
                description: truncate_text(description_text(team), desc_width),
            },
        )
    }

    /// The text of the status bar: the selected team with its description,
    /// or the note that no team is selected.
    pub fn status_text(&self) -> (r: String)
        ensures
            r@ == self.spec_status_text(),
    {
        match self.list.selected() {
            Some(team) => {
                let mut r = String::from_str("Selected: ");
                r.append(team.name.as_str());
                r.append(" - ");
                r.append(description_text(team));
                r.append(" | Press ? for help");
                r
            },
            None => String::from_str("No team selected | Press ? for help"),
        }
    }
}

} // verus!
