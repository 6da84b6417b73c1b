//! Records exchanged with the remote issue tracker.

use vstd::prelude::*;

verus! {

/// An instant in UTC: whole seconds since the Unix epoch and the nanoseconds
/// into that second.
#[derive(Debug, Clone, Copy, PartialEq, Eq, Structural)]
pub struct Timestamp {
    pub seconds: i64,
    pub nanoseconds: u32,
}

/// A person known to the tracker.
#[derive(Debug, Clone, PartialEq, Eq)]
pub struct User {
    pub id: String,
    pub name: String,
    pub email: Option<String>,
    pub display_name: String,
    pub avatar_url: Option<String>,
}

/// A team, which owns issues. Its `id` is what requests name it by.
#[derive(Debug, PartialEq, Eq)]
pub struct Team {
    pub id: String,
    pub name: String,
    pub key: String,
    pub description: Option<String>,
}

impl Clone for Team {
    /// A copy equal to the team in every field.
    fn clone(&self) -> (r: Self)
        ensures
            r == *self,
    {
        let description = match &self.description {
            Some(d) => Some(d.clone()),
            None => None,
        };
        Team { id: self.id.clone(), name: self.name.clone(), key: self.key.clone(), description }
    }
}

/// An issue with its state, its people and its team.
#[derive(Debug, Clone, PartialEq, Eq)]
pub struct Issue {
    pub id: String,
    pub title: String,
    pub description: Option<String>,
    pub identifier: String,
    pub priority: Option<i32>,
    pub state: IssueState,
    pub assignee: Option<User>,
    pub creator: User,
    pub team: Team,
    pub created_at: Timestamp,
    pub updated_at: Timestamp,
    pub url: String,
}

/// The workflow state of an issue. Its `state_type` is one of a few
/// fixed words, such as `started` or `completed`.
#[derive(Debug, Clone, PartialEq, Eq)]
pub struct IssueState {
    pub id: String,
    pub name: String,
    pub color: String,
    pub state_type: String,
}

/// A project with its status and its lead.
#[derive(Debug, Clone, PartialEq, Eq)]
pub struct Project {
    pub id: String,
    pub name: String,
    pub description: Option<String>,
    pub status: ProjectStatus,
    pub lead: Option<User>,
}

/// The status of a project. Its `status_type` is one of a few fixed
/// words, such as `planned` or `paused`.
#[derive(Debug, Clone, PartialEq, Eq)]
pub struct ProjectStatus {
    pub name: String,
    pub color: String,
    pub status_type: String,
}

/// Envelope of every response: the payload, the errors, or both.
#[derive(Debug)]
pub struct GraphQLResponse<T> {
    pub data: Option<T>,
    pub errors: Option<Vec<GraphQLError>>,
}

/// One error of a response.
#[derive(Debug, Clone, PartialEq, Eq)]
pub struct GraphQLError {
    pub message: String,
    pub locations: Option<Vec<Location>>,
    pub path: Option<Vec<String>>,
}

/// A place in the text of a query.
#[derive(Debug, Clone, Copy, PartialEq, Eq, Structural)]
pub struct Location {
    pub line: i32,
    pub column: i32,
}

/// The variables that go with a query.
#[derive(Debug, Clone, PartialEq, Eq)]
pub enum Variables {
    /// `teamId` and `first`.
    TeamIssues { team_id: String, first: i32 },
    /// `first`.
    AllIssues { first: i32 },
    /// `teamId`.
    TeamProjects { team_id: String },
    /// `input`, with `teamId`, `title` and `description`.
    CreateIssue { team_id: String, title: String, description: Option<String> },
}

/// A request: the text of a query and the variables that go with it.
#[derive(Debug, Clone, PartialEq, Eq)]
pub struct GraphQLRequest {
    pub query: String,
    pub variables: Option<Variables>,
}

/// One page of issues.
#[derive(Debug)]
pub struct IssuesConnection {
    pub nodes: Vec<Issue>,
    pub page_info: PageInfo,
}

/// Where a page stands among all pages.
#[derive(Debug, Clone, PartialEq, Eq)]
pub struct PageInfo {
    pub has_next_page: bool,
    pub has_previous_page: bool,
    pub start_cursor: Option<String>,
    pub end_cursor: Option<String>,
}

} // verus!
