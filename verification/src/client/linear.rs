//! Requests to the remote issue tracker and the reading of its responses.
//!
//! Sending is not done here: a request is built, handed out, and the decoded
//! response comes back to be judged.

use vstd::prelude::*;
use vstd::string::StringExecFns;
use crate::client::types::{GraphQLError, GraphQLRequest, GraphQLResponse, Issue, Variables};

verus! {

/// Address of the remote service.
pub const API_URL: &'static str = "https://api.linear.app/graphql";

/// Number of issues asked for where the caller names none.
pub const DEFAULT_PAGE_SIZE: i32 = 50;

/// The query for the current user.
pub const VIEWER_QUERY: &'static str = r#"
            query {
                viewer {
                    id
                    name
                    email
                    displayName
                    avatarUrl
                }
            }
        "#;

/// The query for all teams.
pub const TEAMS_QUERY: &'static str = r#"
            query {
                teams {
                    nodes {
                        id
                        name
                        key
                        description
                    }
                }
            }
        "#;

/// The query for the issues of one team, latest change first.
pub const TEAM_ISSUES_QUERY: &'static str = r#"
                query($teamId: ID, $first: Int) {
                    issues(filter: { team: { id: { eq: $teamId } } }, first: $first, orderBy: updatedAt) {
                        nodes {
                            id
                            title
                            description
                            identifier
                            priority
                            url
                            createdAt
                            updatedAt
                            state {
                                id
                                name
                                color
                                type
                            }
                            assignee {
                                id
                                name
                                email
                                displayName
                                avatarUrl
                            }
                            creator {
                                id
                                name
                                email
                                displayName
                                avatarUrl
                            }
                            team {
                                id
                                name
                                key
                                description
                            }
                        }
                        pageInfo {
                            hasNextPage
                            hasPreviousPage
                            startCursor
                            endCursor
                        }
                    }
                }
            "#;

/// The query for the issues of all teams, latest change first.
pub const ALL_ISSUES_QUERY: &'static str = r#"
                query($first: Int) {
                    issues(first: $first, orderBy: updatedAt) {
                        nodes {
                            id
                            title
                            description
                            identifier
                            priority
                            url
                            createdAt
                            updatedAt
                            state {
                                id
                                name
                                color
                                type
                            }
                            assignee {
                                id
                                name
                                email
                                displayName
                                avatarUrl
                            }
                            creator {
                                id
                                name
                                email
                                displayName
                                avatarUrl
                            }
                            team {
                                id
                                name
                                key
                                description
                            }
                        }
                        pageInfo {
                            hasNextPage
                            hasPreviousPage
                            startCursor
                            endCursor
                        }
                    }
                }
            "#;

/// The query for the projects of all teams.
pub const PROJECTS_QUERY: &'static str = r#"
            query {
                projects {
                    nodes {
                        id
                        name
                        description
                        status {
                            name
                            color
                            type
                        }
                        lead {
                            id
                            name
                            email
                            displayName
                            avatarUrl
                        }
                    }
                }
            }
        "#;

/// The query for the projects that one team takes part in.
pub const TEAM_PROJECTS_QUERY: &'static str = r#"
            query($teamId: ID) {
                projects(filter: { accessibleTeams: { some: { id: { eq: $teamId } } } }) {
                    nodes {
                        id
                        name
                        description
                        status {
                            name
                            color
                            type
                        }
                        lead {
                            id
                            name
                            email
                            displayName
                            avatarUrl
                        }
                    }
                }
            }
        "#;

/// The mutation that creates an issue.
pub const CREATE_ISSUE_MUTATION: &'static str = r#"
            mutation($input: IssueCreateInput!) {
                issueCreate(input: $input) {
                    success
                    issue {
                        id
                        title
                        description
                        identifier
                        priority
                        url
                        createdAt
                        updatedAt
                        state {
                            id
                            name
                            color
                            type
                        }
                        assignee {
                            id
                            name
                            email
                            displayName
                            avatarUrl
                        }
                        creator {
                            id
                            name
                            email
                            displayName
                            avatarUrl
                        }
                        team {
                            id
                            name
                            key
                            description
                        }
                    }
                }
            }
        "#;

/// Why a response gave no record.
#[derive(Debug, Clone, PartialEq, Eq)]
pub enum ClientError {
    /// The service answered with errors; their messages, joined by `, `.
    GraphQL { messages: String },
    /// The service answered with neither errors nor data.
    NoData,
    /// The service did not create the issue.
    IssueNotCreated,
    /// The service says it created the issue and sent none back.
    IssueMissing,
}

/// What the service answers to the creation of an issue.
#[derive(Debug)]
pub struct IssueCreatePayload {
    pub success: bool,
    pub issue: Option<Issue>,
}

/// The texts of `parts`, each two neighbours parted by `separator`.
pub open spec fn spec_join(parts: Seq<Seq<char>>, separator: Seq<char>) -> Seq<char>
    decreases parts.len(),
{
    if parts.len() == 0 {
        Seq::<char>::empty()
    } else if parts.len() == 1 {
        parts[0]
    } else {
        spec_join(parts.drop_last(), separator) + separator + parts.last()
    }
}

/// The messages of the errors, in their order.
pub open spec fn spec_messages(errors: Seq<GraphQLError>) -> Seq<Seq<char>> {
    Seq::new(errors.len(), |i: int| errors[i].message@)
}

/// The page size of a request for issues.
pub open spec fn spec_page_size(first: Option<i32>) -> i32 {
    match first {
        Some(n) => n,
        None => DEFAULT_PAGE_SIZE,
    }
}

/// The messages of the errors, joined by a comma and a space.
pub fn join_messages(errors: &Vec<GraphQLError>) -> (r: String)
    ensures
        r@ == spec_join(spec_messages(errors@), seq![',', ' ']),
{
    let mut r = String::new();
    let mut i: usize = 0;
    proof {
        reveal_strlit(", ");
        assert(", "@ =~= seq![',', ' ']);
        assert(spec_messages(errors@).take(0) =~= Seq::<Seq<char>>::empty());
    }
    while i < errors.len()
        invariant
            i <= errors.len(),
            ", "@ == seq![',', ' '],
            r@ == spec_join(spec_messages(errors@).take(i as int), seq![',', ' ']),
        decreases errors.len() - i,
    {
        let ghost before = spec_messages(errors@).take(i as int);
        let ghost after = spec_messages(errors@).take(i + 1);
        proof {
            assert(after.drop_last() =~= before);
            assert(after.last() == errors@[i as int].message@);
        }
        if i > 0 {
            r.append(", ");
        }
        r.append(errors[i].message.as_str());
        proof {
            if i == 0 {
                assert(r@ =~= after[0]);
            }
        }
        i += 1;
    }
    proof {
        assert(spec_messages(errors@).take(i as int) =~= spec_messages(errors@));
    }
    r
}

impl ClientError {
    /// The cause, as told to the user.
    pub fn message(&self) -> (r: String)
        ensures
            r@ == match *self {
                ClientError::GraphQL { messages } => "GraphQL errors: "@ + messages@,
                ClientError::NoData => "GraphQL response contained no data"@,
                ClientError::IssueNotCreated => "Failed to create issue"@,
                ClientError::IssueMissing =>
                    "Issue creation succeeded but no issue data returned"@,
            },
    {
        match self {
            ClientError::GraphQL { messages } => {
                let mut r = String::from_str("GraphQL errors: ");
                r.append(messages.as_str());
                r
            },
            ClientError::NoData => String::from_str("GraphQL response contained no data"),
            ClientError::IssueNotCreated => String::from_str("Failed to create issue"),
            ClientError::IssueMissing => String::from_str(
                "Issue creation succeeded but no issue data returned",
            ),
        }
    }
}

impl<T> GraphQLResponse<T> {
    /// The payload of a response. Errors come first: a response that names
    /// errors fails with their messages, even where it carries data too or
    /// names no error at all in its list. Without errors the payload is
    /// returned, and its absence is an error of its own.
    pub fn into_result(self) -> (r: Result<T, ClientError>)
        ensures
            match self.errors {
                Some(errors) => r matches Err(ClientError::GraphQL { messages }) && messages@
                    == spec_join(spec_messages(errors@), seq![',', ' ']),
                None => match self.data {
                    Some(data) => r == Ok::<T, ClientError>(data),
                    None => r == Err::<T, ClientError>(ClientError::NoData),
                },
            },
    {
        match self.errors {
            Some(errors) => Err(ClientError::GraphQL { messages: join_messages(&errors) }),
            None => match self.data {
                Some(data) => Ok(data),
                None => Err(ClientError::NoData),
            },
        }
    }
}

impl IssueCreatePayload {
    /// The created issue: there is one only where the service reports
    /// success and sends the issue.
    pub fn into_issue(self) -> (r: Result<Issue, ClientError>)
        ensures
            r == if !self.success {
                Err::<Issue, ClientError>(ClientError::IssueNotCreated)
            } else {
                match self.issue {
                    Some(issue) => Ok::<Issue, ClientError>(issue),
                    None => Err::<Issue, ClientError>(ClientError::IssueMissing),
                }
            },
    {
        if !self.success {
            Err(ClientError::IssueNotCreated)
        } else {
            match self.issue {
                Some(issue) => Ok(issue),
                None => Err(ClientError::IssueMissing),
            }
        }
    }
}

/// The address and the credential of the remote service, and the requests
/// that it understands.
#[derive(Debug, Clone, PartialEq, Eq)]
pub struct LinearClient {
    pub api_key: String,
    pub base_url: String,
}

impl LinearClient {
    /// A client of the public service with the given credential.
    pub fn new(api_key: String) -> (r: Self)
        ensures
            r.api_key == api_key,
            r.base_url@ == API_URL@,
    {
        LinearClient { api_key, base_url: String::from_str(API_URL) }
    }

    /// The request for the current user.
    pub fn viewer_request(&self) -> (r: GraphQLRequest)
        ensures
            r.query@ == VIEWER_QUERY@,
            r.variables is None,
    {
        GraphQLRequest { query: String::from_str(VIEWER_QUERY), variables: None }
    }

    /// The request for all teams.
    pub fn teams_request(&self) -> (r: GraphQLRequest)
        ensures
            r.query@ == TEAMS_QUERY@,
            r.variables is None,
    {
        GraphQLRequest { query: String::from_str(TEAMS_QUERY), variables: None }
    }

    /// The request for issues: those of one team where a team is given, else
    /// all, and `first` of them, or 50 where no number is given.
    pub fn issues_request(&self, team_id: Option<&str>, first: Option<i32>) -> (r: GraphQLRequest)
        ensures
            match team_id {
                Some(id) => r.query@ == TEAM_ISSUES_QUERY@ && (r.variables matches Some(
                    Variables::TeamIssues { team_id, first: n },
                ) && team_id@ == id@ && n == spec_page_size(first)),
                None => r.query@ == ALL_ISSUES_QUERY@ && r.variables == Some(
                    Variables::AllIssues { first: spec_page_size(first) },
                ),
            },
    {
        let page: i32 = match first {
            Some(n) => n,
            None => DEFAULT_PAGE_SIZE,
        };
        match team_id {
            Some(id) => GraphQLRequest {
                query: String::from_str(TEAM_ISSUES_QUERY),
                variables: Some(Variables::TeamIssues { team_id: String::from_str(id), first: page }),
            },
            None => GraphQLRequest {
                query: String::from_str(ALL_ISSUES_QUERY),
                variables: Some(Variables::AllIssues { first: page }),
            },
        }
    }

    /// The request for projects: those of one team where a team is given,
    /// else all.
    pub fn projects_request(&self, team_id: Option<&str>) -> (r: GraphQLRequest)
        ensures
            match team_id {
                Some(id) => r.query@ == TEAM_PROJECTS_QUERY@ && (r.variables matches Some(
                    Variables::TeamProjects { team_id },
                ) && team_id@ == id@),
                None => r.query@ == PROJECTS_QUERY@ && r.variables is None,
            },
    {
        match team_id {
            Some(id) => GraphQLRequest {
                query: String::from_str(TEAM_PROJECTS_QUERY),
                variables: Some(Variables::TeamProjects { team_id: String::from_str(id) }),
            },
            None => GraphQLRequest { query: String::from_str(PROJECTS_QUERY), variables: None },
        }
    }

    /// The request that creates an issue in a team.
    pub fn create_issue_request(
        &self,
        team_id: &str,
        title: &str,
        description: Option<&str>,
    ) -> (r: GraphQLRequest)
        ensures
            r.query@ == CREATE_ISSUE_MUTATION@,
            r.variables matches Some(Variables::CreateIssue { team_id: t, title: l, description: d })
                && t@ == team_id@ && l@ == title@ && match description {
                Some(text) => d matches Some(x) && x@ == text@,
                None => d is None,
            },
    {
        let description = match description {
            Some(text) => Some(String::from_str(text)),
            None => None,
        };
        GraphQLRequest {
            query: String::from_str(CREATE_ISSUE_MUTATION),
            variables: Some(
                Variables::CreateIssue {
                    team_id: String::from_str(team_id),
                    title: String::from_str(title),
                    description,
                },
            ),
        }
    }
}

} // verus!
