use ltui::client::linear::{
    join_messages, ClientError, IssueCreatePayload, LinearClient, ALL_ISSUES_QUERY, API_URL,
    CREATE_ISSUE_MUTATION, DEFAULT_PAGE_SIZE, PROJECTS_QUERY, TEAMS_QUERY, TEAM_ISSUES_QUERY,
    TEAM_PROJECTS_QUERY, VIEWER_QUERY,
};
use ltui::client::types::{
    GraphQLError, GraphQLResponse, Issue, IssueState, Location, Team, Timestamp, User, Variables,
};

fn error(message: &str) -> GraphQLError {
    GraphQLError {
        message: message.to_string(),
        locations: Some(vec![Location { line: 1, column: 2 }]),
        path: None,
    }
}

fn an_issue() -> Issue {
    let user = User {
        id: "u1".to_string(),
        name: "ann".to_string(),
        email: None,
        display_name: "Ann".to_string(),
        avatar_url: None,
    };
    Issue {
        id: "i1".to_string(),
        title: "A new issue".to_string(),
        description: Some("text".to_string()),
        identifier: "ENG-1".to_string(),
        priority: None,
        state: IssueState {
            id: "s1".to_string(),
            name: "Todo".to_string(),
            color: "#fff".to_string(),
            state_type: "unstarted".to_string(),
        },
        assignee: None,
        creator: user,
        team: Team {
            id: "t1".to_string(),
            name: "Engineering".to_string(),
            key: "ENG".to_string(),
            description: None,
        },
        created_at: Timestamp { seconds: 1, nanoseconds: 2 },
        updated_at: Timestamp { seconds: 3, nanoseconds: 4 },
        url: "https://tracker.example/ENG-1".to_string(),
    }
}

#[test]
fn client_targets_the_public_service() {
    let client = LinearClient::new("SECRET-REDACTED".to_string());
    assert_eq!(client.api_key, "SECRET-REDACTED");
    assert_eq!(client.base_url, "https://api.linear.app/graphql");
    assert_eq!(client.base_url, API_URL);
}

#[test]
fn viewer_teams_and_projects_requests_have_no_variables() {
    let client = LinearClient::new("key".to_string());
    let viewer = client.viewer_request();
    assert_eq!(viewer.query, VIEWER_QUERY);
    assert_eq!(viewer.variables, None);
    assert!(viewer.query.contains("viewer"));
    let teams = client.teams_request();
    assert_eq!(teams.query, TEAMS_QUERY);
    assert_eq!(teams.variables, None);
    let projects = client.projects_request(None);
    assert_eq!(projects.query, PROJECTS_QUERY);
    assert_eq!(projects.variables, None);
}

#[test]
fn projects_request_of_a_team_filters_by_team() {
    let client = LinearClient::new("key".to_string());
    let request = client.projects_request(Some("team-1"));
    assert_eq!(request.query, TEAM_PROJECTS_QUERY);
    assert_eq!(
        request.variables,
        Some(Variables::TeamProjects { team_id: "team-1".to_string() })
    );
    assert!(request.query.contains("$teamId"));
    assert!(!PROJECTS_QUERY.contains("$teamId"));
    assert_ne!(request, client.projects_request(None));
}

#[test]
fn issues_request_of_a_team_filters_by_team() {
    let client = LinearClient::new("key".to_string());
    let request = client.issues_request(Some("team-1"), Some(5));
    assert_eq!(request.query, TEAM_ISSUES_QUERY);
    assert_eq!(
        request.variables,
        Some(Variables::TeamIssues { team_id: "team-1".to_string(), first: 5 })
    );
    assert!(request.query.contains("$teamId"));
}

#[test]
fn issues_request_defaults_to_fifty() {
    let client = LinearClient::new("key".to_string());
    assert_eq!(DEFAULT_PAGE_SIZE, 50);
    assert_eq!(
        client.issues_request(Some("team-1"), None).variables,
        Some(Variables::TeamIssues { team_id: "team-1".to_string(), first: 50 })
    );
    let all = client.issues_request(None, None);
    assert_eq!(all.query, ALL_ISSUES_QUERY);
    assert_eq!(all.variables, Some(Variables::AllIssues { first: 50 }));
    assert!(!all.query.contains("$teamId"));
    assert_eq!(
        client.issues_request(None, Some(0)).variables,
        Some(Variables::AllIssues { first: 0 })
    );
}

#[test]
fn create_issue_request_carries_its_input() {
    let client = LinearClient::new("key".to_string());
    let request = client.create_issue_request("team-1", "Title", Some("Body"));
    assert_eq!(request.query, CREATE_ISSUE_MUTATION);
    assert_eq!(
        request.variables,
        Some(Variables::CreateIssue {
            team_id: "team-1".to_string(),
            title: "Title".to_string(),
            description: Some("Body".to_string()),
        })
    );
    let bare = client.create_issue_request("team-1", "Title", None);
    assert_eq!(
        bare.variables,
        Some(Variables::CreateIssue {
            team_id: "team-1".to_string(),
            title: "Title".to_string(),
            description: None,
        })
    );
}

#[test]
fn response_with_data_gives_the_data() {
    let response = GraphQLResponse { data: Some(7u32), errors: None };
    assert_eq!(response.into_result(), Ok(7));
}

#[test]
fn response_with_errors_fails_with_joined_messages() {
    let response = GraphQLResponse {
        data: Some(7u32),
        errors: Some(vec![error("first"), error("second"), error("third")]),
    };
    let failure = response.into_result().unwrap_err();
    assert_eq!(failure, ClientError::GraphQL { messages: "first, second, third".to_string() });
    assert_eq!(failure.message(), "GraphQL errors: first, second, third");
}

#[test]
fn response_with_empty_error_list_still_fails() {
    let response = GraphQLResponse { data: Some(7u32), errors: Some(Vec::new()) };
    let failure = response.into_result().unwrap_err();
    assert_eq!(failure, ClientError::GraphQL { messages: String::new() });
    assert_eq!(failure.message(), "GraphQL errors: ");
}

#[test]
fn response_without_data_fails() {
    let response: GraphQLResponse<u32> = GraphQLResponse { data: None, errors: None };
    let failure = response.into_result().unwrap_err();
    assert_eq!(failure, ClientError::NoData);
    assert_eq!(failure.message(), "GraphQL response contained no data");
}

#[test]
fn messages_are_joined_by_comma_and_space() {
    assert_eq!(join_messages(&Vec::new()), "");
    assert_eq!(join_messages(&vec![error("only")]), "only");
    assert_eq!(join_messages(&vec![error("a"), error("")]), "a, ");
    assert_eq!(join_messages(&vec![error(""), error("b")]), ", b");
}

#[test]
fn created_issue_is_returned_on_success() {
    let payload = IssueCreatePayload { success: true, issue: Some(an_issue()) };
    assert_eq!(payload.into_issue(), Ok(an_issue()));
}

#[test]
fn failed_creation_is_an_error() {
    let refused = IssueCreatePayload { success: false, issue: Some(an_issue()) };
    let failure = refused.into_issue().unwrap_err();
    assert_eq!(failure, ClientError::IssueNotCreated);
    assert_eq!(failure.message(), "Failed to create issue");
    let missing = IssueCreatePayload { success: true, issue: None };
    let failure = missing.into_issue().unwrap_err();
    assert_eq!(failure, ClientError::IssueMissing);
    assert_eq!(failure.message(), "Issue creation succeeded but no issue data returned");
}

#[test]
fn team_clone_is_equal() {
    let team = an_issue().team;
    assert_eq!(team.clone(), team);
}
