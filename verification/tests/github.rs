use project_tui::github::status::{
    status_mutation, status_update, ProjectItemRef, StatusContext, StatusField, StatusOption,
    CLEAR_STATUS_MUTATION, UPDATE_STATUS_MUTATION,
};
use project_tui::github::client::{
    save_mutation, user_agent, UPDATE_ISSUE_MUTATION, UPDATE_PULL_REQUEST_MUTATION,
};
use project_tui::error::AppError;
use project_tui::github::auth::Auth;
use project_tui::github::client::{
    check_status, graphql_data, GitHubClient, GraphQLError, GraphQLResponse,
};
use project_tui::github::response::{
    first_status, projects_from_data, tickets_from_data, Content, ContentFields, FieldValue,
    FieldValuesConnection, ItemNode, ItemsConnection, ItemsData, ProjectItemsNode, ProjectNode,
    ProjectsConnection, ProjectsData, Repository, Viewer,
};

fn auth_message(r: Result<(), AppError>) -> Option<String> {
    match r {
        Ok(()) => None,
        Err(AppError::Auth(m)) => Some(m),
        Err(_) => panic!("expected an authentication error"),
    }
}

#[test]
fn token_validation() {
    assert_eq!(auth_message(Auth::new(String::new()).validate()).as_deref(), Some("Token is empty"));
    assert_eq!(
        auth_message(Auth::new("abc".to_string()).validate()).as_deref(),
        Some("Invalid token format. Expected token starting with 'ghp_' or 'github_pat_'")
    );
    assert_eq!(auth_message(Auth::new("ghp".to_string()).validate()).as_deref().is_some(), true);
    assert_eq!(auth_message(Auth::new("xghp_1".to_string()).validate()).is_some(), true);
    assert!(auth_message(Auth::new("ghp_abc".to_string()).validate()).is_none());
    assert!(auth_message(Auth::new("github_pat_abc".to_string()).validate()).is_none());
    assert!(auth_message(Auth::new("github_pa".to_string()).validate()).is_some());
    assert_eq!(Auth::new("ghp_zz".to_string()).token(), "ghp_zz");
}

#[test]
fn client_refuses_bad_token() {
    match GitHubClient::new(Auth::new("nope".to_string()), None) {
        Err(AppError::Auth(m)) => assert!(m.starts_with("Invalid token format")),
        _ => panic!("expected an authentication error"),
    }
}

#[test]
fn client_endpoint_and_header() {
    let c = GitHubClient::new(Auth::new("ghp_secret".to_string()), None).ok().unwrap();
    assert_eq!(c.api_url(), "https://api.github.com/graphql");
    assert_eq!(c.authorization_header(), "Bearer ghp_secret");
    match c.fetch_item_details("item") {
        Err(AppError::GitHub(m)) => assert_eq!(m, "Not implemented yet"),
        _ => panic!("expected the not-implemented error"),
    }
    let c = GitHubClient::new(
        Auth::new("github_pat_x".to_string()),
        Some("http://localhost:1/graphql".to_string()),
    )
    .ok()
    .unwrap();
    assert_eq!(c.api_url(), "http://localhost:1/graphql");
}

#[test]
fn status_judgement() {
    assert!(check_status(200, Some("OK")).is_ok());
    assert!(check_status(299, None).is_ok());
    match check_status(404, Some("Not Found")) {
        Err(AppError::GitHub(m)) => assert_eq!(m, "API request failed with status: 404 Not Found"),
        _ => panic!(),
    }
    match check_status(599, None) {
        Err(AppError::GitHub(m)) => {
            assert_eq!(m, "API request failed with status: 599 <unknown status code>")
        }
        _ => panic!(),
    }
    assert!(check_status(199, None).is_err());
    assert!(check_status(300, None).is_err());
}

#[test]
fn graphql_answers() {
    let ok: GraphQLResponse<u32> = GraphQLResponse { data: Some(5), errors: None };
    assert_eq!(graphql_data(ok).ok(), Some(5));
    let missing: GraphQLResponse<u32> = GraphQLResponse { data: None, errors: None };
    match graphql_data(missing) {
        Err(AppError::GitHub(m)) => assert_eq!(m, "No data in response"),
        _ => panic!(),
    }
    let errs: GraphQLResponse<u32> = GraphQLResponse {
        data: Some(5),
        errors: Some(vec![
            GraphQLError { message: "a".to_string() },
            GraphQLError { message: "b c".to_string() },
        ]),
    };
    match graphql_data(errs) {
        Err(AppError::GitHub(m)) => assert_eq!(m, "GraphQL errors: a, b c"),
        _ => panic!(),
    }
    let empty: GraphQLResponse<u32> = GraphQLResponse { data: Some(1), errors: Some(vec![]) };
    match graphql_data(empty) {
        Err(AppError::GitHub(m)) => assert_eq!(m, "GraphQL errors: "),
        _ => panic!(),
    }
}

#[test]
fn projects_are_copied_in_order() {
    let data = ProjectsData {
        viewer: Viewer {
            projects_v2: ProjectsConnection {
                nodes: vec![
                    ProjectNode { id: "A".into(), title: "Alpha".into(), number: 1 },
                    ProjectNode { id: "B".into(), title: "Beta".into(), number: 2 },
                ],
            },
        },
    };
    let ps = projects_from_data(&data);
    assert_eq!(ps.len(), 2);
    assert_eq!(ps[0].id, "A");
    assert_eq!(ps[1].title, "Beta");
    assert_eq!(ps[1].number, 2);
}

fn fields(id: &str, number: i64, repo: &str) -> ContentFields {
    ContentFields {
        id: id.into(),
        title: format!("title {}", id),
        number,
        state: "OPEN".into(),
        repository: Repository { name: repo.into() },
    }
}

fn select(name: &str) -> FieldValue {
    FieldValue::ProjectV2ItemFieldSingleSelectValue { name: name.into() }
}

#[test]
fn items_become_tickets() {
    let data = ItemsData {
        node: Some(ProjectItemsNode {
            items: ItemsConnection {
                nodes: vec![
                    ItemNode {
                        id: "item1".into(),
                        content: Some(Content::Issue(fields("I1", 10, "alpha"))),
                        field_values: FieldValuesConnection {
                            nodes: vec![FieldValue::Other, select("In Progress"), select("Done")],
                        },
                    },
                    ItemNode {
                        id: "draft".into(),
                        content: None,
                        field_values: FieldValuesConnection { nodes: vec![select("Todo")] },
                    },
                    ItemNode {
                        id: "item3".into(),
                        content: Some(Content::PullRequest(fields("PR3", 11, "beta"))),
                        field_values: FieldValuesConnection { nodes: vec![FieldValue::Other] },
                    },
                ],
            },
        }),
    };
    let ts = tickets_from_data(&data).ok().unwrap();
    assert_eq!(ts.len(), 2);
    assert_eq!(ts[0].id, "I1");
    assert_eq!(ts[0].title, "title I1");
    assert_eq!(ts[0].number, 10);
    assert_eq!(ts[0].status.as_deref(), Some("In Progress"));
    assert_eq!(ts[0].repository.as_deref(), Some("alpha"));
    assert_eq!(ts[0].state, "OPEN");
    assert_eq!(ts[1].id, "PR3");
    assert!(ts[1].status.is_none());
    assert_eq!(ts[1].repository.as_deref(), Some("beta"));
}

#[test]
fn missing_project_is_an_error() {
    match tickets_from_data(&ItemsData { node: None }) {
        Err(AppError::GitHub(m)) => assert_eq!(m, "Project not found"),
        _ => panic!(),
    }
}

#[test]
fn status_is_first_single_select() {
    assert_eq!(first_status(&vec![]), None);
    assert_eq!(first_status(&vec![FieldValue::Other]), None);
    assert_eq!(first_status(&vec![select("A"), select("B")]).as_deref(), Some("A"));
    assert_eq!(first_status(&vec![FieldValue::Other, select("B")]).as_deref(), Some("B"));
}

#[test]
fn agent_and_save_mutations() {
    assert_eq!(user_agent(), "project-tui/0.1.0");
    assert_eq!(save_mutation("PR_kwDO123"), UPDATE_PULL_REQUEST_MUTATION);
    assert_eq!(save_mutation("I_kwDO123"), UPDATE_ISSUE_MUTATION);
    assert_eq!(save_mutation("PR"), UPDATE_ISSUE_MUTATION);
    assert!(UPDATE_ISSUE_MUTATION.contains("updateIssue"));
}

#[test]
fn network_error_message_has_its_prefix() {
    let built = GitHubClient::new(Auth::new("ghp_x".to_string()), None);
    assert!(built.is_ok());
    let e = reqwest::Client::builder().user_agent("bad\nagent").build().err().unwrap();
    let m = AppError::Network(e).message();
    assert!(m.starts_with("Network error: "));
    assert!(m.len() > "Network error: ".len());
}

fn status_context(with_field: bool) -> StatusContext {
    StatusContext {
        items: vec![
            ProjectItemRef { id: "PVTI_other".into(), project_id: "PVT_2".into() },
            ProjectItemRef { id: "PVTI_mine".into(), project_id: "PVT_1".into() },
            ProjectItemRef { id: "PVTI_late".into(), project_id: "PVT_1".into() },
        ],
        field: if with_field {
            Some(StatusField {
                id: Some("F".into()),
                options: Some(vec![
                    StatusOption { id: "o1".into(), name: "Todo".into() },
                    StatusOption { id: "o2".into(), name: "Done".into() },
                ]),
            })
        } else {
            None
        },
    }
}

fn github_message<T>(r: Result<T, AppError>) -> String {
    match r {
        Err(AppError::GitHub(m)) => m,
        _ => panic!("expected a GitHub error"),
    }
}

#[test]
fn status_update_choices() {
    let ctx = status_context(true);
    let u = status_update(&ctx, &"PVT_1".to_string(), &"Done".to_string()).ok().unwrap();
    assert_eq!(u.project_id, "PVT_1");
    assert_eq!(u.item_id, "PVTI_mine");
    assert_eq!(u.field_id, "F");
    assert_eq!(u.option_id.as_deref(), Some("o2"));
    let cleared = status_update(&ctx, &"PVT_1".to_string(), &String::new()).ok().unwrap();
    assert!(cleared.option_id.is_none());
    assert_eq!(status_mutation(&cleared), CLEAR_STATUS_MUTATION);
    assert_eq!(status_mutation(&u), UPDATE_STATUS_MUTATION);
    let not_single_select = StatusContext {
        items: vec![ProjectItemRef { id: "I".into(), project_id: "PVT_1".into() }],
        field: Some(StatusField { id: None, options: None }),
    };
    assert_eq!(
        github_message(status_update(&not_single_select, &"PVT_1".to_string(), &"Done".to_string())),
        "Project has no Status field"
    );
    assert_eq!(
        github_message(status_update(&ctx, &"PVT_1".to_string(), &"Doing".to_string())),
        "Unknown status: Doing"
    );
    assert_eq!(
        github_message(status_update(&ctx, &"PVT_9".to_string(), &"Done".to_string())),
        "Ticket is not an item of this project"
    );
    assert_eq!(
        github_message(status_update(&status_context(false), &"PVT_2".to_string(), &"Done".to_string())),
        "Project has no Status field"
    );
}
