use hyprnote::github::{
    decimal_string, issues_path, repos_path, GitHubIssuesClient, IssueState, ListIssuesRequest,
    ListReposRequest,
};

#[test]
fn repos_paths() {
    let req = ListReposRequest { per_page: None, page: None, sort: None };
    assert_eq!(repos_path(&req), "/user/repos");
    let req = ListReposRequest { per_page: Some(50), page: Some(2), sort: Some("full name".to_string()) };
    assert_eq!(repos_path(&req), "/user/repos?per_page=50&page=2&sort=full%20name");
}

#[test]
fn issues_paths() {
    let req = ListIssuesRequest {
        owner: "fastrepl".to_string(),
        repo: "char".to_string(),
        state: None,
        labels: None,
        assignee: None,
        sort: None,
        direction: None,
        per_page: None,
        page: None,
    };
    assert_eq!(issues_path(&req), "/repos/fastrepl/char/issues");
    let req = ListIssuesRequest {
        owner: "o".to_string(),
        repo: "r".to_string(),
        state: Some(IssueState::Open),
        labels: Some(vec!["bug".to_string(), "good first/issue".to_string()]),
        assignee: Some("me".to_string()),
        sort: Some("created".to_string()),
        direction: Some("desc".to_string()),
        per_page: Some(10),
        page: Some(0),
    };
    assert_eq!(
        issues_path(&req),
        "/repos/o/r/issues?state=open&labels=bug,good%20first%2Fissue&assignee=me&sort=created&direction=desc&per_page=10&page=0"
    );
    let req = ListIssuesRequest {
        owner: "o".to_string(),
        repo: "r".to_string(),
        state: Some(IssueState::All),
        labels: Some(Vec::new()),
        assignee: Some("é".to_string()),
        sort: None,
        direction: None,
        per_page: None,
        page: None,
    };
    assert_eq!(issues_path(&req), "/repos/o/r/issues?state=all&assignee=%C3%A9");
}

#[test]
fn decimal_numbers() {
    assert_eq!(decimal_string(0), "0");
    assert_eq!(decimal_string(7), "7");
    assert_eq!(decimal_string(1200), "1200");
    assert_eq!(decimal_string(u64::MAX), u64::MAX.to_string());
}

#[test]
fn client_keeps_its_transport() {
    let client = GitHubIssuesClient::new(42u8);
    assert_eq!(client.http, 42);
    assert_eq!(IssueState::Closed.as_str(), "closed");
}
