use std::cell::RefCell;

use runx_runtime::github_client::{
    provider_dedupe_observation_from_response, GithubSearchReader, TargetRepoRunnerGithubApiClient,
};
use runx_runtime::post_merge_github::{
    github_pull_request_identity, github_pull_request_observation_from_response,
    GithubPostMergePullRequestObserverAdapter, GithubPullRequestApiResponse,
    GithubPullRequestIdentity, GithubPullRequestReader, PostMergeObserverPullRequestObservationRequest,
    PostMergePullRequestState,
};
use runx_runtime::runtime_http::{
    HttpMethod, RuntimeHttpError, RuntimeHttpHeader, RuntimeHttpRequest, RuntimeHttpResponse,
    RuntimeHttpTransport,
};
use runx_runtime::target_runner::{
    GithubIssueSearchItem, Reference, TargetRepoRunnerGithubPullRequestSearchCommand,
    TargetRepoRunnerGithubPullRequestSearchState, TargetRepoRunnerGithubRepository,
    TargetRepoRunnerProvider, TargetRepoRunnerProviderDedupeLookupCommand,
    TargetRepoRunnerRuntimeError,
};

struct Recording {
    status: u16,
    body: String,
    sent: RefCell<Vec<(HttpMethod, String, Vec<(String, String)>)>>,
}

impl Recording {
    fn new(status: u16, body: &str) -> Self {
        Recording { status, body: body.to_owned(), sent: RefCell::new(Vec::new()) }
    }
}

impl RuntimeHttpTransport for &Recording {
    fn send(&self, request: RuntimeHttpRequest) -> Result<RuntimeHttpResponse, RuntimeHttpError> {
        self.sent.borrow_mut().push((
            request.method,
            request.url.clone(),
            request.headers.iter().map(|h| (h.name.clone(), h.value.clone())).collect(),
        ));
        Ok(RuntimeHttpResponse { status: self.status, body: self.body.clone() })
    }
}

fn reference(kind: &str, uri: &str, provider: Option<&str>, locator: Option<&str>) -> Reference {
    Reference {
        reference_type: kind.to_owned(),
        uri: uri.to_owned(),
        provider: provider.map(str::to_owned),
        locator: locator.map(str::to_owned),
        label: None,
    }
}

fn observation_request(locator: &str) -> PostMergeObserverPullRequestObservationRequest {
    PostMergeObserverPullRequestObservationRequest {
        source_id: None,
        source_issue_ref: reference("github_issue", "https://github.com/o/r/issues/1", Some("github"), Some("o/r#1")),
        source_thread_ref: None,
        pull_request_ref: reference("github_pull_request", "https://github.com/o/r/pull/7", Some("github"), Some(locator)),
    }
}

fn payload(merged: bool, sha: Option<&str>) -> GithubPullRequestApiResponse {
    GithubPullRequestApiResponse {
        number: 7,
        state: "closed".to_owned(),
        merged,
        merge_commit_sha: sha.map(str::to_owned),
        updated_at: "2026-06-01T00:00:00Z".to_owned(),
        closed_at: Some("2026-06-01T01:00:00Z".to_owned()),
        merged_at: Some("2026-06-01T02:00:00Z".to_owned()),
        user_login: Some("author".to_owned()),
        merged_by_login: Some("merger".to_owned()),
        base_repo_full_name: "o/r".to_owned(),
    }
}

struct FixedPullRequest;

impl GithubPullRequestReader for FixedPullRequest {
    fn pull_request(&self, _body: &str) -> Result<GithubPullRequestApiResponse, String> {
        Ok(payload(true, Some("abc123")))
    }
}

#[test]
fn pull_request_locators_name_owner_repo_and_number() {
    let id = github_pull_request_identity(&observation_request("o/r#7").pull_request_ref).expect("valid");
    assert_eq!(id.repo, "o/r");
    assert_eq!(id.number, 7);
    let message = |locator: &str| {
        github_pull_request_identity(&observation_request(locator).pull_request_ref)
            .err()
            .expect("refused")
            .message
    };
    assert_eq!(message("o/r"), "pull request locator must use owner/repo#number");
    assert_eq!(message("o#7"), "pull request locator must use owner/repo#number");
    assert_eq!(message("o/r#0"), "pull request locator number must be a positive integer");
    assert_eq!(
        message("o/r#x"),
        "pull request locator number must be a positive integer: invalid digit found in string"
    );
}

#[test]
fn merged_pull_request_readback_is_observed() {
    let request = observation_request("o/r#7");
    let identity = GithubPullRequestIdentity { repo: "o/r".to_owned(), number: 7 };
    let observation =
        github_pull_request_observation_from_response(&request, &identity, &payload(true, Some("abc123")))
            .expect("observed");
    assert_eq!(observation.state, PostMergePullRequestState::Closed);
    assert!(observation.merged);
    assert_eq!(observation.merge_sha.as_deref(), Some("abc123"));
    assert_eq!(observation.observed_at, "2026-06-01T02:00:00Z");
    assert_eq!(observation.actor.as_deref(), Some("github:user:merger"));
    assert_eq!(observation.uri, "https://github.com/o/r/pull/7");
    let refused = github_pull_request_observation_from_response(&request, &identity, &payload(true, Some(" ")))
        .err()
        .expect("refused");
    assert_eq!(refused.message, "merged pull request readback requires merge_commit_sha");
}

#[test]
fn post_merge_adapter_reads_back_through_its_transport() {
    let transport = Recording::new(200, "{}");
    let mut adapter = GithubPostMergePullRequestObserverAdapter::with_transport(
        " https://api.github.com/ ",
        &transport,
        Some("tok".to_owned()),
    )
    .expect("valid base url");
    let observation = adapter
        .observe_pull_request(&observation_request("o/r#7"), &FixedPullRequest)
        .expect("observed");
    assert_eq!(observation.number, 7);
    let sent = transport.sent.borrow();
    assert_eq!(sent[0].0, HttpMethod::Get);
    assert_eq!(sent[0].1, "https://api.github.com/repos/o/r/pulls/7");
    assert_eq!(sent[0].2[1], ("user-agent".to_owned(), "runx-post-merge-observer".to_owned()));
    assert_eq!(sent[0].2[3], ("authorization".to_owned(), "Bearer tok".to_owned()));
    assert!(adapter.observe_verification().is_err());
}

#[test]
fn post_merge_adapter_refuses_other_schemes() {
    let transport = Recording::new(200, "{}");
    let error = GithubPostMergePullRequestObserverAdapter::with_transport("ftp://x.example", &transport, None)
        .err()
        .expect("refused");
    assert_eq!(error.operation, "configure_github_pr_observer");
    assert_eq!(error.message, "github api base url must use http or https");
}

#[test]
fn failed_status_is_reported() {
    let transport = Recording::new(404, "");
    let mut adapter =
        GithubPostMergePullRequestObserverAdapter::with_transport("https://api.github.com", &transport, None)
            .expect("valid base url");
    let error = adapter
        .observe_pull_request(&observation_request("o/r#7"), &FixedPullRequest)
        .err()
        .expect("refused");
    assert_eq!(error.message, "github pull request API returned HTTP 404");
}

fn lookup_command() -> TargetRepoRunnerProviderDedupeLookupCommand {
    TargetRepoRunnerProviderDedupeLookupCommand {
        provider: TargetRepoRunnerProvider::Github,
        target_repo: "o/r".to_owned(),
        repository: TargetRepoRunnerGithubRepository {
            owner: "o".to_owned(),
            name: "r".to_owned(),
            full_name: "o/r".to_owned(),
        },
        dedupe_key: "key_1".to_owned(),
        result_limit: 2,
        query: TargetRepoRunnerGithubPullRequestSearchCommand {
            repo: "o/r".to_owned(),
            state: TargetRepoRunnerGithubPullRequestSearchState::Open,
            query: "repo:o/r is:pr \"marker\"".to_owned(),
            terms: Vec::new(),
        },
        markers: vec!["marker".to_owned()],
        required_refs: Vec::new(),
    }
}

fn item(url: &str, pull_request: bool) -> GithubIssueSearchItem {
    GithubIssueSearchItem {
        html_url: url.to_owned(),
        number: Some(3),
        state: Some("OPEN".to_owned()),
        title: Some("fix marker".to_owned()),
        body: None,
        pull_request,
    }
}

struct FixedItems(Vec<&'static str>);

impl GithubSearchReader for FixedItems {
    fn search_items(&self, _body: &str) -> Result<Vec<GithubIssueSearchItem>, String> {
        Ok(self.0.iter().map(|u| item(u, true)).collect())
    }
}

#[test]
fn dedupe_lookup_keeps_pull_requests_of_the_target_repo() {
    let observation = provider_dedupe_observation_from_response(
        &lookup_command(),
        200,
        Ok(vec![
            item("https://github.com/o/r/pull/3", true),
            item("https://github.com/o/r/issues/4", false),
            item("https://github.com/other/r/pull/5", true),
        ]),
    )
    .expect("observed");
    assert_eq!(observation.key, "key_1");
    assert_eq!(observation.pull_requests.len(), 1);
    assert_eq!(observation.pull_requests[0].url, "https://github.com/o/r/pull/3");
    assert!(observation.pull_requests[0].open);
    assert_eq!(observation.pull_requests[0].markers, vec!["marker".to_owned()]);
}

#[test]
fn dedupe_lookup_errors_name_the_answer() {
    let message = |status: u16, items: Result<Vec<GithubIssueSearchItem>, String>| {
        match provider_dedupe_observation_from_response(&lookup_command(), status, items) {
            Err(TargetRepoRunnerRuntimeError::CommandValidation { message, .. }) => message,
            other => panic!("unexpected {other:?}"),
        }
    };
    assert_eq!(message(502, Ok(Vec::new())), "github search API returned HTTP 502");
    assert_eq!(
        message(200, Err("expected value".to_owned())),
        "github search API returned invalid JSON: expected value"
    );
    let too_many = (0..3).map(|i| item(&format!("https://github.com/o/r/pull/{i}"), true)).collect();
    assert_eq!(
        message(200, Ok(too_many)),
        "provider lookup readback exceeded the command result limit"
    );
}

#[test]
fn dedupe_lookup_client_sends_the_search() {
    let transport = Recording::new(200, "{}");
    let client = TargetRepoRunnerGithubApiClient::with_transport("https://api.github.com/", &transport, None)
        .expect("valid base url");
    let observation = client
        .provider_dedupe_lookup(&lookup_command(), &FixedItems(vec!["https://github.com/o/r/pull/9"]))
        .expect("observed");
    assert_eq!(observation.pull_requests.len(), 1);
    let sent = transport.sent.borrow();
    assert_eq!(
        sent[0].1,
        "https://api.github.com/search/issues?q=repo%3Ao%2Fr+is%3Apr+%22marker%22&per_page=2"
    );
    assert_eq!(sent[0].2.len(), 3);
    assert_eq!(sent[0].2[1].1, "runx-target-repo-runner");
    assert!(TargetRepoRunnerGithubApiClient::with_transport("not a url", &transport, None).is_err());
}

#[test]
fn runtime_request_debug_hides_secrets() {
    let request = RuntimeHttpRequest {
        method: HttpMethod::Patch,
        url: "https://api.example/v1".to_owned(),
        headers: vec![
            RuntimeHttpHeader::new("authorization", "Bearer SECRET"),
            RuntimeHttpHeader::new("accept", "application/json"),
        ],
        body: Some("SECRET_BODY".to_owned()),
    };
    let debug = request.debug_string();
    assert!(!debug.contains("SECRET"));
    assert!(debug.contains("Patch"));
    assert!(debug.contains("application/json"));
    assert_eq!(HttpMethod::Put.as_str(), "PUT");
    let response = RuntimeHttpResponse { status: 201, body: "héllo".to_owned() };
    assert_eq!(response.debug_string(), "RuntimeHttpResponse { status: 201, body: 6 bytes }");
}
