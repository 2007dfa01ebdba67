//! The GitHub pull-request observer of the post-merge runtime: which pull
//! request a reference names, the API request that reads it back, and the
//! observation that its answer amounts to.
use vstd::prelude::*;

use crate::hosted_http::{
    parse_int_error_message, strip_one_trailing_slash, strip_one_trailing_slash_spec,
};
use crate::post_merge_observer::PostMergeObserverAdapterError;
use crate::runtime_http::{
    append_path_segments, base_url_fault, check_base_url, github_headers, github_headers_spec,
    header_pairs, non_blank_token, url_with_segments, usable_base_url, HttpMethod,
    RuntimeHttpRequest, RuntimeHttpTransport,
};
use crate::target_runner::{opt_text, Reference};
use crate::text::{
    blank_str, chars_of, concat, decimal, decimal_string, has_char, is_blank, parse_u64, rfind,
    rfind_chars, slice_of, split_once_at, split_once_char, str_eq, string_of, trim, trim_str,
    unsigned_literal,
};

verus! {

/// Reads the JSON body of a GitHub pull request.
pub trait GithubPullRequestReader {
    fn pull_request(&self, body: &str) -> Result<GithubPullRequestApiResponse, String>;
}

/// A GitHub pull request as the API answers it.
#[derive(Clone, Debug)]
pub struct GithubPullRequestApiResponse {
    pub number: u64,
    pub state: String,
    pub merged: bool,
    pub merge_commit_sha: Option<String>,
    pub updated_at: String,
    pub closed_at: Option<String>,
    pub merged_at: Option<String>,
    pub user_login: Option<String>,
    pub merged_by_login: Option<String>,
    pub base_repo_full_name: String,
}

/// The request to observe a pull request for a source issue.
#[derive(Clone, Debug)]
pub struct PostMergeObserverPullRequestObservationRequest {
    pub source_id: Option<String>,
    pub source_issue_ref: Reference,
    pub source_thread_ref: Option<Reference>,
    pub pull_request_ref: Reference,
}

#[derive(Clone, Copy, Debug, PartialEq, Eq, Structural)]
pub enum PostMergePullRequestState {
    Open,
    Closed,
}

/// What was observed of a pull request.
#[derive(Clone, Debug)]
pub struct PostMergePullRequestObservation {
    pub repo: String,
    pub number: u64,
    pub uri: String,
    pub state: PostMergePullRequestState,
    pub merged: bool,
    pub merge_sha: Option<String>,
    pub observed_at: String,
    pub closed_at: Option<String>,
    pub actor: Option<String>,
}

/// A GitHub pull request: `owner/repo` and its number.
#[derive(Clone, Debug)]
pub struct GithubPullRequestIdentity {
    pub repo: String,
    pub number: u64,
}

/// Observes GitHub pull requests through an HTTP transport.
pub struct GithubPostMergePullRequestObserverAdapter<T> {
    base_url: String,
    transport: T,
    token: Option<String>,
}

pub open spec fn non_blank_text(value: Option<String>) -> Option<Seq<char>> {
    match value {
        Some(v) => if is_blank(v@) {
            None
        } else {
            Some(v@)
        },
        None => None,
    }
}

/// `owner/name`: both non-blank, and no `/` in the name.
pub open spec fn repo_parts(repo: Seq<char>) -> Option<(Seq<char>, Seq<char>)> {
    match split_once_char(repo, '/') {
        Some((owner, name)) => if is_blank(owner) || is_blank(name) || name.contains('/') {
            None
        } else {
            Some((owner, name))
        },
        None => None,
    }
}

pub open spec fn locator_message() -> Seq<char> {
    "pull request locator must use owner/repo#number"@
}

fn observe_error(message: &str) -> (e: PostMergeObserverAdapterError)
    ensures
        e.operation@ == "observe_pull_request_github"@,
        e.message@ == message@,
{
    PostMergeObserverAdapterError::new("observe_pull_request_github", message)
}

fn repo_split(repo: &str) -> (r: Result<(String, String), PostMergeObserverAdapterError>)
    ensures
        match repo_parts(repo@) {
            Some((owner, name)) => r matches Ok((o, n)) && o@ == owner && n@ == name,
            None => r matches Err(e) && e.operation@ == "observe_pull_request_github"@ && e.message@
                == locator_message(),
        },
{
    let chars = chars_of(repo);
    match split_once_at(&chars, '/') {
        Some((owner, name)) => {
            let owner = string_of(&owner);
            let name = string_of(&name);
            if blank_str(owner.as_str()) || blank_str(name.as_str()) || has_char(
                &chars_of(name.as_str()),
                '/',
            ) {
                Err(observe_error("pull request locator must use owner/repo#number"))
            } else {
                Ok((owner, name))
            }
        },
        None => Err(observe_error("pull request locator must use owner/repo#number")),
    }
}

/// The pull request a reference names: a GitHub pull request reference
/// whose locator is `owner/repo#number`, with a positive number.
pub open spec fn identity_spec(reference: Reference) -> Result<(Seq<char>, u64), Seq<char>> {
    let metadata = "pull request ref must be a GitHub pull request with provider and locator metadata"@;
    if reference.reference_type@ != "github_pull_request"@ || opt_text(reference.provider) != Some(
        "github"@,
    ) {
        Err(metadata)
    } else {
        match non_blank_text(reference.locator) {
            None => Err(metadata),
            Some(locator) => match rfind(locator, seq!['#']) {
                None => Err(locator_message()),
                Some(k) => {
                    let repo = locator.subrange(0, k);
                    let number = locator.subrange(k + 1, locator.len() as int);
                    if repo_parts(repo) is None {
                        Err(locator_message())
                    } else {
                        match unsigned_literal(number) {
                            Some(n) => if n > u64::MAX {
                                Err(
                                    "pull request locator number must be a positive integer: "@
                                        + parse_int_error_message(number),
                                )
                            } else if n == 0 {
                                Err("pull request locator number must be a positive integer"@)
                            } else {
                                Ok((repo, n as u64))
                            },
                            None => Err(
                                "pull request locator number must be a positive integer: "@
                                    + parse_int_error_message(number),
                            ),
                        }
                    }
                },
            },
        }
    }
}

fn opt_is(value: &Option<String>, expected: &str) -> (b: bool)
    ensures
        b == (opt_text(*value) == Some(expected@)),
{
    match value {
        Some(v) => str_eq(v.as_str(), expected),
        None => false,
    }
}

/// The pull request a reference names.
pub fn github_pull_request_identity(reference: &Reference) -> (r: Result<
    GithubPullRequestIdentity,
    PostMergeObserverAdapterError,
>)
    ensures
        match identity_spec(*reference) {
            Ok((repo, number)) => r matches Ok(id) && id.repo@ == repo && id.number == number,
            Err(m) => r matches Err(e) && e.operation@ == "observe_pull_request_github"@
                && e.message@ == m,
        },
{
    if !str_eq(reference.reference_type.as_str(), "github_pull_request") || !opt_is(
        &reference.provider,
        "github",
    ) {
        return Err(
            observe_error(
                "pull request ref must be a GitHub pull request with provider and locator metadata",
            ),
        );
    }
    let locator = match &reference.locator {
        Some(l) => if blank_str(l.as_str()) {
            return Err(
                observe_error(
                    "pull request ref must be a GitHub pull request with provider and locator metadata",
                ),
            );
        } else {
            l
        },
        None => {
            return Err(
                observe_error(
                    "pull request ref must be a GitHub pull request with provider and locator metadata",
                ),
            );
        },
    };
    let chars = chars_of(locator.as_str());
    let mut hash: Vec<char> = Vec::new();
    hash.push('#');
    assert(hash@ =~= seq!['#']);
    let k = match rfind_chars(&chars, &hash) {
        Some(k) => k,
        None => return Err(observe_error("pull request locator must use owner/repo#number")),
    };
    let repo = string_of(&slice_of(&chars, 0, k));
    let number = slice_of(&chars, k + 1, chars.len());
    if let Err(e) = repo_split(repo.as_str()) {
        return Err(e);
    }
    match parse_u64(&number) {
        Some(n) => {
            if n == 0 {
                return Err(observe_error("pull request locator number must be a positive integer"));
            }
            Ok(GithubPullRequestIdentity { repo, number: n })
        },
        None => {
            let message = if number.len() == 0 {
                "cannot parse integer from empty string"
            } else if !crate::hosted_http::is_unsigned_literal(&number) {
                "invalid digit found in string"
            } else {
                "number too large to fit in target type"
            };
            proof {
                reveal_strlit("cannot parse integer from empty string");
                reveal_strlit("invalid digit found in string");
                reveal_strlit("number too large to fit in target type");
            }
            Err(
                observe_error(
                    concat(
                        "pull request locator number must be a positive integer: ",
                        message,
                    ).as_str(),
                ),
            )
        },
    }
}

/// A source issue request the GitHub observer answers: a GitHub issue with
/// a locator, and a Slack thread with a locator where there is a thread.
pub open spec fn source_request_fault(
    request: PostMergeObserverPullRequestObservationRequest,
) -> Option<Seq<char>> {
    let issue = request.source_issue_ref;
    if issue.reference_type@ != "github_issue"@ || opt_text(issue.provider) != Some("github"@)
        || non_blank_text(issue.locator) is None {
        Some("source issue ref must be a GitHub issue with provider and locator metadata"@)
    } else {
        match request.source_thread_ref {
            Some(thread) => if thread.reference_type@ != "slack_thread"@ || opt_text(
                thread.provider,
            ) != Some("slack"@) || non_blank_text(thread.locator) is None {
                Some(
                    "source thread ref must be a Slack thread with provider and locator metadata"@,
                )
            } else {
                None
            },
            None => None,
        }
    }
}

fn has_non_blank(value: &Option<String>) -> (b: bool)
    ensures
        b == (non_blank_text(*value) is Some),
{
    match value {
        Some(v) => !blank_str(v.as_str()),
        None => false,
    }
}

pub fn require_github_source_issue_request(
    request: &PostMergeObserverPullRequestObservationRequest,
) -> (r: Result<(), PostMergeObserverAdapterError>)
    ensures
        match source_request_fault(*request) {
            Some(m) => r matches Err(e) && e.operation@ == "observe_pull_request_github"@
                && e.message@ == m,
            None => r is Ok,
        },
{
    let issue = &request.source_issue_ref;
    if !str_eq(issue.reference_type.as_str(), "github_issue") || !opt_is(&issue.provider, "github")
        || !has_non_blank(&issue.locator) {
        return Err(
            observe_error(
                "source issue ref must be a GitHub issue with provider and locator metadata",
            ),
        );
    }
    if let Some(thread) = &request.source_thread_ref {
        if !str_eq(thread.reference_type.as_str(), "slack_thread") || !opt_is(
            &thread.provider,
            "slack",
        ) || !has_non_blank(&thread.locator) {
            return Err(
                observe_error(
                    "source thread ref must be a Slack thread with provider and locator metadata",
                ),
            );
        }
    }
    Ok(())
}

/// What the answer to a pull request readback is observed as, or why it
/// is refused: it must be the pull request asked for, open or closed,
/// updated, and merged only with a merge commit.
pub open spec fn observation_fault(
    identity: GithubPullRequestIdentity,
    payload: GithubPullRequestApiResponse,
) -> Option<Seq<char>> {
    if payload.number != identity.number || payload.base_repo_full_name@ != identity.repo@ {
        Some("github pull request readback does not match requested pull request"@)
    } else if payload.state@ != "open"@ && payload.state@ != "closed"@ {
        Some("github pull request API returned unsupported state '"@ + payload.state@ + "'"@)
    } else if is_blank(payload.updated_at@) {
        Some("github pull request readback is missing updated_at"@)
    } else if payload.merged && non_blank_text(payload.merge_commit_sha) is None {
        Some("merged pull request readback requires merge_commit_sha"@)
    } else {
        None
    }
}

/// The actor of a pull request: whoever merged it, else its author, where
/// the login is not blank.
pub open spec fn actor_spec(payload: GithubPullRequestApiResponse) -> Option<Seq<char>> {
    let login = match payload.merged_by_login {
        Some(l) => Some(l),
        None => payload.user_login,
    };
    match non_blank_text(login) {
        Some(l) => Some("github:user:"@ + l),
        None => None,
    }
}

/// When the pull request was observed: merged, else closed, else updated.
pub open spec fn observed_at_spec(payload: GithubPullRequestApiResponse) -> Seq<char> {
    match non_blank_text(payload.merged_at) {
        Some(m) => m,
        None => match non_blank_text(payload.closed_at) {
            Some(c) => c,
            None => payload.updated_at@,
        },
    }
}

fn non_blank_owned(value: &Option<String>) -> (r: Option<String>)
    ensures
        match non_blank_text(*value) {
            Some(v) => r matches Some(x) && x@ == v,
            None => r is None,
        },
{
    match value {
        Some(v) => if blank_str(v.as_str()) {
            None
        } else {
            Some(v.clone())
        },
        None => None,
    }
}

/// The observation of a pull request readback.
pub fn github_pull_request_observation_from_response(
    request: &PostMergeObserverPullRequestObservationRequest,
    identity: &GithubPullRequestIdentity,
    payload: &GithubPullRequestApiResponse,
) -> (r: Result<PostMergePullRequestObservation, PostMergeObserverAdapterError>)
    ensures
        match observation_fault(*identity, *payload) {
            Some(m) => r matches Err(e) && e.operation@ == "observe_pull_request_github"@
                && e.message@ == m,
            None => r matches Ok(o) && o.repo@ == identity.repo@ && o.number == identity.number
                && o.uri@ == request.pull_request_ref.uri@ && o.state == (if payload.state@
                == "open"@ {
                PostMergePullRequestState::Open
            } else {
                PostMergePullRequestState::Closed
            }) && o.merged == payload.merged && opt_text(o.merge_sha) == non_blank_text(
                payload.merge_commit_sha,
            ) && o.observed_at@ == observed_at_spec(*payload) && opt_text(o.closed_at)
                == non_blank_text(payload.closed_at) && opt_text(o.actor) == actor_spec(*payload),
        },
{
    if payload.number != identity.number || !str_eq(
        payload.base_repo_full_name.as_str(),
        identity.repo.as_str(),
    ) {
        return Err(
            observe_error("github pull request readback does not match requested pull request"),
        );
    }
    let state = if str_eq(payload.state.as_str(), "open") {
        PostMergePullRequestState::Open
    } else if str_eq(payload.state.as_str(), "closed") {
        PostMergePullRequestState::Closed
    } else {
        let a = concat("github pull request API returned unsupported state '", payload.state.as_str());
        let message = concat(a.as_str(), "'");
        return Err(observe_error(message.as_str()));
    };
    if blank_str(payload.updated_at.as_str()) {
        return Err(observe_error("github pull request readback is missing updated_at"));
    }
    let closed_at = non_blank_owned(&payload.closed_at);
    let merged_at = non_blank_owned(&payload.merged_at);
    let observed_at = match &merged_at {
        Some(m) => m.clone(),
        None => match &closed_at {
            Some(c) => c.clone(),
            None => payload.updated_at.clone(),
        },
    };
    let merge_sha = non_blank_owned(&payload.merge_commit_sha);
    if payload.merged && merge_sha.is_none() {
        return Err(observe_error("merged pull request readback requires merge_commit_sha"));
    }
    let login = match &payload.merged_by_login {
        Some(l) => Some(l.clone()),
        None => match &payload.user_login {
            Some(l) => Some(l.clone()),
            None => None,
        },
    };
    let actor = match non_blank_owned(&login) {
        Some(l) => Some(concat("github:user:", l.as_str())),
        None => None,
    };
    Ok(
        PostMergePullRequestObservation {
            repo: identity.repo.clone(),
            number: identity.number,
            uri: request.pull_request_ref.uri.clone(),
            state,
            merged: payload.merged,
            merge_sha,
            observed_at,
            closed_at,
            actor,
        },
    )
}

/// The path segments of a pull request under the API.
pub open spec fn pull_request_segments(owner: Seq<char>, name: Seq<char>, number: u64) -> Seq<
    Seq<char>,
> {
    seq!["repos"@, owner, name, "pulls"@, decimal(number as nat)]
}

impl<T> GithubPostMergePullRequestObserverAdapter<T> {
    #[verifier::type_invariant]
    closed spec fn inv(self) -> bool {
        usable_base_url(self.base_url@)
    }
}

impl<T: RuntimeHttpTransport> GithubPostMergePullRequestObserverAdapter<T> {
    pub closed spec fn base_url_view(&self) -> Seq<char> {
        self.base_url@
    }

    pub closed spec fn token_view(&self) -> Option<Seq<char>> {
        opt_text(self.token)
    }

    /// An observer for a base URL (trimmed, without one trailing `/`) that
    /// must parse with an HTTP(S) scheme; a blank token is dropped.
    pub fn with_transport(base_url: &str, transport: T, token: Option<String>) -> (r: Result<
        Self,
        PostMergeObserverAdapterError,
    >)
        ensures
            match base_url_fault(strip_one_trailing_slash_spec(trim(base_url@))) {
                Some(m) => r matches Err(e) && e.operation@ == "configure_github_pr_observer"@
                    && e.message@ == m,
                None => r matches Ok(a) && a.base_url_view() == strip_one_trailing_slash_spec(
                    trim(base_url@),
                ) && a.token_view() == non_blank_text(token),
            },
    {
        let trimmed = string_of(&trim_str(base_url));
        let base_url = strip_one_trailing_slash(trimmed.as_str());
        match check_base_url(base_url.as_str()) {
            Err(message) => Err(
                PostMergeObserverAdapterError::new("configure_github_pr_observer", message.as_str()),
            ),
            Ok(()) => Ok(
                GithubPostMergePullRequestObserverAdapter {
                    base_url,
                    transport,
                    token: non_blank_token(token),
                },
            ),
        }
    }

    /// The API URL of a pull request: `repos/<owner>/<repo>/pulls/<number>`
    /// under the base URL.
    pub fn github_pull_request_url(&self, identity: &GithubPullRequestIdentity) -> (r: Result<
        String,
        PostMergeObserverAdapterError,
    >)
        ensures
            match repo_parts(identity.repo@) {
                None => r matches Err(e) && e.message@ == locator_message(),
                Some((owner, name)) => r matches Ok(u) && u@ == url_with_segments(
                    self.base_url_view(),
                    pull_request_segments(owner, name, identity.number),
                ),
            },
    {
        proof {
            use_type_invariant(self);
        }
        let (owner, name) = match repo_split(identity.repo.as_str()) {
            Ok(parts) => parts,
            Err(e) => return Err(e),
        };
        let mut segments: Vec<String> = Vec::new();
        segments.push("repos".to_owned());
        segments.push(owner);
        segments.push(name);
        segments.push("pulls".to_owned());
        segments.push(decimal_string(identity.number));
        let ghost expected = pull_request_segments(segments@[1]@, segments@[2]@, identity.number);
        assert(segments@.map_values(|s: String| s@) =~= expected);
        match append_path_segments(self.base_url.as_str(), &segments) {
            Ok(url) => Ok(url),
            Err(message) => Err(
                observe_error(concat("invalid github api base url: ", message.as_str()).as_str()),
            ),
        }
    }

    /// The readback request of a pull request: the request must be a GitHub
    /// source issue request, and the reference a GitHub pull request.
    pub fn pull_request_readback_request(
        &self,
        request: &PostMergeObserverPullRequestObservationRequest,
    ) -> (r: Result<(GithubPullRequestIdentity, RuntimeHttpRequest), PostMergeObserverAdapterError>)
        ensures
            source_request_fault(*request) matches Some(m) ==> r matches Err(e) && e.message@ == m,
            source_request_fault(*request) is None ==> match identity_spec(request.pull_request_ref) {
                Err(m) => r matches Err(e) && e.message@ == m,
                Ok((repo, number)) => match repo_parts(repo) {
                    None => r is Err,
                    Some((owner, name)) => r matches Ok((id, req)) && id.repo@ == repo && id.number
                        == number && req.method == HttpMethod::Get && req.url@ == url_with_segments(
                        self.base_url_view(),
                        pull_request_segments(owner, name, number),
                    ) && req.body is None && header_pairs(req.headers@) == github_headers_spec(
                        "runx-post-merge-observer"@,
                        self.token_view(),
                    ),
                },
            },
    {
        if let Err(e) = require_github_source_issue_request(request) {
            return Err(e);
        }
        let identity = match github_pull_request_identity(&request.pull_request_ref) {
            Ok(id) => id,
            Err(e) => return Err(e),
        };
        let url = match self.github_pull_request_url(&identity) {
            Ok(u) => u,
            Err(e) => return Err(e),
        };
        let headers = github_headers("runx-post-merge-observer", &self.token);
        Ok((identity, RuntimeHttpRequest { method: HttpMethod::Get, url, headers, body: None }))
    }

    /// Observes a pull request: sends its readback, requires a success
    /// status, reads the JSON answer and checks it.
    pub fn observe_pull_request<R: GithubPullRequestReader>(
        &mut self,
        request: &PostMergeObserverPullRequestObservationRequest,
        reader: &R,
    ) -> (r: Result<PostMergePullRequestObservation, PostMergeObserverAdapterError>)
        ensures
            source_request_fault(*request) matches Some(m) ==> r matches Err(e) && e.message@ == m,
            r matches Ok(o) ==> o.uri@ == request.pull_request_ref.uri@ && identity_spec(
                request.pull_request_ref,
            ) == Ok::<(Seq<char>, u64), Seq<char>>((o.repo@, o.number)),
    {
        let (identity, http_request) = match self.pull_request_readback_request(request) {
            Ok(pair) => pair,
            Err(e) => return Err(e),
        };
        let response = match self.transport.send(http_request) {
            Ok(response) => response,
            Err(error) => return Err(observe_error(error.message())),
        };
        if !response.is_success() {
            let message = concat(
                "github pull request API returned HTTP ",
                decimal_string(response.status as u64).as_str(),
            );
            return Err(observe_error(message.as_str()));
        }
        let payload = match reader.pull_request(response.body.as_str()) {
            Ok(p) => p,
            Err(error) => {
                return Err(
                    observe_error(
                        concat("github pull request API returned invalid JSON: ", error.as_str()).as_str(),
                    ),
                );
            },
        };
        github_pull_request_observation_from_response(request, &identity, &payload)
    }

    /// Verification readback is not configured for GitHub.
    pub fn observe_verification(&mut self) -> (r: Result<(), PostMergeObserverAdapterError>)
        ensures
            r matches Err(e) && e.operation@ == "observe_verification_github"@ && e.message@
                == "verification readback adapter is not configured"@,
    {
        Err(
            PostMergeObserverAdapterError::new(
                "observe_verification_github",
                "verification readback adapter is not configured",
            ),
        )
    }
}

} // verus!
