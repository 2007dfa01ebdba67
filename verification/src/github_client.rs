//! The GitHub API client of the target-repo runner: the issue search it
//! sends for a dedupe lookup, and the pull requests it reads back.
use vstd::prelude::*;

use crate::hosted_http::{strip_one_trailing_slash, url_parse_error};
use crate::runtime_http::{
    append_query_pairs, base_url_fault, check_base_url, github_headers, github_headers_spec,
    header_pairs, non_blank_token, url_with_query, HttpMethod, RuntimeHttpError,
    RuntimeHttpRequest, RuntimeHttpResponse, RuntimeHttpTransport,
};
use crate::target_runner::{
    found_refs, found_texts, github_search_item_to_pull_request, is_command_error, item_text,
    ref_views, refuses, exceeded_limit_message, target_repo_runner_provider_dedupe_observation_from_pull_requests,
    texts, GithubIssueSearchItem, TargetRepoRunnerDedupeLookupObservation,
    TargetRepoRunnerProvider, TargetRepoRunnerProviderDedupeLookupCommand,
    TargetRepoRunnerProviderPullRequest, TargetRepoRunnerRuntimeError,
};
use crate::text::{concat, decimal, decimal_string, is_blank, starts_with};

verus! {

/// Reads the JSON body of a GitHub issue search into its items.
pub trait GithubSearchReader {
    fn search_items(&self, body: &str) -> Result<Vec<GithubIssueSearchItem>, String>;
}

/// A GitHub API client for dedupe lookups.
pub struct TargetRepoRunnerGithubApiClient<T> {
    base_url: String,
    transport: T,
    token: Option<String>,
}

/// The search item is a pull request of the command's target repo.
pub open spec fn kept_item(
    command: TargetRepoRunnerProviderDedupeLookupCommand,
    item: GithubIssueSearchItem,
) -> bool {
    item.pull_request && starts_with(
        item.html_url@,
        "https://github.com/"@ + command.target_repo@ + "/pull/"@,
    )
}

/// The pull request read from a kept search item.
pub open spec fn read_back(
    command: TargetRepoRunnerProviderDedupeLookupCommand,
    item: GithubIssueSearchItem,
    pr: TargetRepoRunnerProviderPullRequest,
) -> bool {
    &&& pr.url@ == item.html_url@
    &&& pr.number == item.number
    &&& pr.branch is None
    &&& pr.open == match item.state {
        None => true,
        Some(state) => crate::text::ascii_lowercase(state@) == "open"@,
    }
    &&& texts(pr.markers@) == found_texts(texts(command.markers@), item_text(item))
    &&& ref_views(pr.refs@) == found_refs(command.required_refs@, item_text(item))
}

/// `prs` are the pull requests read from the kept items, in order.
pub open spec fn search_results(
    command: TargetRepoRunnerProviderDedupeLookupCommand,
    items: Seq<GithubIssueSearchItem>,
    prs: Seq<TargetRepoRunnerProviderPullRequest>,
) -> bool
    decreases items.len(),
{
    if items.len() == 0 {
        prs.len() == 0
    } else if kept_item(command, items.last()) {
        prs.len() > 0 && read_back(command, items.last(), prs.last()) && search_results(
            command,
            items.drop_last(),
            prs.drop_last(),
        )
    } else {
        search_results(command, items.drop_last(), prs)
    }
}

/// How many search items are kept.
pub open spec fn kept_count(
    command: TargetRepoRunnerProviderDedupeLookupCommand,
    items: Seq<GithubIssueSearchItem>,
) -> nat
    decreases items.len(),
{
    if items.len() == 0 {
        0
    } else if kept_item(command, items.last()) {
        kept_count(command, items.drop_last()) + 1
    } else {
        kept_count(command, items.drop_last())
    }
}

pub proof fn lemma_search_results_len(
    command: TargetRepoRunnerProviderDedupeLookupCommand,
    items: Seq<GithubIssueSearchItem>,
    prs: Seq<TargetRepoRunnerProviderPullRequest>,
)
    requires
        search_results(command, items, prs),
    ensures
        prs.len() == kept_count(command, items),
    decreases items.len(),
{
    if items.len() > 0 {
        if kept_item(command, items.last()) {
            lemma_search_results_len(command, items.drop_last(), prs.drop_last());
        } else {
            lemma_search_results_len(command, items.drop_last(), prs);
        }
    }
}

/// The pull requests read from search items.
pub fn search_pull_requests(
    command: &TargetRepoRunnerProviderDedupeLookupCommand,
    items: Vec<GithubIssueSearchItem>,
) -> (r: Vec<TargetRepoRunnerProviderPullRequest>)
    ensures
        search_results(*command, items@, r@),
{
    let ghost all = items@;
    assert(all.len() == items.len());
    let mut rest = items;
    let mut out: Vec<TargetRepoRunnerProviderPullRequest> = Vec::new();
    let mut i: usize = 0;
    while rest.len() > 0
        invariant
            i + rest@.len() == all.len(),
            all.len() <= usize::MAX,
            rest@ == all.skip(i as int),
            search_results(*command, all.take(i as int), out@),
        decreases rest.len(),
    {
        let item = rest.remove(0);
        let ghost next = all.take(i + 1);
        assert(item == all[i as int]);
        assert(next.drop_last() =~= all.take(i as int));
        assert(next.last() == item);
        assert(rest@ =~= all.skip(i + 1));
        match github_search_item_to_pull_request(command, item) {
            Some(pr) => {
                let ghost before = out@;
                out.push(pr);
                assert(out@.drop_last() =~= before);
            },
            None => {},
        }
        i += 1;
    }
    assert(all.take(i as int) =~= all);
    out
}

/// The search URL of a lookup: `<base>/search/issues` with the query and the
/// result limit.
pub open spec fn search_url_spec(
    base_url: Seq<char>,
    command: TargetRepoRunnerProviderDedupeLookupCommand,
) -> Result<Seq<char>, Seq<char>> {
    let endpoint = base_url + "/search/issues"@;
    if crate::hosted_http::url_parses(endpoint) {
        Ok(url_with_query(endpoint, command.query.query@, decimal(command.result_limit as nat)))
    } else {
        Err("invalid github search url: "@ + url_parse_error(endpoint))
    }
}

/// What the lookup reads back from the API's answer: a success status, a
/// JSON body of search items, and no more kept pull requests than asked for.
pub open spec fn lookup_response_ok(
    command: TargetRepoRunnerProviderDedupeLookupCommand,
    status: u16,
    items: Result<Seq<GithubIssueSearchItem>, Seq<char>>,
) -> Result<(), Seq<char>> {
    if !(200 <= status <= 299) {
        Err("github search API returned HTTP "@ + decimal(status as nat))
    } else {
        match items {
            Err(m) => Err("github search API returned invalid JSON: "@ + m),
            Ok(_) => Ok(()),
        }
    }
}

/// The observation of a lookup from the API's status and the search items
/// its body held (or why they could not be read).
pub fn provider_dedupe_observation_from_response(
    command: &TargetRepoRunnerProviderDedupeLookupCommand,
    status: u16,
    items: Result<Vec<GithubIssueSearchItem>, String>,
) -> (r: Result<TargetRepoRunnerDedupeLookupObservation, TargetRepoRunnerRuntimeError>)
    ensures
        !(200 <= status <= 299) ==> refuses(
            r,
            "provider_api_lookup"@,
            "github search API returned HTTP "@ + decimal(status as nat),
        ),
        200 <= status <= 299 ==> match items {
            Err(m) => refuses(
                r,
                "provider_api_lookup"@,
                "github search API returned invalid JSON: "@ + m@,
            ),
            Ok(found) => if kept_count(*command, found@) > command.result_limit {
                refuses(r, "provider_dedupe_lookup"@, exceeded_limit_message())
            } else {
                r matches Ok(observation) && observation.provider == command.provider
                    && observation.target_repo@ == command.target_repo@ && observation.key@
                    == command.dedupe_key@ && search_results(
                    *command,
                    found@,
                    observation.pull_requests@,
                )
            },
        },
{
    if !(200 <= status && status <= 299) {
        let message = concat("github search API returned HTTP ", decimal_string(status as u64).as_str());
        return Err(
            TargetRepoRunnerRuntimeError::CommandValidation {
                operation: "provider_api_lookup",
                message,
            },
        );
    }
    let found = match items {
        Ok(found) => found,
        Err(m) => {
            return Err(
                TargetRepoRunnerRuntimeError::CommandValidation {
                    operation: "provider_api_lookup",
                    message: concat("github search API returned invalid JSON: ", m.as_str()),
                },
            );
        },
    };
    let ghost found_view = found@;
    let pull_requests = search_pull_requests(command, found);
    proof {
        lemma_search_results_len(*command, found_view, pull_requests@);
    }
    target_repo_runner_provider_dedupe_observation_from_pull_requests(command, pull_requests)
}

impl<T: RuntimeHttpTransport> TargetRepoRunnerGithubApiClient<T> {
    pub closed spec fn base_url_view(&self) -> Seq<char> {
        self.base_url@
    }

    pub closed spec fn token_view(&self) -> Option<Seq<char>> {
        match self.token {
            Some(t) => Some(t@),
            None => None,
        }
    }

    /// A client for a base URL (without one trailing `/`) that must parse
    /// with an HTTP(S) scheme; a blank token is dropped.
    pub fn with_transport(base_url: &str, transport: T, token: Option<String>) -> (r: Result<
        Self,
        TargetRepoRunnerRuntimeError,
    >)
        ensures
            match base_url_fault(crate::hosted_http::strip_one_trailing_slash_spec(base_url@)) {
                Some(m) => refuses(r, "provider_api_lookup"@, m),
                None => r matches Ok(c) && c.base_url_view()
                    == crate::hosted_http::strip_one_trailing_slash_spec(base_url@)
                    && c.token_view() == match token {
                    Some(t) => if is_blank(t@) {
                        None
                    } else {
                        Some(t@)
                    },
                    None => None::<Seq<char>>,
                },
            },
    {
        let base_url = strip_one_trailing_slash(base_url);
        match check_base_url(base_url.as_str()) {
            Err(message) => Err(
                TargetRepoRunnerRuntimeError::CommandValidation {
                    operation: "provider_api_lookup",
                    message,
                },
            ),
            Ok(()) => Ok(
                TargetRepoRunnerGithubApiClient {
                    base_url,
                    transport,
                    token: non_blank_token(token),
                },
            ),
        }
    }

    /// The request of a dedupe lookup: a GET of the search URL with the
    /// GitHub headers of the runner.
    pub fn provider_dedupe_lookup_request(
        &self,
        command: &TargetRepoRunnerProviderDedupeLookupCommand,
    ) -> (r: Result<RuntimeHttpRequest, TargetRepoRunnerRuntimeError>)
        ensures
            match search_url_spec(self.base_url_view(), *command) {
                Err(m) => refuses(r, "provider_api_lookup"@, m),
                Ok(url) => r matches Ok(request) && request.method == HttpMethod::Get
                    && request.url@ == url && request.body is None && header_pairs(request.headers@)
                    == github_headers_spec("runx-target-repo-runner"@, self.token_view()),
            },
    {
        match command.provider {
            TargetRepoRunnerProvider::Github => {},
        }
        let endpoint = concat(self.base_url.as_str(), "/search/issues");
        let per_page = decimal_string(command.result_limit as u64);
        let url = match append_query_pairs(
            endpoint.as_str(),
            command.query.query.as_str(),
            per_page.as_str(),
        ) {
            Ok(url) => url,
            Err(message) => {
                return Err(
                    TargetRepoRunnerRuntimeError::CommandValidation {
                        operation: "provider_api_lookup",
                        message: concat("invalid github search url: ", message.as_str()),
                    },
                );
            },
        };
        Ok(
            RuntimeHttpRequest {
                method: HttpMethod::Get,
                url,
                headers: github_headers("runx-target-repo-runner", &self.token),
                body: None,
            },
        )
    }

    /// Runs a dedupe lookup: sends the search, reads its items, and keeps the
    /// pull requests of the target repo.
    pub fn provider_dedupe_lookup<R: GithubSearchReader>(
        &self,
        command: &TargetRepoRunnerProviderDedupeLookupCommand,
        reader: &R,
    ) -> (r: Result<TargetRepoRunnerDedupeLookupObservation, TargetRepoRunnerRuntimeError>)
        ensures
            search_url_spec(self.base_url_view(), *command) matches Err(m) ==> refuses(
                r,
                "provider_api_lookup"@,
                m,
            ),
            r matches Ok(observation) ==> observation.provider == command.provider
                && observation.target_repo@ == command.target_repo@ && observation.key@
                == command.dedupe_key@ && observation.pull_requests@.len() <= command.result_limit,
    {
        let request = match self.provider_dedupe_lookup_request(command) {
            Ok(request) => request,
            Err(e) => return Err(e),
        };
        let response = match self.transport.send(request) {
            Ok(response) => response,
            Err(error) => {
                return Err(
                    TargetRepoRunnerRuntimeError::CommandValidation {
                        operation: "provider_api_lookup",
                        message: error.message().to_owned(),
                    },
                );
            },
        };
        let items = if response.is_success() {
            reader.search_items(response.body.as_str())
        } else {
            Ok(Vec::new())
        };
        let ghost items_view = items;
        let r = provider_dedupe_observation_from_response(command, response.status, items);
        proof {
            if r is Ok && items_view is Ok {
                lemma_search_results_len(
                    *command,
                    items_view->Ok_0@,
                    r->Ok_0.pull_requests@,
                );
            }
        }
        r
    }
}

} // verus!
