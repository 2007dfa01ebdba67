//! The target-repo runner's commands and the checks on what providers read
//! back: GitHub repositories and pull-request URLs, provider dedupe lookups,
//! branch names, and the readback of git and pull-request mutations.
use vstd::prelude::*;

use crate::json::{JsonValue, json_get, object_get};
use crate::hashing::{lower_hex, lower_hex_prefix, sha256_digest, sha256_of_str};
use crate::receipt_paths::utf8;
use crate::text::{
    all_ascii_digits, all_digits, chars_of, concat, concat3, contains, digits_value, extend_str,
    has_char, is_ascii_alnum, is_blank, is_control, parse_u64, slice_of, split_once_at,
    split_once_char, str_contains, str_eq, string_of, strip_prefix, strip_prefix_chars,
};

verus! {

/// Why the target runner refused a command or a readback.
#[derive(Clone, Debug, PartialEq, Eq)]
pub enum TargetRepoRunnerRuntimeError {
    CommandValidation { operation: &'static str, message: String },
    ReadinessMismatch(String),
    SourcePublicationMismatch(String),
}

/// `e` refuses `operation` with `message`.
pub open spec fn is_command_error(
    e: TargetRepoRunnerRuntimeError,
    operation: Seq<char>,
    message: Seq<char>,
) -> bool {
    e matches TargetRepoRunnerRuntimeError::CommandValidation { operation: op, message: m } && op@
        == operation && m@ == message
}

/// `r` refuses `operation` with `message`.
pub open spec fn refuses<T>(
    r: Result<T, TargetRepoRunnerRuntimeError>,
    operation: Seq<char>,
    message: Seq<char>,
) -> bool {
    r matches Err(e) && is_command_error(e, operation, message)
}

fn command_error(operation: &'static str, message: &str) -> (e: TargetRepoRunnerRuntimeError)
    ensures
        is_command_error(e, operation@, message@),
{
    TargetRepoRunnerRuntimeError::CommandValidation { operation, message: String::from_str(message) }
}

// ---------------------------------------------------------------------------
// GitHub repositories
// ---------------------------------------------------------------------------

/// A GitHub repository: its owner, its name, and `owner/name`.
#[derive(Clone, Debug, PartialEq, Eq)]
pub struct TargetRepoRunnerGithubRepository {
    pub owner: String,
    pub name: String,
    pub full_name: String,
}

/// A GitHub owner: 1 to 39 ASCII letters, digits and hyphens, not starting or
/// ending with a hyphen.
pub open spec fn valid_owner(owner: Seq<char>) -> bool {
    &&& 0 < owner.len() <= 39
    &&& owner[0] != '-'
    &&& owner.last() != '-'
    &&& forall|i: int| 0 <= i < owner.len() ==> (is_ascii_alnum(#[trigger] owner[i]) || owner[i]
        == '-')
}

/// A GitHub repository name: 1 to 100 ASCII letters, digits, `.`, `_` and `-`,
/// other than `.` and `..`.
pub open spec fn valid_repo_name(name: Seq<char>) -> bool {
    &&& 0 < name.len() <= 100
    &&& name != "."@
    &&& name != ".."@
    &&& forall|i: int|
        0 <= i < name.len() ==> (is_ascii_alnum(#[trigger] name[i]) || name[i] == '.' || name[i]
            == '_' || name[i] == '-')
}

/// The owner and name of a target repo `owner/name`, where both are safe.
pub open spec fn github_repo_parts(repo: Seq<char>) -> Option<(Seq<char>, Seq<char>)> {
    match split_once_char(repo, '/') {
        Some((owner, name)) => if !name.contains('/') && valid_owner(owner) && valid_repo_name(name) {
            Some((owner, name))
        } else {
            None
        },
        None => None,
    }
}

/// The message of a target repo that is no safe GitHub repository.
pub open spec fn invalid_repo_message() -> Seq<char> {
    "target repo must be a github owner/repo with safe path segments"@
}

fn valid_github_owner(owner: &Vec<char>) -> (b: bool)
    ensures
        b == valid_owner(owner@),
{
    if owner.len() == 0 || owner.len() > 39 || owner[0] == '-' || owner[owner.len() - 1] == '-' {
        return false;
    }
    let mut i: usize = 0;
    while i < owner.len()
        invariant
            i <= owner.len(),
            forall|k: int| 0 <= k < i ==> (is_ascii_alnum(#[trigger] owner@[k]) || owner@[k]
                == '-'),
        decreases owner.len() - i,
    {
        let c = owner[i];
        if !(crate::text::ascii_alnum(c) || c == '-') {
            return false;
        }
        i += 1;
    }
    true
}

fn valid_github_repo_name(name: &Vec<char>) -> (b: bool)
    ensures
        b == valid_repo_name(name@),
{
    if name.len() == 0 || name.len() > 100 {
        return false;
    }
    let dot = chars_of(".");
    let dots = chars_of("..");
    if crate::text::chars_eq(name, &dot) || crate::text::chars_eq(name, &dots) {
        return false;
    }
    let mut i: usize = 0;
    while i < name.len()
        invariant
            i <= name.len(),
            forall|k: int|
                0 <= k < i ==> (is_ascii_alnum(#[trigger] name@[k]) || name@[k] == '.' || name@[k]
                    == '_' || name@[k] == '-'),
        decreases name.len() - i,
    {
        let c = name[i];
        if !(crate::text::ascii_alnum(c) || c == '.' || c == '_' || c == '-') {
            return false;
        }
        i += 1;
    }
    true
}

/// The GitHub repository that a target repo names, refused for `operation`
/// where it is no safe `owner/name`.
pub fn github_repository(repo: &str, operation: &'static str) -> (r: Result<
    TargetRepoRunnerGithubRepository,
    TargetRepoRunnerRuntimeError,
>)
    ensures
        match github_repo_parts(repo@) {
            Some((owner, name)) => r matches Ok(repository) && repository.owner@ == owner
                && repository.name@ == name && repository.full_name@ == owner + "/"@ + name,
            None => refuses(r, operation@, invalid_repo_message()),
        },
{
    let chars = chars_of(repo);
    let (owner, name) = match split_once_at(&chars, '/') {
        Some(parts) => parts,
        None => {
            return Err(
                command_error(
                    operation,
                    "target repo must be a github owner/repo with safe path segments",
                ),
            )
        },
    };
    if has_char(&name, '/') || !valid_github_owner(&owner) || !valid_github_repo_name(&name) {
        return Err(
            command_error(
                operation,
                "target repo must be a github owner/repo with safe path segments",
            ),
        );
    }
    let owner_text = string_of(&owner);
    let name_text = string_of(&name);
    let full_name = concat3(owner_text.as_str(), "/", name_text.as_str());
    Ok(TargetRepoRunnerGithubRepository { owner: owner_text, name: name_text, full_name })
}

/// The number that a pull request's URL ends with, where the URL belongs to
/// `repo`; `Err` holds the message of the refusal.
pub open spec fn pull_request_number_spec(repo: Seq<char>, url: Seq<char>) -> Result<u64, Seq<char>> {
    match strip_prefix(url, "https://github.com/"@ + repo + "/pull/"@) {
        None => Err("pull request readback URL must belong to the target repo"@),
        Some(rest) => {
            let number = if rest.len() > 0 && rest.last() == '/' {
                rest.drop_last()
            } else {
                rest
            };
            if number.len() == 0 || !all_digits(number) {
                Err("pull request readback URL must end with a pull request number"@)
            } else if digits_value(number) > u64::MAX {
                Err("pull request readback number is invalid: number too large to fit in target type"@)
            } else {
                Ok(digits_value(number) as u64)
            }
        },
    }
}

/// A GitHub pull request URL of `repo`, with or without one trailing `/`,
/// gives the decimal number it ends with, wherever that number fits in a
/// `u64`; and a URL that gives a number is one of `repo`'s pull requests.
pub proof fn lemma_pull_request_url_gives_its_number(repo: Seq<char>, digits: Seq<char>, url: Seq<char>)
    ensures
        digits.len() > 0 && crate::text::all_digits(digits) && digits_value(digits) <= u64::MAX
            ==> pull_request_number_spec(repo, "https://github.com/"@ + repo + "/pull/"@ + digits)
            == Ok::<u64, Seq<char>>(digits_value(digits) as u64),
        digits.len() > 0 && crate::text::all_digits(digits) && digits_value(digits) <= u64::MAX
            ==> pull_request_number_spec(
            repo,
            "https://github.com/"@ + repo + "/pull/"@ + digits + "/"@,
        ) == Ok::<u64, Seq<char>>(digits_value(digits) as u64),
        pull_request_number_spec(repo, url) is Ok ==> crate::text::starts_with(
            url,
            "https://github.com/"@ + repo + "/pull/"@,
        ),
{
    reveal_strlit("/");
    let p = "https://github.com/"@ + repo + "/pull/"@;
    if digits.len() > 0 && crate::text::all_digits(digits) && digits_value(digits) <= u64::MAX {
        let u1 = p + digits;
        assert(u1.subrange(0, p.len() as int) =~= p);
        assert(u1.subrange(p.len() as int, u1.len() as int) =~= digits);
        assert(crate::text::is_ascii_digit(digits.last()));
        let u2 = p + digits + "/"@;
        assert(u2.subrange(0, p.len() as int) =~= p);
        let rest = u2.subrange(p.len() as int, u2.len() as int);
        assert(rest =~= digits + "/"@);
        assert(rest.last() == '/');
        assert(rest.drop_last() =~= digits);
    }
}

/// The number of a pull request of `repo` from its URL.
pub fn github_pull_request_number(repo: &str, url: &str) -> (r: Result<
    u64,
    TargetRepoRunnerRuntimeError,
>)
    ensures
        match pull_request_number_spec(repo@, url@) {
            Ok(n) => r == Ok::<u64, TargetRepoRunnerRuntimeError>(n),
            Err(message) => refuses(r, "pull_request"@, message),
        },
{
    let prefix = concat3("https://github.com/", repo, "/pull/");
    let chars = chars_of(url);
    let prefix_chars = chars_of(prefix.as_str());
    let rest = match strip_prefix_chars(&chars, &prefix_chars) {
        Some(rest) => rest,
        None => {
            return Err(
                command_error(
                    "pull_request",
                    "pull request readback URL must belong to the target repo",
                ),
            )
        },
    };
    let number = if rest.len() > 0 && rest[rest.len() - 1] == '/' {
        slice_of(&rest, 0, rest.len() - 1)
    } else {
        rest
    };
    assert(number@ == if rest@.len() > 0 && rest@.last() == '/' {
        rest@.drop_last()
    } else {
        rest@
    });
    if number.len() == 0 || !all_ascii_digits(&number) {
        return Err(
            command_error(
                "pull_request",
                "pull request readback URL must end with a pull request number",
            ),
        );
    }
    assert(number@[0] != '+');
    match parse_u64(&number) {
        Some(n) => Ok(n),
        None => Err(
            command_error(
                "pull_request",
                "pull request readback number is invalid: number too large to fit in target type",
            ),
        ),
    }
}

// ---------------------------------------------------------------------------
// Provider dedupe lookups
// ---------------------------------------------------------------------------

/// The message of a lookup term that is blank or holds control characters.
pub open spec fn lookup_term_message(field: Seq<char>) -> Seq<char> {
    "provider lookup "@ + field + " must be non-empty text"@
}

/// Text that a provider lookup may search for: not blank, no control
/// characters.
pub open spec fn valid_lookup_term(value: Seq<char>) -> bool {
    !is_blank(value) && !(exists|j: int| 0 <= j < value.len() && is_control(#[trigger] value[j]))
}

/// Checks a term of a provider lookup.
pub fn validate_provider_lookup_term(value: &str, field: &'static str) -> (r: Result<
    (),
    TargetRepoRunnerRuntimeError,
>)
    ensures
        valid_lookup_term(value@) ==> r is Ok,
        !valid_lookup_term(value@) ==> refuses(
            r,
            "provider_dedupe_lookup"@,
            lookup_term_message(field@),
        ),
{
    let chars = chars_of(value);
    if crate::text::blank_str(value) || crate::text::any_control(&chars) {
        let message = concat3("provider lookup ", field, " must be non-empty text");
        return Err(
            TargetRepoRunnerRuntimeError::CommandValidation {
                operation: "provider_dedupe_lookup",
                message,
            },
        );
    }
    Ok(())
}

/// `s` with each backslash and double quote escaped by a backslash.
pub open spec fn search_escape(s: Seq<char>) -> Seq<char>
    decreases s.len(),
{
    if s.len() == 0 {
        Seq::empty()
    } else {
        let c = s.last();
        let prev = search_escape(s.drop_last());
        if c == '\\' {
            prev + seq!['\\', '\\']
        } else if c == '"' {
            prev + seq!['\\', '"']
        } else {
            prev.push(c)
        }
    }
}

/// A GitHub search term that matches `value` exactly: quoted and escaped.
pub open spec fn exact_term(value: Seq<char>) -> Seq<char> {
    seq!['"'] + search_escape(value) + seq!['"']
}

/// A GitHub search term that matches `value` exactly.
pub fn github_search_exact_term(value: &str) -> (r: String)
    ensures
        r@ == exact_term(value@),
{
    let chars = chars_of(value);
    let mut out: Vec<char> = Vec::new();
    out.push('"');
    let mut i: usize = 0;
    while i < chars.len()
        invariant
            i <= chars.len(),
            out@ == seq!['"'] + search_escape(chars@.take(i as int)),
        decreases chars.len() - i,
    {
        let c = chars[i];
        assert(chars@.take(i + 1).drop_last() =~= chars@.take(i as int));
        assert(chars@.take(i + 1).last() == c);
        if c == '\\' {
            out.push('\\');
            out.push('\\');
        } else if c == '"' {
            out.push('\\');
            out.push('"');
        } else {
            out.push(c);
        }
        assert(out@ =~= seq!['"'] + search_escape(chars@.take(i + 1)));
        i += 1;
    }
    out.push('"');
    assert(chars@.take(chars.len() as int) =~= chars@);
    assert(out@ =~= exact_term(value@));
    string_of(&out)
}

// ---------------------------------------------------------------------------
// References
// ---------------------------------------------------------------------------

/// A reference to something outside the runtime: its type, URI, and where
/// known its provider, locator and label.
#[derive(Clone, Debug, PartialEq, Eq)]
pub struct Reference {
    pub reference_type: String,
    pub uri: String,
    pub provider: Option<String>,
    pub locator: Option<String>,
    pub label: Option<String>,
}

/// An optional string as text.
pub open spec fn opt_text(value: Option<String>) -> Option<Seq<char>> {
    match value {
        Some(s) => Some(s@),
        None => None,
    }
}

impl View for Reference {
    type V = (Seq<char>, Seq<char>, Option<Seq<char>>, Option<Seq<char>>, Option<Seq<char>>);

    open spec fn view(&self) -> (
        Seq<char>,
        Seq<char>,
        Option<Seq<char>>,
        Option<Seq<char>>,
        Option<Seq<char>>,
    ) {
        (
            self.reference_type@,
            self.uri@,
            opt_text(self.provider),
            opt_text(self.locator),
            opt_text(self.label),
        )
    }
}

fn copy_opt(value: &Option<String>) -> (r: Option<String>)
    ensures
        opt_text(r) == opt_text(*value),
{
    match value {
        Some(s) => Some(s.clone()),
        None => None,
    }
}

impl Reference {
    /// A copy of the reference.
    pub fn duplicate(&self) -> (r: Reference)
        ensures
            r@ == self@,
    {
        Reference {
            reference_type: self.reference_type.clone(),
            uri: self.uri.clone(),
            provider: copy_opt(&self.provider),
            locator: copy_opt(&self.locator),
            label: copy_opt(&self.label),
        }
    }
}

/// Two references name the same thing: same type and same URI.
pub open spec fn same_reference_spec(left: Reference, right: Reference) -> bool {
    left.reference_type@ == right.reference_type@ && left.uri@ == right.uri@
}

/// Two references name the same thing.
pub fn same_reference(left: &Reference, right: &Reference) -> (b: bool)
    ensures
        b == same_reference_spec(*left, *right),
{
    str_eq(left.reference_type.as_str(), right.reference_type.as_str()) && str_eq(
        left.uri.as_str(),
        right.uri.as_str(),
    )
}

/// The views of a list of references.
pub open spec fn ref_views(refs: Seq<Reference>) -> Seq<
    (Seq<char>, Seq<char>, Option<Seq<char>>, Option<Seq<char>>, Option<Seq<char>>),
> {
    refs.map_values(|r: Reference| r@)
}

/// The texts of a list of strings.
pub open spec fn texts(items: Seq<String>) -> Seq<Seq<char>> {
    items.map_values(|s: String| s@)
}

fn copy_refs(refs: &Vec<Reference>) -> (r: Vec<Reference>)
    ensures
        ref_views(r@) == ref_views(refs@),
{
    let mut out: Vec<Reference> = Vec::new();
    let mut i: usize = 0;
    while i < refs.len()
        invariant
            i <= refs.len(),
            ref_views(out@) == ref_views(refs@).take(i as int),
        decreases refs.len() - i,
    {
        let ghost before = out@;
        out.push(refs[i].duplicate());
        assert(ref_views(out@) =~= ref_views(before).push(refs@[i as int]@));
        assert(ref_views(refs@).take(i + 1) =~= ref_views(refs@).take(i as int).push(
            refs@[i as int]@,
        ));
        i += 1;
    }
    assert(ref_views(refs@).take(refs.len() as int) =~= ref_views(refs@));
    out
}

fn copy_texts(items: &Vec<String>) -> (r: Vec<String>)
    ensures
        texts(r@) == texts(items@),
{
    let mut out: Vec<String> = Vec::new();
    let mut i: usize = 0;
    while i < items.len()
        invariant
            i <= items.len(),
            texts(out@) == texts(items@).take(i as int),
        decreases items.len() - i,
    {
        let ghost before = out@;
        out.push(items[i].clone());
        assert(texts(out@) =~= texts(before).push(items@[i as int]@));
        assert(texts(items@).take(i + 1) =~= texts(items@).take(i as int).push(items@[i as int]@));
        i += 1;
    }
    assert(texts(items@).take(items.len() as int) =~= texts(items@));
    out
}

// ---------------------------------------------------------------------------
// Dedupe lookup commands
// ---------------------------------------------------------------------------

/// A code-hosting provider.
#[derive(Clone, Copy, Debug, PartialEq, Eq, Structural)]
pub enum TargetRepoRunnerProvider {
    Github,
}

/// What a dedupe lookup searches for: at most `result_limit` open pull
/// requests that carry the markers and cite the source references.
#[derive(Clone, Debug, PartialEq, Eq)]
pub struct TargetRepoRunnerDedupeLookupQuery {
    pub result_limit: u16,
    pub markers: Vec<String>,
    pub required_refs: Vec<Reference>,
}

/// A planned dedupe lookup.
#[derive(Clone, Debug, PartialEq, Eq)]
pub struct TargetRepoRunnerDedupeLookupPlan {
    pub provider: TargetRepoRunnerProvider,
    pub target_repo: String,
    pub key: String,
    pub query: TargetRepoRunnerDedupeLookupQuery,
}

/// The state of pull requests searched for.
#[derive(Clone, Copy, Debug, PartialEq, Eq, Structural)]
pub enum TargetRepoRunnerGithubPullRequestSearchState {
    Open,
}

/// A GitHub pull-request search.
#[derive(Clone, Debug, PartialEq, Eq)]
pub struct TargetRepoRunnerGithubPullRequestSearchCommand {
    pub repo: String,
    pub state: TargetRepoRunnerGithubPullRequestSearchState,
    pub query: String,
    pub terms: Vec<String>,
}

/// A dedupe lookup to run against the provider.
#[derive(Clone, Debug, PartialEq, Eq)]
pub struct TargetRepoRunnerProviderDedupeLookupCommand {
    pub provider: TargetRepoRunnerProvider,
    pub target_repo: String,
    pub repository: TargetRepoRunnerGithubRepository,
    pub dedupe_key: String,
    pub result_limit: u16,
    pub query: TargetRepoRunnerGithubPullRequestSearchCommand,
    pub markers: Vec<String>,
    pub required_refs: Vec<Reference>,
}

/// Why a dedupe lookup plan is refused, if it is: the first of a zero limit,
/// no markers, no references, a bad marker, a bad reference.
pub open spec fn dedupe_lookup_fault(lookup: TargetRepoRunnerDedupeLookupPlan) -> Option<Seq<char>> {
    let markers = texts(lookup.query.markers@);
    let uris = lookup.query.required_refs@.map_values(|r: Reference| r.uri@);
    if lookup.query.result_limit == 0 {
        Some("provider lookup result limit must be greater than zero"@)
    } else if markers.len() == 0 {
        Some("provider lookup requires at least one dedupe marker"@)
    } else if uris.len() == 0 {
        Some("provider lookup requires source references"@)
    } else if exists|i: int| 0 <= i < markers.len() && !valid_lookup_term(#[trigger] markers[i]) {
        Some(lookup_term_message("marker"@))
    } else if exists|i: int| 0 <= i < uris.len() && !valid_lookup_term(#[trigger] uris[i]) {
        Some(lookup_term_message("source reference"@))
    } else {
        None
    }
}

fn validate_provider_dedupe_lookup(lookup: &TargetRepoRunnerDedupeLookupPlan) -> (r: Result<
    (),
    TargetRepoRunnerRuntimeError,
>)
    ensures
        match dedupe_lookup_fault(*lookup) {
            None => r is Ok,
            Some(message) => refuses(r, "provider_dedupe_lookup"@, message),
        },
{
    let ghost markers = texts(lookup.query.markers@);
    let ghost uris = lookup.query.required_refs@.map_values(|r: Reference| r.uri@);
    if lookup.query.result_limit == 0 {
        return Err(
            command_error(
                "provider_dedupe_lookup",
                "provider lookup result limit must be greater than zero",
            ),
        );
    }
    if lookup.query.markers.len() == 0 {
        return Err(
            command_error(
                "provider_dedupe_lookup",
                "provider lookup requires at least one dedupe marker",
            ),
        );
    }
    if lookup.query.required_refs.len() == 0 {
        return Err(
            command_error("provider_dedupe_lookup", "provider lookup requires source references"),
        );
    }
    let mut i: usize = 0;
    while i < lookup.query.markers.len()
        invariant
            i <= lookup.query.markers.len(),
            lookup.query.result_limit != 0,
            lookup.query.markers.len() > 0,
            lookup.query.required_refs.len() > 0,
            markers == texts(lookup.query.markers@),
            uris == lookup.query.required_refs@.map_values(|r: Reference| r.uri@),
            forall|k: int| 0 <= k < i ==> valid_lookup_term(#[trigger] markers[k]),
        decreases lookup.query.markers.len() - i,
    {
        assert(markers[i as int] == lookup.query.markers@[i as int]@);
        match validate_provider_lookup_term(lookup.query.markers[i].as_str(), "marker") {
            Ok(()) => {},
            Err(e) => return Err(e),
        }
        i += 1;
    }
    let mut j: usize = 0;
    while j < lookup.query.required_refs.len()
        invariant
            j <= lookup.query.required_refs.len(),
            lookup.query.result_limit != 0,
            lookup.query.markers.len() > 0,
            lookup.query.required_refs.len() > 0,
            markers == texts(lookup.query.markers@),
            uris == lookup.query.required_refs@.map_values(|r: Reference| r.uri@),
            forall|k: int| 0 <= k < markers.len() ==> valid_lookup_term(#[trigger] markers[k]),
            forall|k: int| 0 <= k < j ==> valid_lookup_term(#[trigger] uris[k]),
        decreases lookup.query.required_refs.len() - j,
    {
        assert(uris[j as int] == lookup.query.required_refs@[j as int].uri@);
        match validate_provider_lookup_term(
            lookup.query.required_refs[j].uri.as_str(),
            "source reference",
        ) {
            Ok(()) => {},
            Err(e) => return Err(e),
        }
        j += 1;
    }
    Ok(())
}

/// The search terms of a dedupe lookup: the repository, open pull requests,
/// then each marker and each reference URI as an exact term.
pub open spec fn lookup_terms_spec(full_name: Seq<char>, lookup: TargetRepoRunnerDedupeLookupPlan) -> Seq<
    Seq<char>,
> {
    seq!["repo:"@ + full_name, "is:pr"@, "is:open"@] + texts(lookup.query.markers@).map_values(
        |m: Seq<char>| exact_term(m),
    ) + lookup.query.required_refs@.map_values(|r: Reference| exact_term(r.uri@))
}

fn provider_dedupe_lookup_terms(
    repository: &TargetRepoRunnerGithubRepository,
    lookup: &TargetRepoRunnerDedupeLookupPlan,
) -> (r: Vec<String>)
    ensures
        texts(r@) == lookup_terms_spec(repository.full_name@, *lookup),
{
    let mut terms: Vec<String> = Vec::new();
    terms.push(concat("repo:", repository.full_name.as_str()));
    terms.push(String::from_str("is:pr"));
    terms.push(String::from_str("is:open"));
    let ghost head = seq!["repo:"@ + repository.full_name@, "is:pr"@, "is:open"@];
    let ghost marker_terms = texts(lookup.query.markers@).map_values(|m: Seq<char>| exact_term(m));
    let ghost ref_terms = lookup.query.required_refs@.map_values(|r: Reference| exact_term(r.uri@));
    assert(texts(terms@) =~= head);
    let mut i: usize = 0;
    while i < lookup.query.markers.len()
        invariant
            i <= lookup.query.markers.len(),
            marker_terms == texts(lookup.query.markers@).map_values(|m: Seq<char>| exact_term(m)),
            texts(terms@) == head + marker_terms.take(i as int),
        decreases lookup.query.markers.len() - i,
    {
        let ghost before = terms@;
        terms.push(github_search_exact_term(lookup.query.markers[i].as_str()));
        assert(marker_terms[i as int] == exact_term(lookup.query.markers@[i as int]@));
        assert(texts(terms@) =~= texts(before).push(marker_terms[i as int]));
        assert(marker_terms.take(i + 1) =~= marker_terms.take(i as int).push(marker_terms[i as int]));
        i += 1;
    }
    assert(marker_terms.take(lookup.query.markers.len() as int) =~= marker_terms);
    let mut j: usize = 0;
    while j < lookup.query.required_refs.len()
        invariant
            j <= lookup.query.required_refs.len(),
            ref_terms == lookup.query.required_refs@.map_values(|r: Reference| exact_term(r.uri@)),
            texts(terms@) == head + marker_terms + ref_terms.take(j as int),
        decreases lookup.query.required_refs.len() - j,
    {
        let ghost before = terms@;
        terms.push(github_search_exact_term(lookup.query.required_refs[j].uri.as_str()));
        assert(ref_terms[j as int] == exact_term(lookup.query.required_refs@[j as int].uri@));
        assert(texts(terms@) =~= texts(before).push(ref_terms[j as int]));
        assert(ref_terms.take(j + 1) =~= ref_terms.take(j as int).push(ref_terms[j as int]));
        j += 1;
    }
    assert(ref_terms.take(lookup.query.required_refs.len() as int) =~= ref_terms);
    terms
}

/// Texts joined by single spaces.
pub open spec fn join_spaces(items: Seq<Seq<char>>) -> Seq<char>
    decreases items.len(),
{
    if items.len() == 0 {
        Seq::empty()
    } else if items.len() == 1 {
        items[0]
    } else {
        join_spaces(items.drop_last()) + " "@ + items.last()
    }
}

pub(crate) fn join_with_spaces(items: &Vec<String>) -> (r: String)
    ensures
        r@ == join_spaces(texts(items@)),
{
    let mut out: Vec<char> = Vec::new();
    let mut i: usize = 0;
    while i < items.len()
        invariant
            i <= items.len(),
            out@ == join_spaces(texts(items@).take(i as int)),
        decreases items.len() - i,
    {
        let ghost before = out@;
        if i > 0 {
            extend_str(&mut out, " ");
        }
        extend_str(&mut out, items[i].as_str());
        proof {
            let t = texts(items@).take(i + 1);
            assert(t.drop_last() =~= texts(items@).take(i as int));
            assert(t.last() == items@[i as int]@);
            if i == 0 {
                assert(out@ =~= t[0]);
            } else {
                assert(out@ =~= before + " "@ + items@[i as int]@);
            }
        }
        i += 1;
    }
    assert(texts(items@).take(items.len() as int) =~= texts(items@));
    string_of(&out)
}

/// The dedupe lookup command of a plan: the target repo must be a safe GitHub
/// repository and the plan must pass its checks; the search looks for open
/// pull requests of the repository that carry every term.
pub fn target_repo_runner_provider_dedupe_lookup_command(lookup: &TargetRepoRunnerDedupeLookupPlan) -> (r:
    Result<TargetRepoRunnerProviderDedupeLookupCommand, TargetRepoRunnerRuntimeError>)
    ensures
        match github_repo_parts(lookup.target_repo@) {
            None => refuses(r, "provider_dedupe_lookup"@, invalid_repo_message()),
            Some((owner, name)) => match dedupe_lookup_fault(*lookup) {
                Some(message) => refuses(r, "provider_dedupe_lookup"@, message),
                None => r matches Ok(command) && command.provider == lookup.provider
                    && command.target_repo@ == lookup.target_repo@ && command.repository.full_name@
                    == owner + "/"@ + name && command.dedupe_key@ == lookup.key@
                    && command.result_limit == lookup.query.result_limit && command.query.repo@
                    == lookup.target_repo@ && command.query.state
                    == TargetRepoRunnerGithubPullRequestSearchState::Open && texts(
                    command.query.terms@,
                ) == lookup_terms_spec(owner + "/"@ + name, *lookup) && command.query.query@
                    == join_spaces(lookup_terms_spec(owner + "/"@ + name, *lookup)) && texts(
                    command.markers@,
                ) == texts(lookup.query.markers@) && ref_views(command.required_refs@) == ref_views(
                    lookup.query.required_refs@,
                ),
            },
        },
{
    let repository = match github_repository(lookup.target_repo.as_str(), "provider_dedupe_lookup") {
        Ok(repository) => repository,
        Err(e) => return Err(e),
    };
    match validate_provider_dedupe_lookup(lookup) {
        Ok(()) => {},
        Err(e) => return Err(e),
    }
    let terms = provider_dedupe_lookup_terms(&repository, lookup);
    let query = join_with_spaces(&terms);
    Ok(
        TargetRepoRunnerProviderDedupeLookupCommand {
            provider: lookup.provider,
            target_repo: lookup.target_repo.clone(),
            repository,
            dedupe_key: lookup.key.clone(),
            result_limit: lookup.query.result_limit,
            query: TargetRepoRunnerGithubPullRequestSearchCommand {
                repo: lookup.target_repo.clone(),
                state: TargetRepoRunnerGithubPullRequestSearchState::Open,
                query,
                terms,
            },
            markers: copy_texts(&lookup.query.markers),
            required_refs: copy_refs(&lookup.query.required_refs),
        },
    )
}

// ---------------------------------------------------------------------------
// Dedupe lookup readback
// ---------------------------------------------------------------------------

/// A pull request that the provider returned for a dedupe lookup, with the
/// markers and references it carries.
#[derive(Clone, Debug, PartialEq, Eq)]
pub struct TargetRepoRunnerProviderPullRequest {
    pub url: String,
    pub number: Option<u64>,
    pub branch: Option<String>,
    pub open: bool,
    pub markers: Vec<String>,
    pub refs: Vec<Reference>,
}

/// What a dedupe lookup read back.
#[derive(Clone, Debug, PartialEq, Eq)]
pub struct TargetRepoRunnerDedupeLookupObservation {
    pub provider: TargetRepoRunnerProvider,
    pub target_repo: String,
    pub key: String,
    pub pull_requests: Vec<TargetRepoRunnerProviderPullRequest>,
}

/// The message of a readback with more pull requests than asked for.
pub open spec fn exceeded_limit_message() -> Seq<char> {
    "provider lookup readback exceeded the command result limit"@
}

/// The observation of a dedupe lookup from the pull requests it found; more
/// than the command's limit is refused.
pub fn target_repo_runner_provider_dedupe_observation_from_pull_requests(
    command: &TargetRepoRunnerProviderDedupeLookupCommand,
    pull_requests: Vec<TargetRepoRunnerProviderPullRequest>,
) -> (r: Result<TargetRepoRunnerDedupeLookupObservation, TargetRepoRunnerRuntimeError>)
    ensures
        pull_requests@.len() > command.result_limit ==> refuses(
            r,
            "provider_dedupe_lookup"@,
            exceeded_limit_message(),
        ),
        pull_requests@.len() <= command.result_limit ==> (r matches Ok(observation)
            && observation.provider == command.provider && observation.target_repo@
            == command.target_repo@ && observation.key@ == command.dedupe_key@
            && observation.pull_requests@ == pull_requests@),
{
    if pull_requests.len() > command.result_limit as usize {
        return Err(
            command_error(
                "provider_dedupe_lookup",
                "provider lookup readback exceeded the command result limit",
            ),
        );
    }
    Ok(
        TargetRepoRunnerDedupeLookupObservation {
            provider: command.provider,
            target_repo: command.target_repo.clone(),
            key: command.dedupe_key.clone(),
            pull_requests,
        },
    )
}

/// Checks that a dedupe lookup's readback answers its command: same
/// provider, target repo and key, and no more pull requests than asked for.
pub fn validate_provider_dedupe_lookup_observation(
    command: &TargetRepoRunnerProviderDedupeLookupCommand,
    observation: &TargetRepoRunnerDedupeLookupObservation,
) -> (r: Result<(), TargetRepoRunnerRuntimeError>)
    ensures
        if observation.provider != command.provider {
            refuses(r, "provider_dedupe_lookup"@, "provider lookup readback provider does not match command"@)
        } else if observation.target_repo@ != command.target_repo@ {
            refuses(r, "provider_dedupe_lookup"@, "provider lookup readback target repo does not match command"@)
        } else if observation.key@ != command.dedupe_key@ {
            refuses(r, "provider_dedupe_lookup"@, "provider lookup readback dedupe key does not match command"@)
        } else if observation.pull_requests@.len() > command.result_limit {
            refuses(r, "provider_dedupe_lookup"@, exceeded_limit_message())
        } else {
            r is Ok
        },
{
    if observation.provider != command.provider {
        return Err(
            command_error(
                "provider_dedupe_lookup",
                "provider lookup readback provider does not match command",
            ),
        );
    }
    if !str_eq(observation.target_repo.as_str(), command.target_repo.as_str()) {
        return Err(
            command_error(
                "provider_dedupe_lookup",
                "provider lookup readback target repo does not match command",
            ),
        );
    }
    if !str_eq(observation.key.as_str(), command.dedupe_key.as_str()) {
        return Err(
            command_error(
                "provider_dedupe_lookup",
                "provider lookup readback dedupe key does not match command",
            ),
        );
    }
    if observation.pull_requests.len() > command.result_limit as usize {
        return Err(
            command_error(
                "provider_dedupe_lookup",
                "provider lookup readback exceeded the command result limit",
            ),
        );
    }
    Ok(())
}

/// An item of a GitHub issue search: a pull request where `pull_request`.
#[derive(Clone, Debug, PartialEq, Eq)]
pub struct GithubIssueSearchItem {
    pub html_url: String,
    pub number: Option<u64>,
    pub state: Option<String>,
    pub title: Option<String>,
    pub body: Option<String>,
    pub pull_request: bool,
}

/// The text of a search item that markers and references are looked for in:
/// its title and body, where present, on separate lines.
pub open spec fn item_text(item: GithubIssueSearchItem) -> Seq<char> {
    match (item.title, item.body) {
        (Some(t), Some(b)) => t@ + "\n"@ + b@,
        (Some(t), None) => t@,
        (None, Some(b)) => b@,
        (None, None) => Seq::empty(),
    }
}

/// The texts of `items` that `text` contains, in order.
pub open spec fn found_texts(items: Seq<Seq<char>>, text: Seq<char>) -> Seq<Seq<char>>
    decreases items.len(),
{
    if items.len() == 0 {
        Seq::empty()
    } else if contains(text, items.last()) {
        found_texts(items.drop_last(), text).push(items.last())
    } else {
        found_texts(items.drop_last(), text)
    }
}

/// The references whose URI `text` contains, in order.
pub open spec fn found_refs(refs: Seq<Reference>, text: Seq<char>) -> Seq<
    (Seq<char>, Seq<char>, Option<Seq<char>>, Option<Seq<char>>, Option<Seq<char>>),
>
    decreases refs.len(),
{
    if refs.len() == 0 {
        Seq::empty()
    } else if contains(text, refs.last().uri@) {
        found_refs(refs.drop_last(), text).push(refs.last()@)
    } else {
        found_refs(refs.drop_last(), text)
    }
}

fn found_markers(markers: &Vec<String>, text: &str) -> (r: Vec<String>)
    ensures
        texts(r@) == found_texts(texts(markers@), text@),
{
    let mut out: Vec<String> = Vec::new();
    let mut i: usize = 0;
    while i < markers.len()
        invariant
            i <= markers.len(),
            texts(out@) == found_texts(texts(markers@).take(i as int), text@),
        decreases markers.len() - i,
    {
        assert(texts(markers@).take(i + 1).drop_last() =~= texts(markers@).take(i as int));
        assert(texts(markers@).take(i + 1).last() == markers@[i as int]@);
        if str_contains(text, markers[i].as_str()) {
            let ghost before = out@;
            out.push(markers[i].clone());
            assert(texts(out@) =~= texts(before).push(markers@[i as int]@));
        }
        i += 1;
    }
    assert(texts(markers@).take(markers.len() as int) =~= texts(markers@));
    out
}

fn found_references(refs: &Vec<Reference>, text: &str) -> (r: Vec<Reference>)
    ensures
        ref_views(r@) == found_refs(refs@, text@),
{
    let mut out: Vec<Reference> = Vec::new();
    let mut i: usize = 0;
    while i < refs.len()
        invariant
            i <= refs.len(),
            ref_views(out@) == found_refs(refs@.take(i as int), text@),
        decreases refs.len() - i,
    {
        assert(refs@.take(i + 1).drop_last() =~= refs@.take(i as int));
        assert(refs@.take(i + 1).last() == refs@[i as int]);
        if str_contains(text, refs[i].uri.as_str()) {
            let ghost before = out@;
            out.push(refs[i].duplicate());
            assert(ref_views(out@) =~= ref_views(before).push(refs@[i as int]@));
        }
        i += 1;
    }
    assert(refs@.take(refs.len() as int) =~= refs@);
    out
}

/// The pull request that a search item shows, where it is a pull request of
/// the command's repo: open unless its state says otherwise.
pub fn github_search_item_to_pull_request(
    command: &TargetRepoRunnerProviderDedupeLookupCommand,
    item: GithubIssueSearchItem,
) -> (r: Option<TargetRepoRunnerProviderPullRequest>)
    ensures
        !item.pull_request || !crate::text::starts_with(
            item.html_url@,
            "https://github.com/"@ + command.target_repo@ + "/pull/"@,
        ) ==> r is None,
        item.pull_request && crate::text::starts_with(
            item.html_url@,
            "https://github.com/"@ + command.target_repo@ + "/pull/"@,
        ) ==> (r matches Some(pr) && pr.url@ == item.html_url@ && pr.number == item.number
            && pr.branch is None && pr.open == match item.state {
            None => true,
            Some(state) => crate::text::ascii_lowercase(state@) == "open"@,
        } && texts(pr.markers@) == found_texts(texts(command.markers@), item_text(item))
            && ref_views(pr.refs@) == found_refs(command.required_refs@, item_text(item))),
{
    if !item.pull_request {
        return None;
    }
    let prefix = concat3("https://github.com/", command.target_repo.as_str(), "/pull/");
    let url_chars = chars_of(item.html_url.as_str());
    let prefix_chars = chars_of(prefix.as_str());
    if !crate::text::starts_with_chars(&url_chars, &prefix_chars) {
        return None;
    }
    let text = match (&item.title, &item.body) {
        (Some(t), Some(b)) => concat3(t.as_str(), "\n", b.as_str()),
        (Some(t), None) => t.clone(),
        (None, Some(b)) => b.clone(),
        (None, None) => String::new(),
    };
    let markers = found_markers(&command.markers, text.as_str());
    let refs = found_references(&command.required_refs, text.as_str());
    let open = match &item.state {
        None => true,
        Some(state) => {
            let lowered = crate::text::lowercase_ascii(&chars_of(state.as_str()));
            let target = chars_of("open");
            crate::text::chars_eq(&lowered, &target)
        },
    };
    Some(
        TargetRepoRunnerProviderPullRequest {
            url: item.html_url,
            number: item.number,
            branch: None,
            open,
            markers,
            refs,
        },
    )
}

// ---------------------------------------------------------------------------
// Branches and commits
// ---------------------------------------------------------------------------

/// `value` with every character but ASCII letters and digits turned into `_`.
pub open spec fn safe_id_spec(value: Seq<char>) -> Seq<char> {
    value.map_values(|c: char| if is_ascii_alnum(c) { c } else { '_' })
}

/// `value` with every character but ASCII letters and digits turned into `_`.
pub fn safe_id(value: &str) -> (r: String)
    ensures
        r@ == safe_id_spec(value@),
{
    let chars = chars_of(value);
    let mut out: Vec<char> = Vec::new();
    let mut i: usize = 0;
    while i < chars.len()
        invariant
            i <= chars.len(),
            out@ == safe_id_spec(chars@.take(i as int)),
        decreases chars.len() - i,
    {
        let c = chars[i];
        if crate::text::ascii_alnum(c) {
            out.push(c);
        } else {
            out.push('_');
        }
        assert(out@ =~= safe_id_spec(chars@.take(i + 1)));
        i += 1;
    }
    assert(chars@.take(chars.len() as int) =~= chars@);
    string_of(&out)
}

/// The first 12 hex digits of the SHA-256 digest of a key.
pub open spec fn short_key_hash_spec(value: Seq<char>) -> Seq<char> {
    lower_hex(sha256_digest(utf8(value)).take(6))
}

/// The first 12 hex digits of the SHA-256 digest of a key.
pub fn short_key_hash(value: &str) -> (r: String)
    ensures
        r@ == short_key_hash_spec(value@),
{
    let digest = sha256_of_str(value);
    lower_hex_prefix(&digest, 6)
}

/// The branch that the runner pushes for a target repo and dedupe key.
pub open spec fn branch_name_spec(target_repo: Seq<char>, dedupe_key: Seq<char>) -> Seq<char> {
    "runx/"@ + safe_id_spec(target_repo) + "/"@ + short_key_hash_spec(dedupe_key)
}

/// The branch that the runner pushes for a target repo and dedupe key.
pub fn target_repo_runner_branch_name(target_repo: &str, dedupe_key: &str) -> (r: String)
    ensures
        r@ == branch_name_spec(target_repo@, dedupe_key@),
{
    let id = safe_id(target_repo);
    let hash = short_key_hash(dedupe_key);
    let head = concat3("runx/", id.as_str(), "/");
    concat(head.as_str(), hash.as_str())
}

/// A character that no branch name may hold.
pub open spec fn unsafe_branch_char(c: char) -> bool {
    is_control(c) || crate::text::is_whitespace(c) || c == '\\'
}

/// A branch name that git and the provider accept as given: not blank, no
/// leading or trailing `/`, no `..`, no control characters, whitespace or
/// backslashes.
pub open spec fn safe_branch(branch: Seq<char>) -> bool {
    &&& !is_blank(branch)
    &&& !(branch.len() > 0 && branch[0] == '/')
    &&& !(branch.len() > 0 && branch.last() == '/')
    &&& !contains(branch, ".."@)
    &&& forall|i: int| 0 <= i < branch.len() ==> !unsafe_branch_char(#[trigger] branch[i])
}

/// Checks a branch name for `operation`.
pub fn validate_branch_for_operation(branch: &str, operation: &'static str) -> (r: Result<
    (),
    TargetRepoRunnerRuntimeError,
>)
    ensures
        safe_branch(branch@) ==> r is Ok,
        !safe_branch(branch@) ==> refuses(r, operation@, "git branch is not a safe branch name"@),
{
    let chars = chars_of(branch);
    let dots = chars_of("..");
    if crate::text::blank_str(branch) || (chars.len() > 0 && chars[0] == '/') || (chars.len() > 0
        && chars[chars.len() - 1] == '/') || crate::text::contains_chars(&chars, &dots)
        || !no_unsafe_branch_chars(&chars) {
        return Err(command_error(operation, "git branch is not a safe branch name"));
    }
    Ok(())
}

fn no_unsafe_branch_chars(chars: &Vec<char>) -> (b: bool)
    ensures
        b == forall|i: int| 0 <= i < chars@.len() ==> !unsafe_branch_char(#[trigger] chars@[i]),
{
    let mut i: usize = 0;
    while i < chars.len()
        invariant
            i <= chars.len(),
            forall|k: int| 0 <= k < i ==> !unsafe_branch_char(#[trigger] chars@[k]),
        decreases chars.len() - i,
    {
        let c = chars[i];
        if crate::text::control(c) || crate::text::whitespace(c) || c == '\\' {
            return false;
        }
        i += 1;
    }
    true
}

/// A commit id: 40 hexadecimal digits.
pub open spec fn valid_head_sha(sha: Seq<char>) -> bool {
    sha.len() == 40 && crate::text::all_hexdigits(sha)
}

/// Checks a commit id for `operation`.
pub fn validate_head_sha(head_sha: &str, operation: &'static str) -> (r: Result<
    (),
    TargetRepoRunnerRuntimeError,
>)
    ensures
        valid_head_sha(head_sha@) ==> r is Ok,
        !valid_head_sha(head_sha@) ==> refuses(
            r,
            operation@,
            "head sha must be a 40 character hex commit"@,
        ),
{
    let chars = chars_of(head_sha);
    if chars.len() != 40 || !crate::text::all_ascii_hexdigits(&chars) {
        return Err(command_error(operation, "head sha must be a 40 character hex commit"));
    }
    Ok(())
}

// ---------------------------------------------------------------------------
// Execution plans and observations
// ---------------------------------------------------------------------------

/// Where the runner checks the target out.
#[derive(Clone, Debug, PartialEq, Eq)]
pub struct TargetRepoRunnerCheckoutPlan {
    pub target_repo: String,
    pub base_branch: String,
}

/// The provider lookup of an execution plan.
#[derive(Clone, Debug, PartialEq, Eq)]
pub struct TargetRepoRunnerProviderLookupPlan {
    pub provider: TargetRepoRunnerProvider,
    pub key: String,
    pub markers: Vec<String>,
}

/// The readiness that planning observed.
#[derive(Clone, Debug, PartialEq, Eq)]
pub struct TargetRepoRunnerReadinessPlan {
    pub runner_id: String,
    pub scafld_ready: bool,
}

/// A planned execution of the runner against a target repo.
#[derive(Clone, Debug, PartialEq, Eq)]
pub struct TargetRepoRunnerExecutionPlan {
    pub checkout: TargetRepoRunnerCheckoutPlan,
    pub provider_lookup: TargetRepoRunnerProviderLookupPlan,
    pub readiness: TargetRepoRunnerReadinessPlan,
    pub target_repo_ref: Reference,
    pub source_issue_ref: Option<Reference>,
    pub source_thread_ref: Reference,
}

/// A pull request that a dedupe lookup found.
#[derive(Clone, Debug, PartialEq, Eq)]
pub struct TargetRepoRunnerExistingPullRequest {
    pub url: String,
    pub number: Option<u64>,
    pub branch: Option<String>,
}

impl View for TargetRepoRunnerExistingPullRequest {
    type V = (Seq<char>, Option<u64>, Option<Seq<char>>);

    open spec fn view(&self) -> (Seq<char>, Option<u64>, Option<Seq<char>>) {
        (self.url@, self.number, opt_text(self.branch))
    }
}

impl TargetRepoRunnerExistingPullRequest {
    /// A copy of the pull request.
    pub fn duplicate(&self) -> (r: Self)
        ensures
            r@ == self@,
    {
        TargetRepoRunnerExistingPullRequest {
            url: self.url.clone(),
            number: self.number,
            branch: copy_opt(&self.branch),
        }
    }
}

/// The outcome of a dedupe lookup: its key, and the open pull request it
/// found, if any.
#[derive(Clone, Debug, PartialEq, Eq)]
pub struct TargetRepoRunnerDedupeLookupExecution {
    pub key: String,
    pub existing_pull_request: Option<TargetRepoRunnerExistingPullRequest>,
}

/// What the governed runner reported.
#[derive(Clone, Debug, PartialEq, Eq)]
pub struct TargetRepoRunnerGovernedRunnerObservation {
    pub target_repo: String,
    pub runner_id: String,
    pub summary: String,
    pub revision_refs: Vec<Reference>,
    pub artifact_refs: Vec<Reference>,
    pub verification_refs: Vec<Reference>,
}

/// What the git mutation read back.
#[derive(Clone, Debug, PartialEq, Eq)]
pub struct TargetRepoRunnerGitMutationObservation {
    pub target_repo: String,
    pub branch: String,
    pub head_sha: String,
    pub revision_refs: Vec<Reference>,
    pub verification_refs: Vec<Reference>,
}

/// The git mutation to perform: push the runner's revision to the dedupe
/// branch.
#[derive(Clone, Debug, PartialEq, Eq)]
pub struct TargetRepoRunnerGitMutationCommand {
    pub provider: TargetRepoRunnerProvider,
    pub target_repo: String,
    pub repository: TargetRepoRunnerGithubRepository,
    pub target_repo_ref: Reference,
    pub base_branch: String,
    pub branch: String,
    pub dedupe_key: String,
    pub source_issue_ref: Option<Reference>,
    pub source_thread_ref: Reference,
    pub runner_id: String,
    pub runner_summary: String,
    pub runner_revision_refs: Vec<Reference>,
    pub artifact_refs: Vec<Reference>,
    pub verification_refs: Vec<Reference>,
    pub human_merge_gate_required: bool,
    pub local_path_hidden: bool,
}

/// An optional reference as its view.
pub open spec fn opt_ref(value: Option<Reference>) -> Option<
    (Seq<char>, Seq<char>, Option<Seq<char>>, Option<Seq<char>>, Option<Seq<char>>),
> {
    match value {
        Some(r) => Some(r@),
        None => None,
    }
}

fn copy_opt_ref(value: &Option<Reference>) -> (r: Option<Reference>)
    ensures
        opt_ref(r) == opt_ref(*value),
{
    match value {
        Some(r) => Some(r.duplicate()),
        None => None,
    }
}

/// The git mutation command of an execution: the runner must have worked on
/// the execution's target, which must be a safe GitHub repository, and the
/// dedupe branch must be safe.
pub fn target_repo_runner_git_mutation_command(
    execution_plan: &TargetRepoRunnerExecutionPlan,
    dedupe_execution: &TargetRepoRunnerDedupeLookupExecution,
    runner_observation: &TargetRepoRunnerGovernedRunnerObservation,
) -> (r: Result<TargetRepoRunnerGitMutationCommand, TargetRepoRunnerRuntimeError>)
    ensures
        ({
            let target = execution_plan.checkout.target_repo@;
            let branch = branch_name_spec(target, dedupe_execution.key@);
            if runner_observation.target_repo@ != target {
                refuses(r, "git_mutation"@, "runner observation target repo does not match execution target"@)
            } else if github_repo_parts(target) is None {
                refuses(r, "git_mutation"@, invalid_repo_message())
            } else if !safe_branch(branch) {
                refuses(r, "git_mutation"@, "git branch is not a safe branch name"@)
            } else {
                r matches Ok(command) && command.provider == execution_plan.provider_lookup.provider
                    && command.target_repo@ == target && command.repository.full_name@ == target
                    && command.target_repo_ref@ == execution_plan.target_repo_ref@
                    && command.base_branch@ == execution_plan.checkout.base_branch@
                    && command.branch@ == branch && command.dedupe_key@
                    == execution_plan.provider_lookup.key@ && opt_ref(command.source_issue_ref)
                    == opt_ref(execution_plan.source_issue_ref) && command.source_thread_ref@
                    == execution_plan.source_thread_ref@ && command.runner_id@
                    == runner_observation.runner_id@ && command.runner_summary@
                    == runner_observation.summary@ && ref_views(command.runner_revision_refs@)
                    == ref_views(runner_observation.revision_refs@) && ref_views(
                    command.artifact_refs@,
                ) == ref_views(runner_observation.artifact_refs@) && ref_views(
                    command.verification_refs@,
                ) == ref_views(runner_observation.verification_refs@)
                    && command.human_merge_gate_required && command.local_path_hidden
            }
        }),
{
    if !str_eq(runner_observation.target_repo.as_str(), execution_plan.checkout.target_repo.as_str()) {
        return Err(
            command_error(
                "git_mutation",
                "runner observation target repo does not match execution target",
            ),
        );
    }
    let repository = match github_repository(execution_plan.checkout.target_repo.as_str(), "git_mutation") {
        Ok(repository) => repository,
        Err(e) => return Err(e),
    };
    proof {
        crate::text::lemma_split_once_rejoin(execution_plan.checkout.target_repo@, '/');
        reveal_strlit("/");
        assert("/"@ =~= seq!['/']);
    }
    let branch = target_repo_runner_branch_name(
        execution_plan.checkout.target_repo.as_str(),
        dedupe_execution.key.as_str(),
    );
    match validate_branch_for_operation(branch.as_str(), "git_mutation") {
        Ok(()) => {},
        Err(e) => return Err(e),
    }
    Ok(
        TargetRepoRunnerGitMutationCommand {
            provider: execution_plan.provider_lookup.provider,
            target_repo: execution_plan.checkout.target_repo.clone(),
            repository,
            target_repo_ref: execution_plan.target_repo_ref.duplicate(),
            base_branch: execution_plan.checkout.base_branch.clone(),
            branch,
            dedupe_key: execution_plan.provider_lookup.key.clone(),
            source_issue_ref: copy_opt_ref(&execution_plan.source_issue_ref),
            source_thread_ref: execution_plan.source_thread_ref.duplicate(),
            runner_id: runner_observation.runner_id.clone(),
            runner_summary: runner_observation.summary.clone(),
            runner_revision_refs: copy_refs(&runner_observation.revision_refs),
            artifact_refs: copy_refs(&runner_observation.artifact_refs),
            verification_refs: copy_refs(&runner_observation.verification_refs),
            human_merge_gate_required: true,
            local_path_hidden: true,
        },
    )
}

/// Checks that a git mutation's readback answers its command: same target
/// and branch, a safe branch and a commit id.
pub fn validate_git_mutation_readback(
    command: &TargetRepoRunnerGitMutationCommand,
    observation: &TargetRepoRunnerGitMutationObservation,
) -> (r: Result<(), TargetRepoRunnerRuntimeError>)
    ensures
        if observation.target_repo@ != command.target_repo@ {
            refuses(r, "git_mutation"@, "git mutation readback target repo does not match command"@)
        } else if observation.branch@ != command.branch@ {
            refuses(r, "git_mutation"@, "git mutation readback branch does not match command"@)
        } else if !safe_branch(observation.branch@) {
            refuses(r, "git_mutation"@, "git branch is not a safe branch name"@)
        } else if !valid_head_sha(observation.head_sha@) {
            refuses(r, "git_mutation"@, "head sha must be a 40 character hex commit"@)
        } else {
            r is Ok
        },
{
    if !str_eq(observation.target_repo.as_str(), command.target_repo.as_str()) {
        return Err(
            command_error("git_mutation", "git mutation readback target repo does not match command"),
        );
    }
    if !str_eq(observation.branch.as_str(), command.branch.as_str()) {
        return Err(
            command_error("git_mutation", "git mutation readback branch does not match command"),
        );
    }
    match validate_branch_for_operation(observation.branch.as_str(), "git_mutation") {
        Ok(()) => {},
        Err(e) => return Err(e),
    }
    validate_head_sha(observation.head_sha.as_str(), "git_mutation")
}

/// What readiness the runner observed before running.
#[derive(Clone, Debug, PartialEq, Eq)]
pub struct TargetRepoRunnerReadinessObservation {
    pub target_repo: String,
    pub runner_id: String,
    pub scafld_ready: bool,
}

/// Checks that the readiness observed still matches the plan.
pub fn validate_readiness_boundary(
    execution_plan: &TargetRepoRunnerExecutionPlan,
    readiness: &TargetRepoRunnerReadinessObservation,
) -> (r: Result<(), TargetRepoRunnerRuntimeError>)
    ensures
        if readiness.target_repo@ != execution_plan.checkout.target_repo@ {
            r matches Err(TargetRepoRunnerRuntimeError::ReadinessMismatch(m)) && m@
                == "readiness target '"@ + readiness.target_repo@
                + "' does not match execution target '"@ + execution_plan.checkout.target_repo@
                + "'"@
        } else if readiness.runner_id@ != execution_plan.readiness.runner_id@ {
            r matches Err(TargetRepoRunnerRuntimeError::ReadinessMismatch(m)) && m@
                == "readiness runner '"@ + readiness.runner_id@
                + "' does not match execution runner '"@ + execution_plan.readiness.runner_id@
                + "'"@
        } else if readiness.scafld_ready != execution_plan.readiness.scafld_ready {
            r matches Err(TargetRepoRunnerRuntimeError::ReadinessMismatch(m)) && m@
                == "readiness observation changed after execution planning"@
        } else {
            r is Ok
        },
{
    if !str_eq(readiness.target_repo.as_str(), execution_plan.checkout.target_repo.as_str()) {
        let head = concat3(
            "readiness target '",
            readiness.target_repo.as_str(),
            "' does not match execution target '",
        );
        let message = concat3(head.as_str(), execution_plan.checkout.target_repo.as_str(), "'");
        return Err(TargetRepoRunnerRuntimeError::ReadinessMismatch(message));
    }
    if !str_eq(readiness.runner_id.as_str(), execution_plan.readiness.runner_id.as_str()) {
        let head = concat3(
            "readiness runner '",
            readiness.runner_id.as_str(),
            "' does not match execution runner '",
        );
        let message = concat3(head.as_str(), execution_plan.readiness.runner_id.as_str(), "'");
        return Err(TargetRepoRunnerRuntimeError::ReadinessMismatch(message));
    }
    if readiness.scafld_ready != execution_plan.readiness.scafld_ready {
        return Err(
            TargetRepoRunnerRuntimeError::ReadinessMismatch(
                String::from_str("readiness observation changed after execution planning"),
            ),
        );
    }
    Ok(())
}

// ---------------------------------------------------------------------------
// Pull-request mutations
// ---------------------------------------------------------------------------

/// Whether the runner opens a new pull request or reuses the one the dedupe
/// lookup found.
#[derive(Clone, Copy, Debug, PartialEq, Eq, Structural)]
pub enum TargetRepoRunnerPullRequestDisposition {
    Create,
    Reuse,
}

/// A pull request to create.
#[derive(Clone, Debug, PartialEq, Eq)]
pub struct TargetRepoRunnerPullRequestCreateCommand {
    pub title: String,
    pub body: String,
    pub head_branch: String,
    pub head_sha: String,
    pub runner_id: String,
    pub runner_summary: String,
    pub runner_revision_refs: Vec<Reference>,
    pub git_revision_refs: Vec<Reference>,
    pub artifact_refs: Vec<Reference>,
    pub verification_refs: Vec<Reference>,
    pub git_verification_refs: Vec<Reference>,
}

/// A pull request to reuse.
#[derive(Clone, Debug, PartialEq, Eq)]
pub struct TargetRepoRunnerPullRequestReuseCommand {
    pub existing_pull_request: TargetRepoRunnerExistingPullRequest,
    pub reason: String,
}

/// The pull-request mutation to perform.
#[derive(Clone, Debug, PartialEq, Eq)]
pub enum TargetRepoRunnerPullRequestMutation {
    Create(TargetRepoRunnerPullRequestCreateCommand),
    Reuse(TargetRepoRunnerPullRequestReuseCommand),
}

/// A pull-request mutation command; a human must merge.
#[derive(Clone, Debug, PartialEq, Eq)]
pub struct TargetRepoRunnerPullRequestMutationCommand {
    pub provider: TargetRepoRunnerProvider,
    pub disposition: TargetRepoRunnerPullRequestDisposition,
    pub target_repo: String,
    pub repository: TargetRepoRunnerGithubRepository,
    pub target_repo_ref: Reference,
    pub base_branch: String,
    pub dedupe_key: String,
    pub source_issue_ref: Option<Reference>,
    pub source_thread_ref: Reference,
    pub mutation: TargetRepoRunnerPullRequestMutation,
    pub human_merge_gate_required: bool,
    pub local_path_hidden: bool,
}

/// What the provider read back of a pull-request mutation.
#[derive(Clone, Debug, PartialEq, Eq)]
pub struct TargetRepoRunnerPullRequestObservation {
    pub provider: TargetRepoRunnerProvider,
    pub target_repo: String,
    pub pull_request: TargetRepoRunnerExistingPullRequest,
    pub head_branch: Option<String>,
    pub head_sha: Option<String>,
}

/// The title of a new pull request.
pub open spec fn create_title_spec(target_repo: Seq<char>) -> Seq<char> {
    "Runx target update for "@ + target_repo
}

/// Markers as a list, one `- marker` line each.
pub open spec fn marker_lines(markers: Seq<Seq<char>>) -> Seq<char>
    decreases markers.len(),
{
    if markers.len() == 0 {
        Seq::empty()
    } else if markers.len() == 1 {
        "- "@ + markers[0]
    } else {
        marker_lines(markers.drop_last()) + "\n- "@ + markers.last()
    }
}

/// The body of a new pull request.
pub open spec fn create_body_spec(
    plan: TargetRepoRunnerExecutionPlan,
    dedupe_key: Seq<char>,
    runner: TargetRepoRunnerGovernedRunnerObservation,
    git: TargetRepoRunnerGitMutationObservation,
) -> Seq<char> {
    let source_issue = match plan.source_issue_ref {
        Some(r) => r.uri@,
        None => "none"@,
    };
    "Runx target runner prepared this pull request for human review.\n\nTarget repo: "@
        + plan.checkout.target_repo@ + "\nHead branch: "@ + git.branch@ + "\nHead commit: "@
        + git.head_sha@ + "\nSource thread: "@ + plan.source_thread_ref.uri@
        + "\nSource issue: "@ + source_issue + "\nDedupe key: "@ + dedupe_key
        + "\n\nDedupe markers:\n"@ + marker_lines(texts(plan.provider_lookup.markers@))
        + "\n\nRunner: "@ + runner.runner_id@ + "\n"@ + runner.summary@
        + "\n\nHuman review remains the merge gate."@
}

fn marker_lines_exec(markers: &Vec<String>) -> (r: Vec<char>)
    ensures
        r@ == marker_lines(texts(markers@)),
{
    let mut out: Vec<char> = Vec::new();
    let mut i: usize = 0;
    while i < markers.len()
        invariant
            i <= markers.len(),
            out@ == marker_lines(texts(markers@).take(i as int)),
        decreases markers.len() - i,
    {
        let ghost before = out@;
        if i > 0 {
            extend_str(&mut out, "\n- ");
        } else {
            extend_str(&mut out, "- ");
        }
        extend_str(&mut out, markers[i].as_str());
        proof {
            let t = texts(markers@).take(i + 1);
            assert(t.drop_last() =~= texts(markers@).take(i as int));
            assert(t.last() == markers@[i as int]@);
            if i == 0 {
                assert(t[0] == markers@[0]@);
            }
        }
        i += 1;
    }
    assert(texts(markers@).take(markers.len() as int) =~= texts(markers@));
    out
}

fn pull_request_create_body(
    plan: &TargetRepoRunnerExecutionPlan,
    dedupe_key: &str,
    runner: &TargetRepoRunnerGovernedRunnerObservation,
    git: &TargetRepoRunnerGitMutationObservation,
) -> (r: String)
    ensures
        r@ == create_body_spec(*plan, dedupe_key@, *runner, *git),
{
    let mut out = chars_of(
        "Runx target runner prepared this pull request for human review.\n\nTarget repo: ",
    );
    extend_str(&mut out, plan.checkout.target_repo.as_str());
    extend_str(&mut out, "\nHead branch: ");
    extend_str(&mut out, git.branch.as_str());
    extend_str(&mut out, "\nHead commit: ");
    extend_str(&mut out, git.head_sha.as_str());
    extend_str(&mut out, "\nSource thread: ");
    extend_str(&mut out, plan.source_thread_ref.uri.as_str());
    extend_str(&mut out, "\nSource issue: ");
    match &plan.source_issue_ref {
        Some(r) => extend_str(&mut out, r.uri.as_str()),
        None => extend_str(&mut out, "none"),
    }
    extend_str(&mut out, "\nDedupe key: ");
    extend_str(&mut out, dedupe_key);
    extend_str(&mut out, "\n\nDedupe markers:\n");
    let markers = marker_lines_exec(&plan.provider_lookup.markers);
    crate::text::extend_chars(&mut out, &markers);
    extend_str(&mut out, "\n\nRunner: ");
    extend_str(&mut out, runner.runner_id.as_str());
    extend_str(&mut out, "\n");
    extend_str(&mut out, runner.summary.as_str());
    extend_str(&mut out, "\n\nHuman review remains the merge gate.");
    string_of(&out)
}

/// Why a created pull request's git readback does not fit the execution,
/// if it does not.
pub open spec fn git_readback_fault(
    plan: TargetRepoRunnerExecutionPlan,
    dedupe_key: Seq<char>,
    git: TargetRepoRunnerGitMutationObservation,
) -> Option<Seq<char>> {
    if git.target_repo@ != plan.checkout.target_repo@ {
        Some("git mutation readback target repo does not match execution target"@)
    } else if git.branch@ != branch_name_spec(plan.checkout.target_repo@, dedupe_key) {
        Some("git mutation readback branch does not match the dedupe branch"@)
    } else if !safe_branch(git.branch@) {
        Some("git branch is not a safe branch name"@)
    } else if !valid_head_sha(git.head_sha@) {
        Some("head sha must be a 40 character hex commit"@)
    } else {
        None
    }
}

fn validate_pull_request_git_readback(
    plan: &TargetRepoRunnerExecutionPlan,
    dedupe_execution: &TargetRepoRunnerDedupeLookupExecution,
    git: &TargetRepoRunnerGitMutationObservation,
) -> (r: Result<(), TargetRepoRunnerRuntimeError>)
    ensures
        match git_readback_fault(*plan, dedupe_execution.key@, *git) {
            None => r is Ok,
            Some(message) => refuses(r, "pull_request"@, message),
        },
{
    if !str_eq(git.target_repo.as_str(), plan.checkout.target_repo.as_str()) {
        return Err(
            command_error(
                "pull_request",
                "git mutation readback target repo does not match execution target",
            ),
        );
    }
    let expected = target_repo_runner_branch_name(
        plan.checkout.target_repo.as_str(),
        dedupe_execution.key.as_str(),
    );
    if !str_eq(git.branch.as_str(), expected.as_str()) {
        return Err(
            command_error(
                "pull_request",
                "git mutation readback branch does not match the dedupe branch",
            ),
        );
    }
    match validate_branch_for_operation(git.branch.as_str(), "pull_request") {
        Ok(()) => {},
        Err(e) => return Err(e),
    }
    validate_head_sha(git.head_sha.as_str(), "pull_request")
}

/// Why a pull-request mutation command cannot be made, if it cannot.
pub open spec fn pull_request_command_fault(
    plan: TargetRepoRunnerExecutionPlan,
    dedupe: TargetRepoRunnerDedupeLookupExecution,
    disposition: TargetRepoRunnerPullRequestDisposition,
    runner: Option<TargetRepoRunnerGovernedRunnerObservation>,
    git: Option<TargetRepoRunnerGitMutationObservation>,
) -> Option<Seq<char>> {
    if github_repo_parts(plan.checkout.target_repo@) is None {
        Some(invalid_repo_message())
    } else {
        match disposition {
            TargetRepoRunnerPullRequestDisposition::Create => match (runner, git) {
                (None, _) => Some("runner observation is required before creating a pull request"@),
                (Some(_), None) => Some(
                    "git mutation readback is required before creating a pull request"@,
                ),
                (Some(_), Some(g)) => git_readback_fault(plan, dedupe.key@, g),
            },
            TargetRepoRunnerPullRequestDisposition::Reuse => if git is Some {
                Some("git mutation readback must not be supplied when reusing a pull request"@)
            } else if dedupe.existing_pull_request is None {
                Some("existing pull request is required for reuse"@)
            } else {
                None
            },
        }
    }
}

/// The mutation a command carries, as it must be for its inputs.
pub open spec fn mutation_matches(
    mutation: TargetRepoRunnerPullRequestMutation,
    plan: TargetRepoRunnerExecutionPlan,
    dedupe: TargetRepoRunnerDedupeLookupExecution,
    disposition: TargetRepoRunnerPullRequestDisposition,
    runner: Option<TargetRepoRunnerGovernedRunnerObservation>,
    git: Option<TargetRepoRunnerGitMutationObservation>,
) -> bool {
    match disposition {
        TargetRepoRunnerPullRequestDisposition::Create => {
            let r = runner->0;
            let g = git->0;
            mutation matches TargetRepoRunnerPullRequestMutation::Create(c) && c.title@
                == create_title_spec(plan.checkout.target_repo@) && c.body@ == create_body_spec(
                plan,
                dedupe.key@,
                r,
                g,
            ) && c.head_branch@ == g.branch@ && c.head_sha@ == g.head_sha@ && c.runner_id@
                == r.runner_id@ && c.runner_summary@ == r.summary@ && ref_views(
                c.runner_revision_refs@,
            ) == ref_views(r.revision_refs@) && ref_views(c.git_revision_refs@) == ref_views(
                g.revision_refs@,
            ) && ref_views(c.artifact_refs@) == ref_views(r.artifact_refs@) && ref_views(
                c.verification_refs@,
            ) == ref_views(r.verification_refs@) && ref_views(c.git_verification_refs@)
                == ref_views(g.verification_refs@)
        },
        TargetRepoRunnerPullRequestDisposition::Reuse => mutation matches TargetRepoRunnerPullRequestMutation::Reuse(
            u,
        ) && u.existing_pull_request@ == dedupe.existing_pull_request->0@ && u.reason@
            == "Provider dedupe returned a matching open pull request."@,
    }
}

/// The pull-request mutation command of an execution: create a pull request
/// from the runner's and git's readback, or reuse the one the dedupe lookup
/// found.
pub fn target_repo_runner_pull_request_mutation_command(
    execution_plan: &TargetRepoRunnerExecutionPlan,
    dedupe_execution: &TargetRepoRunnerDedupeLookupExecution,
    disposition: TargetRepoRunnerPullRequestDisposition,
    runner_observation: Option<&TargetRepoRunnerGovernedRunnerObservation>,
    git_mutation_observation: Option<&TargetRepoRunnerGitMutationObservation>,
) -> (r: Result<TargetRepoRunnerPullRequestMutationCommand, TargetRepoRunnerRuntimeError>)
    ensures
        ({
            let runner = match runner_observation {
                Some(o) => Some(*o),
                None => None,
            };
            let git = match git_mutation_observation {
                Some(o) => Some(*o),
                None => None,
            };
            match pull_request_command_fault(*execution_plan, *dedupe_execution, disposition, runner, git) {
                Some(message) => refuses(r, "pull_request"@, message),
                None => r matches Ok(command) && command.provider
                    == execution_plan.provider_lookup.provider && command.disposition == disposition
                    && command.target_repo@ == execution_plan.checkout.target_repo@
                    && command.repository.full_name@ == execution_plan.checkout.target_repo@
                    && command.target_repo_ref@ == execution_plan.target_repo_ref@
                    && command.base_branch@ == execution_plan.checkout.base_branch@
                    && command.dedupe_key@ == execution_plan.provider_lookup.key@ && opt_ref(
                    command.source_issue_ref,
                ) == opt_ref(execution_plan.source_issue_ref) && command.source_thread_ref@
                    == execution_plan.source_thread_ref@ && mutation_matches(
                    command.mutation,
                    *execution_plan,
                    *dedupe_execution,
                    disposition,
                    runner,
                    git,
                ) && command.human_merge_gate_required && command.local_path_hidden,
            }
        }),
{
    let repository = match github_repository(execution_plan.checkout.target_repo.as_str(), "pull_request") {
        Ok(repository) => repository,
        Err(e) => return Err(e),
    };
    proof {
        crate::text::lemma_split_once_rejoin(execution_plan.checkout.target_repo@, '/');
        reveal_strlit("/");
        assert("/"@ =~= seq!['/']);
    }
    let mutation = match disposition {
        TargetRepoRunnerPullRequestDisposition::Create => {
            let observation = match runner_observation {
                Some(o) => o,
                None => {
                    return Err(
                        command_error(
                            "pull_request",
                            "runner observation is required before creating a pull request",
                        ),
                    )
                },
            };
            let git = match git_mutation_observation {
                Some(g) => g,
                None => {
                    return Err(
                        command_error(
                            "pull_request",
                            "git mutation readback is required before creating a pull request",
                        ),
                    )
                },
            };
            match validate_pull_request_git_readback(execution_plan, dedupe_execution, git) {
                Ok(()) => {},
                Err(e) => return Err(e),
            }
            TargetRepoRunnerPullRequestMutation::Create(
                TargetRepoRunnerPullRequestCreateCommand {
                    title: concat(
                        "Runx target update for ",
                        execution_plan.checkout.target_repo.as_str(),
                    ),
                    body: pull_request_create_body(
                        execution_plan,
                        dedupe_execution.key.as_str(),
                        observation,
                        git,
                    ),
                    head_branch: git.branch.clone(),
                    head_sha: git.head_sha.clone(),
                    runner_id: observation.runner_id.clone(),
                    runner_summary: observation.summary.clone(),
                    runner_revision_refs: copy_refs(&observation.revision_refs),
                    git_revision_refs: copy_refs(&git.revision_refs),
                    artifact_refs: copy_refs(&observation.artifact_refs),
                    verification_refs: copy_refs(&observation.verification_refs),
                    git_verification_refs: copy_refs(&git.verification_refs),
                },
            )
        },
        TargetRepoRunnerPullRequestDisposition::Reuse => {
            if git_mutation_observation.is_some() {
                return Err(
                    command_error(
                        "pull_request",
                        "git mutation readback must not be supplied when reusing a pull request",
                    ),
                );
            }
            let existing = match &dedupe_execution.existing_pull_request {
                Some(existing) => existing.duplicate(),
                None => {
                    return Err(
                        command_error("pull_request", "existing pull request is required for reuse"),
                    )
                },
            };
            TargetRepoRunnerPullRequestMutation::Reuse(
                TargetRepoRunnerPullRequestReuseCommand {
                    existing_pull_request: existing,
                    reason: String::from_str(
                        "Provider dedupe returned a matching open pull request.",
                    ),
                },
            )
        },
    };
    Ok(
        TargetRepoRunnerPullRequestMutationCommand {
            provider: execution_plan.provider_lookup.provider,
            disposition,
            target_repo: execution_plan.checkout.target_repo.clone(),
            repository,
            target_repo_ref: execution_plan.target_repo_ref.duplicate(),
            base_branch: execution_plan.checkout.base_branch.clone(),
            dedupe_key: execution_plan.provider_lookup.key.clone(),
            source_issue_ref: copy_opt_ref(&execution_plan.source_issue_ref),
            source_thread_ref: execution_plan.source_thread_ref.duplicate(),
            mutation,
            human_merge_gate_required: true,
            local_path_hidden: true,
        },
    )
}

/// Why a pull request's readback does not answer its command, if it does
/// not: provider, target repo, URL and number, branch; then for a created
/// pull request its head branch and commit, for a reused one its URL,
/// number and branch as the dedupe lookup found them.
pub open spec fn pull_request_readback_fault(
    command: TargetRepoRunnerPullRequestMutationCommand,
    observation: TargetRepoRunnerPullRequestObservation,
) -> Option<Seq<char>> {
    let pr = observation.pull_request;
    if observation.provider != command.provider {
        Some("pull request readback provider does not match command"@)
    } else if observation.target_repo@ != command.target_repo@ {
        Some("pull request readback target repo does not match command"@)
    } else {
        match pull_request_number_spec(command.repository.full_name@, pr.url@) {
            Err(message) => Some(message),
            Ok(url_number) => if pr.number matches Some(n) && n != url_number {
                Some("pull request readback number does not match its URL"@)
            } else if pr.branch matches Some(b) && !safe_branch(b@) {
                Some("git branch is not a safe branch name"@)
            } else {
                match command.mutation {
                    TargetRepoRunnerPullRequestMutation::Create(create) => match observation.head_branch {
                        None => Some("created pull request readback head branch is required"@),
                        Some(head_branch) => if head_branch@ != create.head_branch@ {
                            Some("created pull request readback head branch does not match command"@)
                        } else {
                            match observation.head_sha {
                                None => Some("created pull request readback head sha is required"@),
                                Some(head_sha) => if head_sha@ != create.head_sha@ {
                                    Some(
                                        "created pull request readback head sha does not match command"@,
                                    )
                                } else {
                                    match pr.branch {
                                        Some(b) => if b@ == create.head_branch@ {
                                            None
                                        } else {
                                            Some(
                                                "created pull request branch does not match git mutation readback"@,
                                            )
                                        },
                                        None => Some("created pull request branch readback is required"@),
                                    }
                                },
                            }
                        },
                    },
                    TargetRepoRunnerPullRequestMutation::Reuse(reuse) => {
                        let existing = reuse.existing_pull_request;
                        if pr.url@ != existing.url@ {
                            Some("reused pull request readback does not match provider dedupe"@)
                        } else if existing.number matches Some(expected) && pr.number != Some(
                            expected,
                        ) {
                            Some("reused pull request number does not match provider dedupe"@)
                        } else if existing.branch matches Some(expected) && pr.branch matches Some(
                            readback,
                        ) && expected@ != readback@ {
                            Some("reused pull request branch does not match provider dedupe"@)
                        } else {
                            None
                        }
                    },
                }
            },
        }
    }
}

/// Checks that a pull request's readback answers its mutation command.
pub fn validate_pull_request_readback(
    command: &TargetRepoRunnerPullRequestMutationCommand,
    observation: &TargetRepoRunnerPullRequestObservation,
) -> (r: Result<(), TargetRepoRunnerRuntimeError>)
    ensures
        match pull_request_readback_fault(*command, *observation) {
            None => r is Ok,
            Some(message) => refuses(r, "pull_request"@, message),
        },
{
    if observation.provider != command.provider {
        return Err(
            command_error("pull_request", "pull request readback provider does not match command"),
        );
    }
    if !str_eq(observation.target_repo.as_str(), command.target_repo.as_str()) {
        return Err(
            command_error(
                "pull_request",
                "pull request readback target repo does not match command",
            ),
        );
    }
    let pull_request = &observation.pull_request;
    let url_number = match github_pull_request_number(
        command.repository.full_name.as_str(),
        pull_request.url.as_str(),
    ) {
        Ok(n) => n,
        Err(e) => return Err(e),
    };
    match pull_request.number {
        Some(readback_number) => {
            if readback_number != url_number {
                return Err(
                    command_error(
                        "pull_request",
                        "pull request readback number does not match its URL",
                    ),
                );
            }
        },
        None => {},
    }
    match &pull_request.branch {
        Some(branch) => match validate_branch_for_operation(branch.as_str(), "pull_request") {
            Ok(()) => {},
            Err(e) => return Err(e),
        },
        None => {},
    }
    match &command.mutation {
        TargetRepoRunnerPullRequestMutation::Create(create) => {
            let head_branch = match &observation.head_branch {
                Some(b) => b,
                None => {
                    return Err(
                        command_error(
                            "pull_request",
                            "created pull request readback head branch is required",
                        ),
                    )
                },
            };
            if !str_eq(head_branch.as_str(), create.head_branch.as_str()) {
                return Err(
                    command_error(
                        "pull_request",
                        "created pull request readback head branch does not match command",
                    ),
                );
            }
            let head_sha = match &observation.head_sha {
                Some(s) => s,
                None => {
                    return Err(
                        command_error(
                            "pull_request",
                            "created pull request readback head sha is required",
                        ),
                    )
                },
            };
            if !str_eq(head_sha.as_str(), create.head_sha.as_str()) {
                return Err(
                    command_error(
                        "pull_request",
                        "created pull request readback head sha does not match command",
                    ),
                );
            }
            match &pull_request.branch {
                Some(branch) => {
                    if str_eq(branch.as_str(), create.head_branch.as_str()) {
                        Ok(())
                    } else {
                        Err(
                            command_error(
                                "pull_request",
                                "created pull request branch does not match git mutation readback",
                            ),
                        )
                    }
                },
                None => Err(
                    command_error(
                        "pull_request",
                        "created pull request branch readback is required",
                    ),
                ),
            }
        },
        TargetRepoRunnerPullRequestMutation::Reuse(reuse) => {
            let existing = &reuse.existing_pull_request;
            if !str_eq(pull_request.url.as_str(), existing.url.as_str()) {
                return Err(
                    command_error(
                        "pull_request",
                        "reused pull request readback does not match provider dedupe",
                    ),
                );
            }
            match existing.number {
                Some(expected) => {
                    if pull_request.number != Some(expected) {
                        return Err(
                            command_error(
                                "pull_request",
                                "reused pull request number does not match provider dedupe",
                            ),
                        );
                    }
                },
                None => {},
            }
            match (&existing.branch, &pull_request.branch) {
                (Some(expected), Some(readback)) => {
                    if !str_eq(expected.as_str(), readback.as_str()) {
                        return Err(
                            command_error(
                                "pull_request",
                                "reused pull request branch does not match provider dedupe",
                            ),
                        );
                    }
                },
                _ => {},
            }
            Ok(())
        },
    }
}

// ---------------------------------------------------------------------------
// Source publication
// ---------------------------------------------------------------------------

/// The planned publication of a revision back to its source thread and
/// issue.
#[derive(Debug)]
pub struct TargetRepoRunnerSourcePublicationReceiptPlan {
    pub source_thread_ref: Reference,
    pub pull_request_ref: Reference,
    pub source_issue_ref: Option<Reference>,
    pub metadata: Vec<(String, JsonValue)>,
}

/// A message to publish to the source.
#[derive(Clone, Debug, PartialEq, Eq)]
pub enum TargetRepoRunnerSourcePublicationCommand {
    SourceIssueComment { target: Reference, body: String },
    SourceThreadReply { target: Reference, body: String },
}

/// A publication to perform, with the revision receipt it reports.
#[derive(Debug)]
pub struct TargetRepoRunnerSourcePublicationRequest {
    pub publication: TargetRepoRunnerSourcePublicationReceiptPlan,
    pub revision_receipt_ref: Reference,
    pub commands: Vec<TargetRepoRunnerSourcePublicationCommand>,
}

/// What a publication read back.
#[derive(Clone, Debug, PartialEq, Eq)]
pub struct TargetRepoRunnerSourcePublicationObservation {
    pub source_thread_ref: Reference,
    pub pull_request_ref: Reference,
    pub revision_receipt_ref: Reference,
    pub source_issue_ref: Option<Reference>,
    pub published_refs: Vec<Reference>,
}

/// The string at `path` in a metadata object: each segment but the last
/// must name an object.
pub open spec fn metadata_path_string_spec(object: Seq<(String, JsonValue)>, path: Seq<Seq<char>>) -> Option<
    Seq<char>,
>
    decreases path.len(),
{
    if path.len() == 0 {
        None
    } else if path.len() == 1 {
        match json_get(object, path[0]) {
            Some(JsonValue::String(s)) => Some(s@),
            _ => None,
        }
    } else {
        match json_get(object, path[0]) {
            Some(JsonValue::Object(next)) => metadata_path_string_spec(next@, path.drop_first()),
            _ => None,
        }
    }
}

fn metadata_string_at(object: &Vec<(String, JsonValue)>, key: &str) -> (r: Option<String>)
    ensures
        match r {
            Some(s) => metadata_path_string_spec(object@, seq![key@]) == Some(s@),
            None => metadata_path_string_spec(object@, seq![key@]) is None,
        },
{
    match object_get(object, key) {
        Some(JsonValue::String(s)) => Some(s.clone()),
        _ => None,
    }
}

fn metadata_string_at2(object: &Vec<(String, JsonValue)>, first: &str, second: &str) -> (r: Option<
    String,
>)
    ensures
        match r {
            Some(s) => metadata_path_string_spec(object@, seq![first@, second@]) == Some(s@),
            None => metadata_path_string_spec(object@, seq![first@, second@]) is None,
        },
{
    assert(seq![first@, second@].drop_first() =~= seq![second@]);
    match object_get(object, first) {
        Some(JsonValue::Object(next)) => metadata_string_at(next, second),
        _ => None,
    }
}

/// The body of the messages that publish a revision.
pub open spec fn publication_body_spec(
    publication: TargetRepoRunnerSourcePublicationReceiptPlan,
    revision_receipt_ref: Reference,
) -> Seq<char> {
    let target_repo = match metadata_path_string_spec(publication.metadata@, seq!["target_repo"@]) {
        Some(s) => s,
        None => match publication.pull_request_ref.locator {
            Some(l) => l@,
            None => "target repo"@,
        },
    };
    let dedupe_result = match metadata_path_string_spec(
        publication.metadata@,
        seq!["dedupe"@, "result"@],
    ) {
        Some(s) => s,
        None => "unknown"@,
    };
    let dedupe_key = match metadata_path_string_spec(publication.metadata@, seq!["dedupe"@, "key"@]) {
        Some(s) => s,
        None => "unknown"@,
    };
    "Target pull request ready: "@ + publication.pull_request_ref.uri@ + "\nTarget repo: "@
        + target_repo + "\nDedupe: "@ + dedupe_result + " ("@ + dedupe_key
        + ")\nHuman review remains the merge gate.\nReceipt: "@ + revision_receipt_ref.uri@
}

/// The body of the messages that publish a revision.
pub fn source_publication_body(
    publication: &TargetRepoRunnerSourcePublicationReceiptPlan,
    revision_receipt_ref: &Reference,
) -> (r: String)
    ensures
        r@ == publication_body_spec(*publication, *revision_receipt_ref),
{
    let target_repo = match metadata_string_at(&publication.metadata, "target_repo") {
        Some(s) => s,
        None => match &publication.pull_request_ref.locator {
            Some(l) => l.clone(),
            None => String::from_str("target repo"),
        },
    };
    let dedupe_result = match metadata_string_at2(&publication.metadata, "dedupe", "result") {
        Some(s) => s,
        None => String::from_str("unknown"),
    };
    let dedupe_key = match metadata_string_at2(&publication.metadata, "dedupe", "key") {
        Some(s) => s,
        None => String::from_str("unknown"),
    };
    let mut out = chars_of("Target pull request ready: ");
    extend_str(&mut out, publication.pull_request_ref.uri.as_str());
    extend_str(&mut out, "\nTarget repo: ");
    extend_str(&mut out, target_repo.as_str());
    extend_str(&mut out, "\nDedupe: ");
    extend_str(&mut out, dedupe_result.as_str());
    extend_str(&mut out, " (");
    extend_str(&mut out, dedupe_key.as_str());
    extend_str(&mut out, ")\nHuman review remains the merge gate.\nReceipt: ");
    extend_str(&mut out, revision_receipt_ref.uri.as_str());
    string_of(&out)
}

/// The messages that publish a revision: a comment on the source issue,
/// where there is one, then a reply on the source thread, with one body.
pub fn source_publication_commands(
    publication: &TargetRepoRunnerSourcePublicationReceiptPlan,
    revision_receipt_ref: &Reference,
) -> (r: Vec<TargetRepoRunnerSourcePublicationCommand>)
    ensures
        ({
            let body = publication_body_spec(*publication, *revision_receipt_ref);
            let thread = r@.last();
            &&& r@.len() == if publication.source_issue_ref is Some {
                2int
            } else {
                1int
            }
            &&& thread matches TargetRepoRunnerSourcePublicationCommand::SourceThreadReply {
                target,
                body: b,
            } && target@ == publication.source_thread_ref@ && b@ == body
            &&& publication.source_issue_ref matches Some(issue) ==> (
            r@[0] matches TargetRepoRunnerSourcePublicationCommand::SourceIssueComment {
                target,
                body: b,
            } && target@ == issue@ && b@ == body)
        }),
{
    let body = source_publication_body(publication, revision_receipt_ref);
    let mut commands: Vec<TargetRepoRunnerSourcePublicationCommand> = Vec::new();
    match &publication.source_issue_ref {
        Some(issue) => {
            commands.push(
                TargetRepoRunnerSourcePublicationCommand::SourceIssueComment {
                    target: issue.duplicate(),
                    body: body.clone(),
                },
            );
        },
        None => {},
    }
    commands.push(
        TargetRepoRunnerSourcePublicationCommand::SourceThreadReply {
            target: publication.source_thread_ref.duplicate(),
            body,
        },
    );
    commands
}

/// Why a publication's readback does not answer its request, if it does not.
pub open spec fn publication_readback_fault(
    request: TargetRepoRunnerSourcePublicationRequest,
    observation: TargetRepoRunnerSourcePublicationObservation,
) -> Option<Seq<char>> {
    if !same_reference_spec(observation.source_thread_ref, request.publication.source_thread_ref) {
        Some("source thread readback does not match publication plan"@)
    } else if !same_reference_spec(
        observation.pull_request_ref,
        request.publication.pull_request_ref,
    ) {
        Some("target pull request readback does not match publication plan"@)
    } else if !same_reference_spec(observation.revision_receipt_ref, request.revision_receipt_ref) {
        Some("revision receipt readback does not match publication request"@)
    } else {
        match (request.publication.source_issue_ref, observation.source_issue_ref) {
            (Some(expected), Some(actual)) => if !same_reference_spec(actual, expected) {
                Some("source issue readback does not match publication plan"@)
            } else if observation.published_refs@.len() < request.commands@.len() {
                Some("publication readback did not return a ref for every source command"@)
            } else {
                None
            },
            (Some(_), None) => Some("source issue publication readback is required"@),
            (None, Some(_)) => Some(
                "source issue readback was returned for a plan without a source issue"@,
            ),
            (None, None) => if observation.published_refs@.len() < request.commands@.len() {
                Some("publication readback did not return a ref for every source command"@)
            } else {
                None
            },
        }
    }
}

/// Checks that a publication's readback answers its request: the thread,
/// pull request, receipt and issue it reports, and a published ref for every
/// message.
pub fn validate_source_publication_observation(
    request: &TargetRepoRunnerSourcePublicationRequest,
    observation: &TargetRepoRunnerSourcePublicationObservation,
) -> (r: Result<(), TargetRepoRunnerRuntimeError>)
    ensures
        match publication_readback_fault(*request, *observation) {
            None => r is Ok,
            Some(message) => r matches Err(TargetRepoRunnerRuntimeError::SourcePublicationMismatch(m))
                && m@ == message,
        },
{
    if !same_reference(&observation.source_thread_ref, &request.publication.source_thread_ref) {
        return Err(
            TargetRepoRunnerRuntimeError::SourcePublicationMismatch(
                String::from_str("source thread readback does not match publication plan"),
            ),
        );
    }
    if !same_reference(&observation.pull_request_ref, &request.publication.pull_request_ref) {
        return Err(
            TargetRepoRunnerRuntimeError::SourcePublicationMismatch(
                String::from_str("target pull request readback does not match publication plan"),
            ),
        );
    }
    if !same_reference(&observation.revision_receipt_ref, &request.revision_receipt_ref) {
        return Err(
            TargetRepoRunnerRuntimeError::SourcePublicationMismatch(
                String::from_str("revision receipt readback does not match publication request"),
            ),
        );
    }
    match (&request.publication.source_issue_ref, &observation.source_issue_ref) {
        (Some(expected), Some(actual)) => {
            if !same_reference(actual, expected) {
                return Err(
                    TargetRepoRunnerRuntimeError::SourcePublicationMismatch(
                        String::from_str("source issue readback does not match publication plan"),
                    ),
                );
            }
        },
        (Some(_), None) => {
            return Err(
                TargetRepoRunnerRuntimeError::SourcePublicationMismatch(
                    String::from_str("source issue publication readback is required"),
                ),
            );
        },
        (None, Some(_)) => {
            return Err(
                TargetRepoRunnerRuntimeError::SourcePublicationMismatch(
                    String::from_str(
                        "source issue readback was returned for a plan without a source issue",
                    ),
                ),
            );
        },
        (None, None) => {},
    }
    if observation.published_refs.len() < request.commands.len() {
        return Err(
            TargetRepoRunnerRuntimeError::SourcePublicationMismatch(
                String::from_str(
                    "publication readback did not return a ref for every source command",
                ),
            ),
        );
    }
    Ok(())
}

/// The references a publication reached: the source thread, then the source
/// issue where there is one.
pub fn source_publication_target_refs(observation: &TargetRepoRunnerSourcePublicationObservation) -> (r:
    Vec<Reference>)
    ensures
        ref_views(r@) == match observation.source_issue_ref {
            Some(issue) => seq![observation.source_thread_ref@, issue@],
            None => seq![observation.source_thread_ref@],
        },
{
    let mut refs: Vec<Reference> = Vec::new();
    refs.push(observation.source_thread_ref.duplicate());
    match &observation.source_issue_ref {
        Some(issue) => refs.push(issue.duplicate()),
        None => {},
    }
    assert(ref_views(refs@) =~= match observation.source_issue_ref {
        Some(issue) => seq![observation.source_thread_ref@, issue@],
        None => seq![observation.source_thread_ref@],
    });
    refs
}


// ---------------------------------------------------------------------------
// Checkout
// ---------------------------------------------------------------------------

/// The target repo a plan works on.
#[derive(Clone, Debug, PartialEq, Eq)]
pub struct TargetRepoRunnerTarget {
    pub repo: String,
    pub base_branch: String,
    pub scafld_required: bool,
}

/// The runner a plan uses.
#[derive(Clone, Debug, PartialEq, Eq)]
pub struct TargetRepoRunnerRunner {
    pub runner_id: String,
    pub kind: String,
    pub scafld_required: bool,
}

/// A target-runner plan: its target and runner, and the two admissions that
/// a checkout needs.
#[derive(Clone, Debug, PartialEq, Eq)]
pub struct TargetRepoRunnerPlan {
    pub target: TargetRepoRunnerTarget,
    pub runner: TargetRepoRunnerRunner,
    pub mutate_target_repo: bool,
    pub require_human_merge_gate: bool,
}

/// The command that checks a target repo out; its local path is never shown.
#[derive(Clone, Debug, PartialEq, Eq)]
pub struct TargetRepoRunnerCheckoutCommand {
    pub target_repo: String,
    pub public_repo_ref: Reference,
    pub base_branch: String,
    pub runner_id: String,
    pub runner_kind: String,
    pub target_scafld_required: bool,
    pub runner_scafld_required: bool,
    pub mutate_target_repo: bool,
    pub local_path_hidden: bool,
}

/// Why a plan cannot be checked out, if it cannot: its repo is no safe
/// GitHub repository, its mutation is not admitted, or it has no human merge
/// gate.
pub open spec fn checkout_refusal(plan: TargetRepoRunnerPlan) -> Option<Seq<char>> {
    if github_repo_parts(plan.target.repo@) is None {
        Some(invalid_repo_message())
    } else if !plan.mutate_target_repo {
        Some("target repo mutation must be admitted before checkout"@)
    } else if !plan.require_human_merge_gate {
        Some("target runner requires a human merge gate"@)
    } else {
        None
    }
}

/// The public reference of a GitHub repository.
pub open spec fn github_repo_ref(repo: Seq<char>) -> (
    Seq<char>,
    Seq<char>,
    Option<Seq<char>>,
    Option<Seq<char>>,
    Option<Seq<char>>,
) {
    ("github_repo"@, "https://github.com/"@ + repo, Some("github"@), Some(repo), Some("target repo"@))
}

/// The checkout command of a plan.
pub fn target_repo_runner_checkout_command(plan: &TargetRepoRunnerPlan) -> (r: Result<
    TargetRepoRunnerCheckoutCommand,
    TargetRepoRunnerRuntimeError,
>)
    ensures
        match checkout_refusal(*plan) {
            Some(message) => refuses(r, "checkout"@, message),
            None => r matches Ok(c) && c.target_repo@ == plan.target.repo@ && c.public_repo_ref@
                == github_repo_ref(plan.target.repo@) && c.base_branch@ == plan.target.base_branch@
                && c.runner_id@ == plan.runner.runner_id@ && c.runner_kind@ == plan.runner.kind@
                && c.target_scafld_required == plan.target.scafld_required
                && c.runner_scafld_required == plan.runner.scafld_required && c.mutate_target_repo
                && c.local_path_hidden,
        },
{
    let repository = match github_repository(plan.target.repo.as_str(), "checkout") {
        Ok(repository) => repository,
        Err(e) => return Err(e),
    };
    proof {
        crate::text::lemma_split_once_rejoin(plan.target.repo@, '/');
        reveal_strlit("/");
        assert(repository.full_name@ =~= plan.target.repo@);
    }
    if !str_eq(repository.full_name.as_str(), plan.target.repo.as_str()) {
        return Err(command_error("checkout", "target repo must be a canonical github owner/repo"));
    }
    if !plan.mutate_target_repo {
        return Err(
            command_error("checkout", "target repo mutation must be admitted before checkout"),
        );
    }
    if !plan.require_human_merge_gate {
        return Err(command_error("checkout", "target runner requires a human merge gate"));
    }
    Ok(
        TargetRepoRunnerCheckoutCommand {
            target_repo: plan.target.repo.clone(),
            public_repo_ref: Reference {
                reference_type: "github_repo".to_owned(),
                uri: concat("https://github.com/", plan.target.repo.as_str()),
                provider: Some("github".to_owned()),
                locator: Some(plan.target.repo.clone()),
                label: Some("target repo".to_owned()),
            },
            base_branch: plan.target.base_branch.clone(),
            runner_id: plan.runner.runner_id.clone(),
            runner_kind: plan.runner.kind.clone(),
            target_scafld_required: plan.target.scafld_required,
            runner_scafld_required: plan.runner.scafld_required,
            mutate_target_repo: plan.mutate_target_repo,
            local_path_hidden: true,
        },
    )
}

} // verus!
