//! The thread-outbox provider boundary: what a provider process may be
//! handed, what its manifest and requests must agree on, and what its
//! response may not carry.
use vstd::prelude::*;

use crate::env::EnvVars;
use crate::json::{JsonValue, json_get};
use crate::text::{
    char_lowercase, char_to_lowercase, chars_of, concat, concat3, decimal, decimal_string,
    extend_chars, is_blank, str_eq, string_of, trim, trim_chars,
};

verus! {

pub const DEFAULT_TIMEOUT_MS: u64 = 5_000;

pub const DEFAULT_OUTPUT_LIMIT_BYTES: usize = 1_048_576;

/// How the supervisor runs provider processes.
#[derive(Clone, Debug, PartialEq, Eq)]
pub struct ThreadOutboxProviderSupervisorOptions {
    pub timeout_ms: u64,
    pub output_limit_bytes: usize,
    pub cwd: Option<String>,
}

impl Default for ThreadOutboxProviderSupervisorOptions {
    fn default() -> (r: Self)
        ensures
            r.timeout_ms == DEFAULT_TIMEOUT_MS,
            r.output_limit_bytes == DEFAULT_OUTPUT_LIMIT_BYTES,
            r.cwd is None,
    {
        ThreadOutboxProviderSupervisorOptions {
            timeout_ms: DEFAULT_TIMEOUT_MS,
            output_limit_bytes: DEFAULT_OUTPUT_LIMIT_BYTES,
            cwd: None,
        }
    }
}

/// Runs thread-outbox provider processes with fixed options.
#[derive(Clone, Debug)]
pub struct ThreadOutboxProviderProcessSupervisor {
    options: ThreadOutboxProviderSupervisorOptions,
}

impl ThreadOutboxProviderProcessSupervisor {
    /// A supervisor with `options`.
    pub fn new(options: ThreadOutboxProviderSupervisorOptions) -> (r: Self)
        ensures
            r.options_view() == options,
    {
        ThreadOutboxProviderProcessSupervisor { options }
    }

    /// The supervisor's options.
    pub closed spec fn options_view(&self) -> ThreadOutboxProviderSupervisorOptions {
        self.options
    }

    /// The supervisor's options.
    pub fn options(&self) -> (r: &ThreadOutboxProviderSupervisorOptions)
        ensures
            *r == self.options_view(),
    {
        &self.options
    }
}

/// Why the supervisor refused a provider, a request or a response.
#[derive(Clone, Debug, PartialEq, Eq)]
pub enum ThreadOutboxProviderSupervisorError {
    AdapterIdMismatch { manifest: String, request: String },
    ProviderMismatch { manifest: String, request: String },
    UnsupportedOperation { operation: String },
    UnsupportedTransport,
    MissingProcessCommand,
    EmptyProcessCommand,
    TimedOut { timeout_ms: u64 },
    ProcessFailed { exit_status: String, stderr: String },
    ResponseTooLarge { limit_bytes: usize },
    StderrTooLarge { limit_bytes: usize },
    EmptyResponse,
    InvalidResponseEnvelopeOutput,
    SecretFieldRejected { field: String },
    ObservationAdapterMismatch { expected: String, actual: String },
    ObservationProviderMismatch { expected: String, actual: String },
    ObservationOperationMismatch { expected: String, actual: String },
    ObservationRequestMismatch { expected: String, actual: String },
    MissingProviderLocator,
    Json { context: String, message: String },
    Process { context: String, detail: String },
}

// ---------------------------------------------------------------------------
// Secrets
// ---------------------------------------------------------------------------

/// The field names that a provider response may never carry, in order.
pub fn thread_outbox_provider_forbidden_secret_fields() -> (r: Vec<&'static str>)
    ensures
        r@.map_values(|s: &str| s@) == seq![
            "access_token"@,
            "api_key"@,
            "authorization"@,
            "password"@,
            "secret"@,
            "token"@,
        ],
{
    let mut fields: Vec<&'static str> = Vec::new();
    fields.push("access_token");
    fields.push("api_key");
    fields.push("authorization");
    fields.push("password");
    fields.push("secret");
    fields.push("token");
    assert(fields@.map_values(|s: &str| s@) =~= seq![
        "access_token"@,
        "api_key"@,
        "authorization"@,
        "password"@,
        "secret"@,
        "token"@,
    ]);
    fields
}

/// A key without `_`, `-` and `.`, lowercased character by character.
pub open spec fn secret_normalized(key: Seq<char>) -> Seq<char>
    decreases key.len(),
{
    if key.len() == 0 {
        Seq::empty()
    } else {
        let prev = secret_normalized(key.drop_last());
        let c = key.last();
        if c == '_' || c == '-' || c == '.' {
            prev
        } else {
            prev + char_lowercase(c)
        }
    }
}

/// A key that names a secret however it is spelled: `token`, `access_token`,
/// `api-key`, `Secret`, `pass.word` and the like.
pub open spec fn is_secret_like_key(key: Seq<char>) -> bool {
    let n = secret_normalized(key);
    n == "token"@ || n == "accesstoken"@ || n == "apikey"@ || n == "secret"@ || n == "password"@
        || n == "authorization"@
}

/// Whether a key names a secret.
pub fn secret_like_key(key: &str) -> (b: bool)
    ensures
        b == is_secret_like_key(key@),
{
    let chars = chars_of(key);
    let mut normalized: Vec<char> = Vec::new();
    let mut i: usize = 0;
    while i < chars.len()
        invariant
            i <= chars.len(),
            normalized@ == secret_normalized(chars@.take(i as int)),
        decreases chars.len() - i,
    {
        let c = chars[i];
        assert(chars@.take(i + 1).drop_last() =~= chars@.take(i as int));
        if !(c == '_' || c == '-' || c == '.') {
            let lowered = char_to_lowercase(c);
            extend_chars(&mut normalized, &lowered);
        }
        i += 1;
    }
    assert(chars@.take(chars.len() as int) =~= chars@);
    let n = string_of(&normalized);
    let text = n.as_str();
    str_eq(text, "token") || str_eq(text, "accesstoken") || str_eq(text, "apikey") || str_eq(
        text,
        "secret",
    ) || str_eq(text, "password") || str_eq(text, "authorization")
}

/// The path of the first secret-like field in a JSON value, depth first:
/// object members as `<path>.<key>`, array items as `<path>[<index>]`.
pub open spec fn secret_field(value: JsonValue, path: Seq<char>) -> Option<Seq<char>>
    decreases value,
{
    match value {
        JsonValue::Object(members) => secret_member(members@, path, 0),
        JsonValue::Array(items) => secret_item(items@, path, 0),
        _ => None,
    }
}

/// The first secret-like field among the members of an object from the
/// `i`-th on.
pub open spec fn secret_member(members: Seq<(String, JsonValue)>, path: Seq<char>, i: int) -> Option<
    Seq<char>,
>
    decreases members, members.len() - i,
{
    if i < 0 || i >= members.len() {
        None
    } else {
        let child_path = path + "."@ + members[i].0@;
        if is_secret_like_key(members[i].0@) {
            Some(child_path)
        } else {
            match secret_field(members[i].1, child_path) {
                Some(field) => Some(field),
                None => secret_member(members, path, i + 1),
            }
        }
    }
}

/// The first secret-like field among the items of an array from the `i`-th
/// on.
pub open spec fn secret_item(items: Seq<JsonValue>, path: Seq<char>, i: int) -> Option<Seq<char>>
    decreases items, items.len() - i,
{
    if i < 0 || i >= items.len() {
        None
    } else {
        let child_path = path + "["@ + decimal(i as nat) + "]"@;
        match secret_field(items[i], child_path) {
            Some(field) => Some(field),
            None => secret_item(items, path, i + 1),
        }
    }
}

/// Refuses a response that carries a secret-like field anywhere.
pub fn reject_secret_like_fields(value: &JsonValue, path: &str) -> (r: Result<
    (),
    ThreadOutboxProviderSupervisorError,
>)
    ensures
        match secret_field(*value, path@) {
            None => r is Ok,
            Some(field) => r matches Err(ThreadOutboxProviderSupervisorError::SecretFieldRejected {
                field: f,
            }) && f@ == field,
        },
    decreases value,
{
    match value {
        JsonValue::Object(members) => {
            let mut i: usize = 0;
            while i < members.len()
                invariant
                    i <= members.len(),
                    *value == JsonValue::Object(*members),
                    secret_field(*value, path@) == secret_member(members@, path@, i as int),
                decreases members.len() - i,
            {
                let key = members[i].0.as_str();
                let child_path = concat3(path, ".", key);
                if secret_like_key(key) {
                    return Err(
                        ThreadOutboxProviderSupervisorError::SecretFieldRejected {
                            field: child_path,
                        },
                    );
                }
                assert(decreases_to!(*value => members@[i as int].1));
                match reject_secret_like_fields(&members[i].1, child_path.as_str()) {
                    Ok(()) => {},
                    Err(e) => return Err(e),
                }
                i += 1;
            }
            Ok(())
        },
        JsonValue::Array(items) => {
            let mut i: usize = 0;
            while i < items.len()
                invariant
                    i <= items.len(),
                    *value == JsonValue::Array(*items),
                    secret_field(*value, path@) == secret_item(items@, path@, i as int),
                decreases items.len() - i,
            {
                let index = decimal_string(i as u64);
                let head = concat3(path, "[", index.as_str());
                let child_path = concat(head.as_str(), "]");
                assert(decreases_to!(*value => items@[i as int]));
                match reject_secret_like_fields(&items[i], child_path.as_str()) {
                    Ok(()) => {},
                    Err(e) => return Err(e),
                }
                i += 1;
            }
            Ok(())
        },
        _ => Ok(()),
    }
}

// ---------------------------------------------------------------------------
// Process environment
// ---------------------------------------------------------------------------

/// The host variables a provider process keeps: what it needs to find
/// programs and a home and temporary directory, on Unix and on Windows.
pub open spec fn host_env_keys() -> Seq<Seq<char>> {
    seq!["PATH"@, "SystemRoot"@, "PATHEXT"@, "HOME"@, "TMPDIR"@, "TMP"@, "TEMP"@]
}

/// The environment of a provider process: the host variables it keeps,
/// where the host sets them, and the delivered credentials' variables over
/// them; nothing else of the host crosses.
pub open spec fn provider_env_spec(
    secret_env: Map<Seq<char>, Seq<char>>,
    host: Map<Seq<char>, Seq<char>>,
) -> Map<Seq<char>, Seq<char>> {
    host.restrict(host_env_keys().to_set()).union_prefer_right(secret_env)
}

/// The environment of a provider process, from the host's environment and
/// the variables that deliver credentials.
pub fn provider_process_env_from(secret_env: &EnvVars, host: &EnvVars) -> (r: EnvVars)
    requires
        secret_env.wf(),
        host.wf(),
    ensures
        r.wf(),
        r@ == provider_env_spec(secret_env@, host@),
{
    let keys: Vec<&'static str> = vec!["PATH", "SystemRoot", "PATHEXT", "HOME", "TMPDIR", "TMP", "TEMP"];
    assert(keys@.map_values(|s: &str| s@) =~= host_env_keys());
    let mut env = EnvVars::new();
    let mut i: usize = 0;
    while i < keys.len()
        invariant
            i <= keys.len(),
            keys@.map_values(|s: &str| s@) == host_env_keys(),
            host.wf(),
            env.wf(),
            env@ == host@.restrict(host_env_keys().take(i as int).to_set()),
        decreases keys.len() - i,
    {
        let key = keys[i];
        let ghost k = key@;
        assert(host_env_keys()[i as int] == k);
        match host.get(key) {
            Some(value) => {
                env.insert(String::from_str(key), value.clone());
            },
            None => {},
        }
        proof {
            let before = host_env_keys().take(i as int);
            let after = host_env_keys().take(i + 1);
            assert(after =~= before.push(k));
            assert forall|x: Seq<char>| after.contains(x) <==> (before.contains(x) || x == k) by {
                if after.contains(x) {
                    let j = choose|j: int| 0 <= j < after.len() && after[j] == x;
                    if j < i {
                        assert(before[j] == x);
                    }
                }
                if before.contains(x) {
                    let j = choose|j: int| 0 <= j < before.len() && before[j] == x;
                    assert(after[j] == x);
                }
                if x == k {
                    assert(after[i as int] == x);
                }
            }
            assert(after.to_set() =~= before.to_set().insert(k));
            assert(env@ =~= host@.restrict(host_env_keys().take(i + 1).to_set()));
        }
        i += 1;
    }
    assert(host_env_keys().take(keys.len() as int) =~= host_env_keys());
    let ghost kept = env@;
    let pairs = secret_env.to_pairs();
    assert(crate::env::entries_map(pairs@) == secret_env@);
    let mut j: usize = 0;
    while j < pairs.len()
        invariant
            j <= pairs.len(),
            env.wf(),
            crate::env::entries_map(pairs@) == secret_env@,
            crate::env::distinct_keys(pairs@),
            env@ == kept.union_prefer_right(crate::env::entries_map(pairs@.take(j as int))),
        decreases pairs.len() - j,
    {
        let (key, value) = (pairs[j].0.clone(), pairs[j].1.clone());
        env.insert(key, value);
        proof {
            assert(pairs@.take(j + 1).drop_last() =~= pairs@.take(j as int));
            assert(env@ =~= kept.union_prefer_right(crate::env::entries_map(pairs@.take(j + 1))));
        }
        j += 1;
    }
    assert(pairs@.take(pairs.len() as int) =~= pairs@);
    env
}

} // verus!
