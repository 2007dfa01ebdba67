pub mod text;
pub mod redaction;
pub mod env;
pub mod receipt_paths;
pub mod hosted_http;
pub mod process;
pub mod timestamp;
pub mod sorting;
pub mod receipt_store;
pub mod journal;
pub mod json;
pub mod payment_packets;
pub mod records;
pub mod payment_state;
pub mod target_runner;
pub mod hashing;
pub mod list;
pub mod outbox;
pub mod search;
pub mod payment_ledger;
pub mod lifecycle;
pub mod signing;
pub mod post_merge_observer;
pub mod runtime_http;
pub mod github_client;
pub mod post_merge_github;
pub mod payment_admission;
pub mod payment_authority;
pub mod export;
pub mod harness_fixtures;
pub mod parser_eval;
pub mod registry;
pub mod host;
pub mod skill_run;
