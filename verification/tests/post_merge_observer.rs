use runx_runtime::post_merge_observer::{
    check_observed_closure, project_post_merge_observer_publication_commands,
    public_reply_body, sanitize_public_text, sanitize_token, sealed_receipt_dedupe_plan,
    PostMergeObserverAdapterError, PostMergeObserverPublicationCommand,
    PostMergeObserverPublicationLedger, PostMergeObserverPublicationProjection,
    PostMergeObserverPublicationRuntimeDecision, PostMergeObserverRuntimeDecision,
    PostMergeObserverRuntimeError, PostMergeSealedReceipt,
};
use runx_runtime::target_runner::Reference;

fn reference(kind: &str, uri: &str, provider: Option<&str>, locator: Option<&str>) -> Reference {
    Reference {
        reference_type: kind.to_owned(),
        uri: uri.to_owned(),
        provider: provider.map(str::to_owned),
        locator: locator.map(str::to_owned),
        label: None,
    }
}

fn sealed() -> PostMergeSealedReceipt {
    PostMergeSealedReceipt {
        id: "hrcpt_1".to_owned(),
        reason_code: "merged_verified".to_owned(),
        digest: "sha256:abc".to_owned(),
        closed_at: "2026-06-01T00:00:00Z".to_owned(),
        intent_key: "intent_1".to_owned(),
        content_hash: "content_1".to_owned(),
    }
}

fn projection(close: bool) -> PostMergeObserverPublicationProjection {
    PostMergeObserverPublicationProjection {
        harness_receipt_ref: reference("harness_receipt", "runx:harness_receipt:hrcpt_1", None, None),
        source_issue_ref: reference("github_issue", "https://github.com/o/r/issues/1", Some("github"), Some("o/r#1")),
        source_thread_ref: Some(reference("slack_thread", "slack://T/C/1", Some("slack"), Some("C/1"))),
        pull_request_ref: reference("github_pull_request", "https://github.com/o/r/pull/2", Some("github"), Some("o/r#2")),
        summary: "merged and verified".to_owned(),
        merge_sha: Some("deadbeef".to_owned()),
        reason_code: "merged_verified".to_owned(),
        verification_criterion_id: None,
        verification_summary: None,
        proof_criterion_id: "post_merge.proof".to_owned(),
        close_authorized: close,
        closes_source_issue: true,
    }
}

#[test]
fn dedupe_plan_keys_come_from_the_receipt_idempotency() {
    let plan = sealed_receipt_dedupe_plan(&sealed(), "webhook");
    assert_eq!(plan.decision, PostMergeObserverRuntimeDecision::SealAndPublish);
    assert_eq!(plan.lock_key, "post-merge-observer:content_1");
    assert_eq!(plan.publication_key, "post-merge-publication:intent_1:content_1");
    assert_eq!(plan.receipt_ref.uri, "runx:harness_receipt:hrcpt_1");
    assert_eq!(plan.receipt_ref.locator.as_deref(), Some("sha256:abc"));
    assert_eq!(plan.receipt_observed_at, "2026-06-01T00:00:00Z");
}

#[test]
fn a_publication_is_made_once_per_ledger() {
    let plan = sealed_receipt_dedupe_plan(&sealed(), "webhook");
    let mut ledger = PostMergeObserverPublicationLedger::new();
    assert!(!ledger.contains(&plan.publication_key));
    let first = project_post_merge_observer_publication_commands(&plan, "hrcpt_1", &projection(true), &mut ledger)
        .expect("publishes");
    assert_eq!(first.decision, PostMergeObserverPublicationRuntimeDecision::Publish);
    assert_eq!(first.commands.len(), 3);
    assert!(matches!(first.commands[0], PostMergeObserverPublicationCommand::SourceIssueComment { .. }));
    assert!(matches!(first.commands[1], PostMergeObserverPublicationCommand::SourceThreadReply { .. }));
    match &first.commands[2] {
        PostMergeObserverPublicationCommand::SourceIssueClose { reason_code, .. } => {
            assert_eq!(reason_code, "merged_verified")
        }
        other => panic!("unexpected {other:?}"),
    }
    assert!(ledger.contains(&plan.publication_key));

    let second = project_post_merge_observer_publication_commands(&plan, "hrcpt_1", &projection(true), &mut ledger)
        .expect("answers");
    assert_eq!(second.decision, PostMergeObserverPublicationRuntimeDecision::AlreadyPublished);
    assert!(second.commands.is_empty());
}

#[test]
fn unauthorized_close_only_comments_and_replies() {
    let plan = sealed_receipt_dedupe_plan(&sealed(), "webhook");
    let mut ledger = PostMergeObserverPublicationLedger::new();
    let runtime = project_post_merge_observer_publication_commands(&plan, "hrcpt_1", &projection(false), &mut ledger)
        .expect("publishes");
    assert_eq!(runtime.commands.len(), 2);
}

#[test]
fn mismatched_receipts_are_refused_without_recording() {
    let plan = sealed_receipt_dedupe_plan(&sealed(), "webhook");
    let mut ledger = PostMergeObserverPublicationLedger::new();
    let err = project_post_merge_observer_publication_commands(&plan, "other", &projection(true), &mut ledger)
        .err();
    assert!(matches!(err, Some(PostMergeObserverRuntimeError::ReceiptMismatch { .. })));
    let mut moved = projection(true);
    moved.harness_receipt_ref.uri = "runx:harness_receipt:other".to_owned();
    let err = project_post_merge_observer_publication_commands(&plan, "hrcpt_1", &moved, &mut ledger).err();
    assert!(matches!(err, Some(PostMergeObserverRuntimeError::ReceiptRefMismatch { .. })));
    let mut threadless = projection(true);
    threadless.source_thread_ref = None;
    let err = project_post_merge_observer_publication_commands(&plan, "hrcpt_1", &threadless, &mut ledger).err();
    assert!(matches!(err, Some(PostMergeObserverRuntimeError::MissingSourceThreadTarget)));
    let mut bare = projection(true);
    bare.source_thread_ref = Some(reference("slack_thread", "slack://x", Some(" "), Some("C/1")));
    let err = project_post_merge_observer_publication_commands(&plan, "hrcpt_1", &bare, &mut ledger).err();
    assert!(matches!(err, Some(PostMergeObserverRuntimeError::MissingSourceThreadMetadata)));
    assert!(!ledger.contains(&plan.publication_key));
}

#[test]
fn reply_body_states_the_closure_and_next_action() {
    let body = public_reply_body(&projection(true));
    assert_eq!(
        body,
        "Post-merge observer: merged and verified. Source issue: https://github.com/o/r/issues/1. \
Target PR: https://github.com/o/r/pull/2. Merge: deadbeef. Review gate: external_human. \
Closure: merged_verified. Verification: not_required. Verification summary: not_required. \
Proof: post_merge.proof. Next: none. Receipt: runx:harness_receipt:hrcpt_1."
    );
    let mut pending = projection(false);
    pending.reason_code = "merged_pending_verification".to_owned();
    assert!(public_reply_body(&pending).contains("Next: wait_for_verification."));
}

#[test]
fn public_text_redacts_paths_and_credentials() {
    assert_eq!(sanitize_token("/home/me/secret.txt"), "[redacted]");
    assert_eq!(sanitize_token("(token=abc)."), "[redacted]");
    assert_eq!(sanitize_token("openai_api_key=sk"), "[redacted]");
    assert_eq!(sanitize_token("fine."), "fine.");
    assert_eq!(
        sanitize_public_text("  see\t/Users/me/x  and\nPASSWORD=hunter2 now "),
        "see [redacted] and [redacted] now"
    );
}

#[test]
fn closure_must_match_the_sealed_receipt() {
    assert!(check_observed_closure("merged_verified", "merged_verified").is_ok());
    assert!(matches!(
        check_observed_closure("closed_unmerged", "merged_verified"),
        Err(PostMergeObserverRuntimeError::ObservedClosureMismatch { .. })
    ));
    let error = PostMergeObserverAdapterError::new("observe_pull_request_github", "boom");
    assert_eq!(error.to_message(), "observe_pull_request_github failed: boom");
}
