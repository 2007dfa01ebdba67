//! Skill runs: why a run failed, and the summary of a skill's inline
//! harness, made from the outcomes of its declared cases.
use vstd::prelude::*;

use crate::receipt_store::ReceiptStoreError;

verus! {

/// Why a skill run failed: an invalid request, a runtime failure (its
/// message), or the receipt store.
#[derive(Clone, Debug, PartialEq, Eq)]
pub enum SkillRunError {
    Invalid(String),
    Runtime(String),
    ReceiptStore(ReceiptStoreError),
}

/// What one case of an inline harness did: its name, whether it ran a
/// graph, the receipt it sealed, and the assertion it failed, if any.
#[derive(Clone, Debug, PartialEq, Eq)]
pub struct InlineHarnessCaseOutcome {
    pub name: String,
    pub is_graph: bool,
    pub receipt_id: Option<String>,
    pub assertion_error: Option<String>,
}

/// The summary of a skill's inline harness.
#[derive(Clone, Debug, PartialEq, Eq)]
pub struct InlineHarnessReport {
    pub status: &'static str,
    pub case_count: usize,
    pub assertion_error_count: usize,
    pub assertion_errors: Vec<String>,
    pub case_names: Vec<String>,
    pub receipt_ids: Vec<String>,
    pub graph_case_count: usize,
}

/// The texts that a list of optional strings holds, in order.
pub open spec fn present_texts(items: Seq<Option<String>>) -> Seq<Seq<char>>
    decreases items.len(),
{
    if items.len() == 0 {
        Seq::empty()
    } else {
        let rest = present_texts(items.drop_last());
        match items.last() {
            Some(s) => rest.push(s@),
            None => rest,
        }
    }
}

/// The number of cases that ran a graph.
pub open spec fn graph_count(outcomes: Seq<InlineHarnessCaseOutcome>) -> nat
    decreases outcomes.len(),
{
    if outcomes.len() == 0 {
        0
    } else {
        graph_count(outcomes.drop_last()) + if outcomes.last().is_graph {
            1nat
        } else {
            0nat
        }
    }
}

pub open spec fn errors_of(outcomes: Seq<InlineHarnessCaseOutcome>) -> Seq<Seq<char>> {
    present_texts(outcomes.map_values(|o: InlineHarnessCaseOutcome| o.assertion_error))
}

pub open spec fn receipts_of(outcomes: Seq<InlineHarnessCaseOutcome>) -> Seq<Seq<char>> {
    present_texts(outcomes.map_values(|o: InlineHarnessCaseOutcome| o.receipt_id))
}

/// The harness status: `not_declared` without cases, `passed` where every
/// case met its expectation, `failed` otherwise.
pub open spec fn harness_status(outcomes: Seq<InlineHarnessCaseOutcome>) -> Seq<char> {
    if outcomes.len() == 0 {
        "not_declared"@
    } else if errors_of(outcomes).len() == 0 {
        "passed"@
    } else {
        "failed"@
    }
}

pub open spec fn texts(items: Seq<String>) -> Seq<Seq<char>> {
    items.map_values(|s: String| s@)
}

impl InlineHarnessReport {
    /// The report of a skill that declares no harness cases.
    pub fn not_declared() -> (r: Self)
        ensures
            r.status@ == "not_declared"@,
            r.case_count == 0,
            r.assertion_error_count == 0,
            r.assertion_errors@.len() == 0,
            r.case_names@.len() == 0,
            r.receipt_ids@.len() == 0,
            r.graph_case_count == 0,
    {
        InlineHarnessReport {
            status: "not_declared",
            case_count: 0,
            assertion_error_count: 0,
            assertion_errors: Vec::new(),
            case_names: Vec::new(),
            receipt_ids: Vec::new(),
            graph_case_count: 0,
        }
    }
}

/// Summarizes the outcomes of a harness's cases, in the order they ran.
pub fn inline_harness_report(outcomes: &Vec<InlineHarnessCaseOutcome>) -> (r: InlineHarnessReport)
    ensures
        r.status@ == harness_status(outcomes@),
        r.case_count == outcomes@.len(),
        texts(r.assertion_errors@) == errors_of(outcomes@),
        r.assertion_error_count == errors_of(outcomes@).len(),
        texts(r.case_names@) == outcomes@.map_values(|o: InlineHarnessCaseOutcome| o.name@),
        texts(r.receipt_ids@) == receipts_of(outcomes@),
        r.graph_case_count == graph_count(outcomes@),
{
    if outcomes.len() == 0 {
        let r = InlineHarnessReport::not_declared();
        assert(texts(r.assertion_errors@) =~= errors_of(outcomes@));
        assert(texts(r.case_names@) =~= outcomes@.map_values(
            |o: InlineHarnessCaseOutcome| o.name@,
        ));
        assert(texts(r.receipt_ids@) =~= receipts_of(outcomes@));
        return r;
    }
    let ghost errors = outcomes@.map_values(|o: InlineHarnessCaseOutcome| o.assertion_error);
    let ghost receipts = outcomes@.map_values(|o: InlineHarnessCaseOutcome| o.receipt_id);
    let ghost names = outcomes@.map_values(|o: InlineHarnessCaseOutcome| o.name@);
    let mut assertion_errors: Vec<String> = Vec::new();
    let mut case_names: Vec<String> = Vec::new();
    let mut receipt_ids: Vec<String> = Vec::new();
    let mut graph_case_count: usize = 0;
    let mut i: usize = 0;
    while i < outcomes.len()
        invariant
            i <= outcomes@.len(),
            errors == outcomes@.map_values(|o: InlineHarnessCaseOutcome| o.assertion_error),
            receipts == outcomes@.map_values(|o: InlineHarnessCaseOutcome| o.receipt_id),
            names == outcomes@.map_values(|o: InlineHarnessCaseOutcome| o.name@),
            texts(assertion_errors@) == present_texts(errors.take(i as int)),
            texts(receipt_ids@) == present_texts(receipts.take(i as int)),
            texts(case_names@) == names.take(i as int),
            graph_case_count == graph_count(outcomes@.take(i as int)),
            graph_case_count <= i,
        decreases outcomes.len() - i,
    {
        let outcome = &outcomes[i];
        proof {
            assert(errors.take(i + 1).drop_last() =~= errors.take(i as int));
            assert(receipts.take(i + 1).drop_last() =~= receipts.take(i as int));
            assert(outcomes@.take(i + 1).drop_last() =~= outcomes@.take(i as int));
        }
        let ghost before_names = case_names@;
        case_names.push(outcome.name.clone());
        assert(texts(case_names@) =~= texts(before_names).push(outcome.name@));
        assert(names.take(i + 1) =~= names.take(i as int).push(outcome.name@));
        if outcome.is_graph {
            graph_case_count += 1;
        }
        match &outcome.receipt_id {
            Some(id) => {
                let ghost before = receipt_ids@;
                receipt_ids.push(id.clone());
                assert(texts(receipt_ids@) =~= texts(before).push(id@));
            },
            None => {},
        }
        match &outcome.assertion_error {
            Some(e) => {
                let ghost before = assertion_errors@;
                assertion_errors.push(e.clone());
                assert(texts(assertion_errors@) =~= texts(before).push(e@));
            },
            None => {},
        }
        i += 1;
    }
    proof {
        assert(errors.take(outcomes@.len() as int) =~= errors);
        assert(receipts.take(outcomes@.len() as int) =~= receipts);
        assert(names.take(outcomes@.len() as int) =~= names);
        assert(outcomes@.take(outcomes@.len() as int) =~= outcomes@);
    }
    let status = if assertion_errors.len() == 0 {
        "passed"
    } else {
        "failed"
    };
    InlineHarnessReport {
        status,
        case_count: outcomes.len(),
        assertion_error_count: assertion_errors.len(),
        assertion_errors,
        case_names,
        receipt_ids,
        graph_case_count,
    }
}

} // verus!
