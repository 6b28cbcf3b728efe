use vstd::prelude::*;

use crate::fetcher::{spec_done, spec_issue, spec_rollback, spec_step, FetchView};

verus! {

/// A possible run of the fetcher: every neighbouring pair of states is
/// one step.
pub open spec fn trace_ok(tr: Seq<FetchView>) -> bool {
    forall|k: int| 0 <= k < tr.len() - 1 ==> #[trigger] spec_step(tr[k], tr[k + 1])
}

/// Law: the completion answer is stable. Once the guard reports no more
/// data, no issuing step can leave that state: `next_request` answers
/// `None` and changes nothing, so every later call answers `None` too,
/// and no further request is ever issued.
pub proof fn lemma_guard_idempotent(v: FetchView, post: FetchView)
    requires
        spec_done(v),
    ensures
        !spec_issue(v, post),
{
}

/// Law: a failed fetch step is atomic. Issuing a request and rolling its
/// failure back compose to the identity: the state after the rollback is
/// the state before the request was issued, page counter included, so an
/// error leaves the fetcher exactly as it was.
pub proof fn lemma_failed_step_restores_state(s0: FetchView, s1: FetchView, s2: FetchView)
    requires
        spec_issue(s0, s1),
        spec_rollback(s1, s2),
    ensures
        s2 == s0,
{
    assert(s2 =~= s0);
}

/// Law: no step of the fetcher decreases the page counter, so over any
/// run the counter is monotone.
pub proof fn lemma_page_monotonic(tr: Seq<FetchView>, i: int, j: int)
    requires
        trace_ok(tr),
        0 <= i <= j < tr.len(),
    ensures
        tr[i].page <= tr[j].page,
    decreases j - i,
{
    if i < j {
        lemma_page_monotonic(tr, i, j - 1);
        assert(spec_step(tr[j - 1], tr[j - 1 + 1]));
    }
}

/// Law: page numbers sent to the server are strictly increasing. If one
/// request is issued at step `i` of a run and another at a later step
/// `j`, the later request carries the larger page number. Every issued
/// request carries the page number of the state it leaves behind.
pub proof fn lemma_issued_pages_strictly_increase(tr: Seq<FetchView>, i: int, j: int)
    requires
        trace_ok(tr),
        0 <= i < j,
        j + 1 < tr.len(),
        spec_issue(tr[i], tr[i + 1]),
        spec_issue(tr[j], tr[j + 1]),
    ensures
        tr[j + 1].page > tr[i + 1].page,
{
    lemma_page_monotonic(tr, i + 1, j);
}

proof fn lemma_page_zero_until_issue(tr: Seq<FetchView>, k: int)
    requires
        trace_ok(tr),
        tr.len() > 0,
        tr[0].page == 0,
        0 <= k < tr.len(),
        forall|m: int| 0 <= m < k ==> !(#[trigger] spec_issue(tr[m], tr[m + 1])),
    ensures
        tr[k].page == 0,
    decreases k,
{
    if k > 0 {
        lemma_page_zero_until_issue(tr, k - 1);
        assert(spec_step(tr[k - 1], tr[k - 1 + 1]));
        assert(!spec_issue(tr[k - 1], tr[k - 1 + 1]));
    }
}

/// Law: the first request of a run asks for page 1. A run starts at
/// page 0, and a step that issues no request leaves the counter alone,
/// so the first issuing step moves the counter from 0 to 1.
pub proof fn lemma_first_request_is_page_one(tr: Seq<FetchView>, k: int)
    requires
        trace_ok(tr),
        tr.len() > 0,
        tr[0].page == 0,
        0 <= k,
        k + 1 < tr.len(),
        spec_issue(tr[k], tr[k + 1]),
        forall|m: int| 0 <= m < k ==> !(#[trigger] spec_issue(tr[m], tr[m + 1])),
    ensures
        tr[k + 1].page == 1,
{
    lemma_page_zero_until_issue(tr, k);
}

} // verus!
