//! The worker that runs the search away from the controller, and the messages
//! that the two exchange. A new request takes the place of the one under way;
//! a pause drops it. The worker searches one reporting period at a time, so that
//! whoever drives it can look for a new message between two periods.

use vstd::prelude::*;
use crate::search::{
    answers, is_least_solution_from, is_solution, no_solution_in, search_range, MineRequest,
    WebworkerResponse,
};

verus! {

/// Number of attempts between two progress reports, and between two looks at
/// the incoming messages.
pub const REPORT_INTERVAL: u64 = 10_000;

/// A message to the worker.
#[derive(Debug, Clone, Copy, PartialEq, Eq)]
pub enum WebworkerRequest {
    /// Give up the search under way and answer nothing.
    Pause,
    /// Start a new search, in place of the one under way.
    Mine(MineRequest),
}

/// A search under way, and how far it has come.
#[derive(Debug, Clone, Copy, PartialEq, Eq)]
pub struct SearchJob {
    /// The request that is being worked on.
    pub request: MineRequest,
    /// The next nonce to try.
    pub next_nonce: u64,
}

/// The worker: idle, or at some point of one search.
#[derive(Debug, Clone)]
pub struct Worker {
    job: Option<SearchJob>,
}

impl View for Worker {
    type V = Option<SearchJob>;

    closed spec fn view(&self) -> Option<SearchJob> {
        self.job
    }
}

/// Builds the message that starts a search on the challenge `proof_hash` of the
/// miner `pubkey`, against the target `difficulty`.
pub fn mine(proof_hash: [u8; 32], difficulty: [u8; 32], pubkey: [u8; 32]) -> (msg: WebworkerRequest)
    ensures
        msg == WebworkerRequest::Mine(MineRequest { hash: proof_hash, difficulty, pubkey }),
{
    WebworkerRequest::Mine(MineRequest { hash: proof_hash, difficulty, pubkey })
}

/// The job of a worker that has just taken the message `msg`, whatever it was
/// doing before.
pub open spec fn after_message(job: Option<SearchJob>, msg: WebworkerRequest) -> Option<SearchJob> {
    match msg {
        WebworkerRequest::Pause => None,
        WebworkerRequest::Mine(request) => Some(SearchJob { request, next_nonce: 0 }),
    }
}

/// The last nonce of the reporting period that begins at `next_nonce`.
pub open spec fn period_end(next_nonce: u64) -> u64 {
    if next_nonce + REPORT_INTERVAL - 1 > u64::MAX {
        u64::MAX
    } else {
        (next_nonce + REPORT_INTERVAL - 1) as u64
    }
}

/// One period of work takes a worker from the job `before` to the job `after`
/// and yields `out`.
///
/// An idle worker stays idle and yields nothing. A searching worker tries the
/// nonces of one period. Where one of them solves the request, it yields the
/// answer for a search from `next_nonce` on and becomes idle. Where none does,
/// it yields nothing and goes on behind the period, or becomes idle where the
/// nonces have run out.
pub open spec fn advances(
    before: Option<SearchJob>,
    after: Option<SearchJob>,
    out: Option<WebworkerResponse>,
) -> bool {
    match before {
        None => after is None && out is None,
        Some(job) => {
            let last = period_end(job.next_nonce);
            match out {
                Some(resp) => {
                    &&& after is None
                    &&& resp.nonce <= last
                    &&& answers(job.request, job.next_nonce, resp)
                },
                None => {
                    &&& no_solution_in(job.request, job.next_nonce, last)
                    &&& after == if last == u64::MAX {
                        None
                    } else {
                        Some(SearchJob { request: job.request, next_nonce: (last + 1) as u64 })
                    }
                },
            }
        },
    }
}

impl Worker {
    /// An idle worker.
    pub fn new() -> (worker: Worker)
        ensures
            worker@ is None,
    {
        Worker { job: None }
    }

    /// Takes a message: a pause drops the search under way, a request starts
    /// its search at nonce 0 in place of the one under way.
    pub fn receive(&mut self, msg: WebworkerRequest)
        ensures
            final(self)@ == after_message(old(self)@, msg),
    {
        match msg {
            WebworkerRequest::Pause => {
                self.job = None;
            },
            WebworkerRequest::Mine(request) => {
                self.job = Some(SearchJob { request, next_nonce: 0 });
            },
        }
    }

    /// Works for one reporting period, and yields the response if the search
    /// ended in it.
    pub fn advance(&mut self) -> (out: Option<WebworkerResponse>)
        ensures
            advances(old(self)@, final(self)@, out),
    {
        match self.job {
            None => None,
            Some(job) => {
                let last = if job.next_nonce > u64::MAX - (REPORT_INTERVAL - 1) {
                    u64::MAX
                } else {
                    job.next_nonce + (REPORT_INTERVAL - 1)
                };
                let found = search_range(&job.request, job.next_nonce, last);
                match found {
                    Some(_) => {
                        self.job = None;
                    },
                    None => {
                        if last == u64::MAX {
                            self.job = None;
                        } else {
                            self.job = Some(
                                SearchJob { request: job.request, next_nonce: last + 1 },
                            );
                        }
                    },
                }
                found
            },
        }
    }

    /// The search under way, if there is one: its request, and the nonce that
    /// it has come to.
    pub fn job(&self) -> (job: Option<SearchJob>)
        ensures
            job == self@,
    {
        self.job
    }

    /// Tells whether a search is under way.
    pub fn is_searching(&self) -> (searching: bool)
        ensures
            searching == self@ is Some,
    {
        self.job.is_some()
    }
}

/// What a worker is given at one step of its life: a message, or the time to
/// work for one period.
pub enum WorkerInput {
    /// A message arrives.
    Message(WebworkerRequest),
    /// The worker works for one period.
    Advance,
}

/// One step of a worker's life: what it was given, the job it had afterwards,
/// and what it yielded.
pub struct WorkerStep {
    pub input: WorkerInput,
    pub after: Option<SearchJob>,
    pub output: Option<WebworkerResponse>,
}

/// `step` is a step that a worker with the job `before` can take: a message is
/// taken as `Worker::receive` takes it and yields nothing, a period of work goes
/// as `Worker::advance` does.
pub open spec fn step_ok(before: Option<SearchJob>, step: WorkerStep) -> bool {
    match step.input {
        WorkerInput::Message(msg) => step.after == after_message(before, msg) && step.output is None,
        WorkerInput::Advance => advances(before, step.after, step.output),
    }
}

/// The job of the worker before step `i` of `steps`, where it began with the
/// job `start`.
pub open spec fn job_before(start: Option<SearchJob>, steps: Seq<WorkerStep>, i: int) -> Option<
    SearchJob,
> {
    if i == 0 {
        start
    } else {
        steps[i - 1].after
    }
}

/// Step `i` of `steps` is one that the worker can take from the job it has
/// before it.
pub open spec fn step_ok_at(start: Option<SearchJob>, steps: Seq<WorkerStep>, i: int) -> bool {
    step_ok(job_before(start, steps, i), steps[i])
}

/// `steps` is a life that a worker can lead from the job `start` on.
pub open spec fn is_run(start: Option<SearchJob>, steps: Seq<WorkerStep>) -> bool {
    forall|i: int| 0 <= i < steps.len() ==> #[trigger] step_ok_at(start, steps, i)
}

/// No message arrives after step `from` up to step `to`, `to` included.
pub open spec fn only_advances(steps: Seq<WorkerStep>, from: int, to: int) -> bool {
    forall|t: int| from < t <= to ==> (#[trigger] steps[t]).input is Advance
}

/// No step from `from` to `to`, both included, yields a response.
pub open spec fn silent(steps: Seq<WorkerStep>, from: int, to: int) -> bool {
    forall|t: int| from <= t <= to ==> (#[trigger] steps[t]).output is None
}

/// At most one step from `from` to `to`, both included, yields a response.
pub open spec fn at_most_one_response(steps: Seq<WorkerStep>, from: int, to: int) -> bool {
    forall|t1: int, t2: int|
        from <= t1 < t2 <= to ==> !((#[trigger] steps[t1]).output is Some && (
        #[trigger] steps[t2]).output is Some)
}

/// Every response that a step from `from` to `to` yields, both included, is the
/// answer to `request`.
pub open spec fn responses_answer(
    steps: Seq<WorkerStep>,
    from: int,
    to: int,
    request: MineRequest,
) -> bool {
    forall|t: int|
        from <= t <= to ==> ((#[trigger] steps[t]).output matches Some(resp) ==> answers(
            request,
            0,
            resp,
        ))
}

/// No nonce below `next_nonce` solves `request`.
spec fn none_below(request: MineRequest, next_nonce: u64) -> bool {
    forall|n: u64| n < next_nonce ==> !is_solution(request, n)
}

/// After step `i`, the worker is still at work on `request`, has ruled out what
/// lies behind it, and has yielded nothing since step `m`.
spec fn still_searching(steps: Seq<WorkerStep>, m: int, i: int, request: MineRequest) -> bool {
    &&& steps[i].after matches Some(job) && job.request == request && none_below(
        request,
        job.next_nonce,
    )
    &&& silent(steps, m, i)
}

/// After step `i`, the worker is idle, and since step `m` it has yielded at most
/// one response, the answer to `request`.
spec fn search_over(steps: Seq<WorkerStep>, m: int, i: int, request: MineRequest) -> bool {
    &&& steps[i].after is None
    &&& at_most_one_response(steps, m, i)
    &&& responses_answer(steps, m, i, request)
}

/// From a request on, and as long as no other message arrives, the worker is
/// either still at work on that request or done with it.
proof fn lemma_since_request(
    start: Option<SearchJob>,
    steps: Seq<WorkerStep>,
    m: int,
    i: int,
    request: MineRequest,
)
    requires
        is_run(start, steps),
        0 <= m <= i < steps.len(),
        steps[m].input == WorkerInput::Message(WebworkerRequest::Mine(request)),
        only_advances(steps, m, i),
    ensures
        still_searching(steps, m, i, request) || search_over(steps, m, i, request),
    decreases i - m,
{
    if i == m {
        assert(step_ok_at(start, steps, m));
        assert(still_searching(steps, m, i, request));
    } else {
        lemma_since_request(start, steps, m, i - 1, request);
        assert(steps[i].input is Advance);
        assert(step_ok_at(start, steps, i));
        let before = steps[i - 1].after;
        assert(advances(before, steps[i].after, steps[i].output));
        if still_searching(steps, m, i - 1, request) {
            let job = before->Some_0;
            let last = period_end(job.next_nonce);
            match steps[i].output {
                Some(resp) => {
                    assert(is_least_solution_from(request, 0, resp.nonce)) by {
                        assert forall|n: u64| 0 <= n < resp.nonce implies !is_solution(
                            request,
                            n,
                        ) by {
                            if n >= job.next_nonce {
                                assert(job.next_nonce <= n < resp.nonce);
                            }
                        }
                    }
                    assert(answers(request, 0, resp));
                    assert(search_over(steps, m, i, request));
                },
                None => {
                    if last == u64::MAX {
                        assert(search_over(steps, m, i, request));
                    } else {
                        assert(none_below(request, (last + 1) as u64)) by {
                            assert forall|n: u64| n < last + 1 implies !is_solution(
                                request,
                                n,
                            ) by {
                                if n >= job.next_nonce {
                                    assert(job.next_nonce <= n <= last);
                                }
                            }
                        }
                        assert(still_searching(steps, m, i, request));
                    }
                },
            }
        } else {
            assert(search_over(steps, m, i, request));
        }
    }
}

/// One request gets one response at most: of two steps that follow a request,
/// with no other message up to the later one, at most one yields a response.
pub proof fn lemma_one_response_per_request(
    start: Option<SearchJob>,
    steps: Seq<WorkerStep>,
    m: int,
    k: int,
)
    requires
        is_run(start, steps),
        0 <= m <= k < steps.len(),
        steps[m].input matches WorkerInput::Message(WebworkerRequest::Mine(_)),
        only_advances(steps, m, k),
    ensures
        at_most_one_response(steps, m, k),
{
    let request = steps[m].input->Message_0->Mine_0;
    lemma_since_request(start, steps, m, k, request);
}

/// A response is the answer to the request last taken: where a step yields a
/// response and the last message before it was a request, the response holds
/// the least nonce that solves that request, and the digest of that attempt.
pub proof fn lemma_response_answers_latest_request(
    start: Option<SearchJob>,
    steps: Seq<WorkerStep>,
    m: int,
    k: int,
    request: MineRequest,
)
    requires
        is_run(start, steps),
        0 <= m <= k < steps.len(),
        steps[m].input == WorkerInput::Message(WebworkerRequest::Mine(request)),
        only_advances(steps, m, k),
    ensures
        responses_answer(steps, m, k, request),
{
    lemma_since_request(start, steps, m, k, request);
}

/// A pause silences the worker: after a pause, and as long as no new request
/// arrives, the worker is idle and no step yields a response.
pub proof fn lemma_pause_silences(
    start: Option<SearchJob>,
    steps: Seq<WorkerStep>,
    m: int,
    k: int,
)
    requires
        is_run(start, steps),
        0 <= m <= k < steps.len(),
        steps[m].input == WorkerInput::Message(WebworkerRequest::Pause),
        only_advances(steps, m, k),
    ensures
        steps[k].after is None,
        silent(steps, m, k),
    decreases k - m,
{
    assert(step_ok_at(start, steps, k));
    if k > m {
        lemma_pause_silences(start, steps, m, k - 1);
        assert(steps[k].input is Advance);
    }
}

/// A new request takes the place of the one under way. Let a request arrive at
/// step `a` and a second one, `second`, at step `b`, with no other message up
/// to step `k`, and let the first search not have ended before the second
/// request came. Then from step `a` to step `k` the worker yields at most one
/// response, and that one is the answer to `second`.
pub proof fn lemma_new_request_supersedes(
    start: Option<SearchJob>,
    steps: Seq<WorkerStep>,
    a: int,
    b: int,
    k: int,
    second: MineRequest,
)
    requires
        is_run(start, steps),
        0 <= a < b <= k < steps.len(),
        steps[a].input matches WorkerInput::Message(WebworkerRequest::Mine(_)),
        steps[b].input == WorkerInput::Message(WebworkerRequest::Mine(second)),
        only_advances(steps, a, b - 1),
        only_advances(steps, b, k),
        silent(steps, a, b - 1),
    ensures
        at_most_one_response(steps, a, k),
        responses_answer(steps, a, k, second),
{
    lemma_since_request(start, steps, b, k, second);
    assert(step_ok_at(start, steps, b));
    assert forall|t1: int, t2: int| a <= t1 < t2 <= k implies !((#[trigger] steps[t1]).output is Some
        && (#[trigger] steps[t2]).output is Some) by {
        if t1 < b {
            assert(steps[t1].output is None);
        }
    }
    assert forall|t: int| a <= t <= k implies ((#[trigger] steps[t]).output matches Some(resp)
        ==> answers(second, 0, resp)) by {
        if t < b {
            assert(steps[t].output is None);
        }
    }
}

} // verus!
