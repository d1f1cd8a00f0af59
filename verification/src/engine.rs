//! The transfer engine: paged discovery of the source objects and
//! bounded-concurrency dispatch of their transfers.
//!
//! The engine is a state machine driven by a loop that owns the storage
//! clients. The loop asks `next_action` what to do — issue the next listing
//! call, start a transfer, wait for one to finish, or stop — performs the
//! step, and reports the result back (`on_page`, `on_list_error`,
//! `take_task`, `on_task_done`). The run passes through four phases: idle,
//! dispatching while pages keep coming, draining once the listing is
//! exhausted (or has failed), and done when every task has reported.
//!
//! Pagination is sequential: a new page is requested only when the previous
//! page's tasks have all been handed out. Transfers are concurrent, capped
//! by the worker limit: at no point are more than `limit` tasks in flight.
//! A failed listing call is fatal — nothing further is listed or
//! dispatched — while a failed transfer only marks that one object and the
//! run goes on.

use vstd::prelude::*;
use crate::keymap::{destination_key, map_key, relative_key};
use crate::outcome::{RunStatus, RunSummary, TransferOutcome, run_status};
use crate::path::S3Path;

verus! {

/// One object as the listing reports it.
#[derive(Debug, Clone, PartialEq, Eq)]
pub struct ObjectDescriptor {
    pub key: String,
    pub size: Option<u64>,
}

/// One page of the listing: its objects in backend order, whether more
/// pages follow, and the token that fetches the next page.
#[derive(Debug)]
pub struct Page {
    pub objects: Vec<ObjectDescriptor>,
    pub is_truncated: bool,
    pub continuation_token: Option<String>,
}

/// Everything one transfer needs: where the object is, where it goes, and
/// the relative key its outcome is reported under.
#[derive(Debug, Clone, PartialEq, Eq)]
pub struct TransferSpec {
    pub source_bucket: String,
    pub source_key: String,
    pub destination_bucket: String,
    pub destination_key: String,
    pub relative_key: String,
}

impl TransferSpec {
    /// The task copies between the run's two containers and its keys follow
    /// the mapping rule.
    pub open spec fn consistent_with(self, source: S3Path, destination: S3Path) -> bool {
        &&& self.source_bucket@ == source.bucket@
        &&& self.destination_bucket@ == destination.bucket@
        &&& self.relative_key@ == relative_key(source.key@, self.source_key@)
        &&& self.destination_key@ == destination_key(destination.key@, self.relative_key@)
    }
}

/// What the driving loop should do next.
#[derive(Debug)]
pub enum Action {
    /// Issue the paged listing call, with this continuation token.
    List { continuation: Option<String> },
    /// A worker slot is free and a task is queued: take it with `take_task`.
    Dispatch,
    /// Wait for one in-flight task and report its outcome with
    /// `on_task_done`.
    AwaitOutcome,
    /// The listing is exhausted and every task has reported.
    Finished,
}

/// The engine's state. The fields are maintained by the methods below and
/// are read-only to callers; `wf` is the invariant they all preserve.
pub struct Engine {
    /// The container and prefix objects are listed from.
    pub source: S3Path,
    /// The container and prefix objects are copied under.
    pub destination: S3Path,
    /// The worker limit: the most tasks ever simultaneously in flight.
    pub limit: usize,
    /// How many dispatched tasks have not reported an outcome yet.
    pub in_flight: usize,
    /// The current page's tasks, mapped but not yet handed out.
    pub queue: Vec<TransferSpec>,
    /// No further page will be requested.
    pub listing_done: bool,
    /// The listing failed; the run is aborted after the drain.
    pub fatal: bool,
    /// Why the listing failed, when it did.
    pub fatal_cause: Option<String>,
    /// The continuation token for the next listing call.
    pub token: Option<String>,
    /// The outcomes recorded so far.
    pub summary: RunSummary,
    /// History: the keys of every page the listing returned, page by page.
    pub pages: Ghost<Seq<Seq<Seq<char>>>>,
    /// History: the source keys handed out to tasks, in dispatch order.
    pub dispatched: Ghost<Seq<Seq<char>>>,
}

impl Engine {
    /// The source keys still waiting in the queue.
    pub open spec fn queued_keys(self) -> Seq<Seq<char>> {
        self.queue@.map_values(|t: TransferSpec| t.source_key@)
    }

    /// Every key the listing has reported so far, in order.
    pub open spec fn listed_keys(self) -> Seq<Seq<char>> {
        self.pages@.flatten()
    }

    /// The engine's invariant: the concurrency bound holds, every queued
    /// task follows the key-mapping rule, every listed key is either
    /// dispatched or still queued (in order, with no duplication), and
    /// every dispatched task is either in flight or accounted for in the
    /// summary.
    pub open spec fn wf(self) -> bool {
        &&& self.limit >= 1
        &&& self.in_flight <= self.limit
        &&& self.source.wf()
        &&& self.destination.wf()
        &&& self.summary.wf()
        &&& (forall|i: int|
            0 <= i < self.queue@.len() ==> (#[trigger] self.queue@[i]).consistent_with(
                self.source,
                self.destination,
            ))
        &&& self.dispatched@ + self.queued_keys() == self.listed_keys()
        &&& self.in_flight + self.summary.total_attempted == self.dispatched@.len()
        &&& (self.fatal ==> self.listing_done && self.queue@.len() == 0)
        &&& (self.fatal <==> self.fatal_cause is Some)
    }

    /// The run is over: no more pages, nothing queued, nothing in flight.
    pub open spec fn is_finished(self) -> bool {
        self.listing_done && self.queue@.len() == 0 && self.in_flight == 0
    }

    /// A fresh engine for one run: nothing listed, nothing dispatched, the
    /// first listing call carries no token.
    pub fn new(source: S3Path, destination: S3Path, limit: usize) -> (e: Engine)
        requires
            source.wf(),
            destination.wf(),
            limit >= 1,
        ensures
            e.wf(),
            e.source == source,
            e.destination == destination,
            e.limit == limit,
            e.in_flight == 0,
            e.queue@.len() == 0,
            !e.listing_done,
            !e.fatal,
            e.token is None,
            e.summary.total_attempted == 0,
            e.summary.total_succeeded == 0,
            e.summary.failures@.len() == 0,
            e.pages@ == Seq::<Seq<Seq<char>>>::empty(),
            e.dispatched@ == Seq::<Seq<char>>::empty(),
    {
        let e = Engine {
            source,
            destination,
            limit,
            in_flight: 0,
            queue: Vec::new(),
            listing_done: false,
            fatal: false,
            fatal_cause: None,
            token: None,
            summary: RunSummary::new(),
            pages: Ghost(Seq::empty()),
            dispatched: Ghost(Seq::empty()),
        };
        proof {
            assert(e.queued_keys() =~= Seq::<Seq<char>>::empty());
            assert(e.dispatched@ + e.queued_keys() =~= e.listed_keys());
        }
        e
    }

    /// The scheduler's decision, a pure function of the state: dispatch
    /// while a task is queued and a slot is free; wait when the queue is
    /// held up by the bound or only the drain remains; list the next page
    /// once the queue is empty; finish when everything has reported.
    pub fn next_action(&self) -> (a: Action)
        requires
            self.wf(),
        ensures
            (match a {
                Action::Dispatch => self.queue@.len() > 0 && self.in_flight < self.limit,
                Action::AwaitOutcome => self.in_flight > 0 && (self.queue@.len() == 0
                    ==> self.listing_done) && (self.queue@.len() > 0 ==> self.in_flight
                    == self.limit),
                Action::List { continuation } => self.queue@.len() == 0 && !self.listing_done
                    && continuation == self.token,
                Action::Finished => self.queue@.len() == 0 && self.listing_done && self.in_flight
                    == 0,
            }),
    {
        if self.queue.len() > 0 {
            if self.in_flight < self.limit {
                Action::Dispatch
            } else {
                Action::AwaitOutcome
            }
        } else if !self.listing_done {
            let continuation = match &self.token {
                Some(t) => Some(t.clone()),
                None => None,
            };
            Action::List { continuation }
        } else if self.in_flight > 0 {
            Action::AwaitOutcome
        } else {
            Action::Finished
        }
    }

    /// Consumes one page of the listing: every object is mapped to its
    /// transfer and queued, in the page's order; the page decides whether
    /// more listing follows and under which token.
    pub fn on_page(&mut self, page: Page)
        requires
            old(self).wf(),
            old(self).queue@.len() == 0,
            !old(self).listing_done,
            !old(self).fatal,
        ensures
            final(self).wf(),
            final(self).source == old(self).source,
            final(self).destination == old(self).destination,
            final(self).limit == old(self).limit,
            final(self).in_flight == old(self).in_flight,
            final(self).summary == old(self).summary,
            final(self).dispatched == old(self).dispatched,
            !final(self).fatal,
            final(self).listing_done == !page.is_truncated,
            final(self).token == page.continuation_token,
            final(self).pages@ == old(self).pages@.push(
                page.objects@.map_values(|d: ObjectDescriptor| d.key@),
            ),
            final(self).queue@.len() == page.objects@.len(),
            forall|i: int|
                0 <= i < page.objects@.len() ==> (#[trigger] final(self).queue@[i]).source_key@
                    == page.objects@[i].key@ && final(self).queue@[i].consistent_with(
                    old(self).source,
                    old(self).destination,
                ),
    {
        let Page { objects, is_truncated, continuation_token } = page;
        let ghost page_keys = objects@.map_values(|d: ObjectDescriptor| d.key@);
        let mut objects = objects;
        while objects.len() > 0
            invariant
                self.source == old(self).source,
                self.destination == old(self).destination,
                self.limit == old(self).limit,
                self.in_flight == old(self).in_flight,
                self.summary == old(self).summary,
                self.pages == old(self).pages,
                self.dispatched == old(self).dispatched,
                self.fatal == old(self).fatal,
                self.fatal_cause == old(self).fatal_cause,
                self.listing_done == old(self).listing_done,
                self.token == old(self).token,
                old(self).wf(),
                self.queue@.len() + objects@.len() == page_keys.len(),
                forall|i: int|
                    0 <= i < self.queue@.len() ==> (#[trigger] self.queue@[i]).source_key@
                        == page_keys[i] && self.queue@[i].consistent_with(
                        old(self).source,
                        old(self).destination,
                    ),
                forall|j: int|
                    0 <= j < objects@.len() ==> #[trigger] objects@[j].key@ == page_keys[
                        self.queue@.len() + j],
            decreases objects.len(),
        {
            let d = objects.remove(0);
            let (rel, dst) = map_key(
                self.source.key.as_str(),
                self.destination.key.as_str(),
                d.key.as_str(),
            );
            let t = TransferSpec {
                source_bucket: self.source.bucket.clone(),
                source_key: d.key,
                destination_bucket: self.destination.bucket.clone(),
                destination_key: dst,
                relative_key: rel,
            };
            self.queue.push(t);
        }
        self.listing_done = !is_truncated;
        self.token = continuation_token;
        proof {
            self.pages@ = self.pages@.push(page_keys);
        }
        proof {
            let ghost oldpages = old(self).pages@;
            oldpages.lemma_flatten_push(page_keys);
            assert(old(self).queued_keys() =~= Seq::<Seq<char>>::empty());
            assert(old(self).dispatched@ + old(self).queued_keys() =~= old(self).dispatched@);
            assert(self.queued_keys() =~= page_keys);
            assert(self.dispatched@ + self.queued_keys() =~= oldpages.flatten() + page_keys);
            assert(self.listed_keys() =~= oldpages.flatten() + page_keys);
        }
    }

    /// Hands out the next transfer when a task is queued and a worker slot
    /// is free; otherwise nothing changes. A handed-out task counts as in
    /// flight until its outcome is reported.
    pub fn take_task(&mut self) -> (t: Option<TransferSpec>)
        requires
            old(self).wf(),
        ensures
            final(self).wf(),
            final(self).source == old(self).source,
            final(self).destination == old(self).destination,
            final(self).limit == old(self).limit,
            final(self).summary == old(self).summary,
            final(self).pages == old(self).pages,
            final(self).listing_done == old(self).listing_done,
            final(self).fatal == old(self).fatal,
            final(self).fatal_cause == old(self).fatal_cause,
            final(self).token == old(self).token,
            (if old(self).queue@.len() > 0 && old(self).in_flight < old(self).limit {
                &&& t == Some(old(self).queue@[0])
                &&& t matches Some(task) && task.consistent_with(
                    old(self).source,
                    old(self).destination,
                )
                &&& final(self).queue@ == old(self).queue@.drop_first()
                &&& final(self).in_flight == old(self).in_flight + 1
                &&& final(self).dispatched@ == old(self).dispatched@.push(
                    old(self).queue@[0].source_key@,
                )
            } else {
                &&& t is None
                &&& *final(self) == *old(self)
            }),
    {
        if self.queue.len() > 0 && self.in_flight < self.limit {
            let task = self.queue.remove(0);
            self.in_flight = self.in_flight + 1;
            proof {
                self.dispatched@ = self.dispatched@.push(task.source_key@);
            }
            proof {
                let ghost oldq = old(self).queue@;
                assert(self.queue@ =~= oldq.drop_first());
                assert(oldq[0].consistent_with(self.source, self.destination));
                assert forall|i: int|
                    0 <= i < self.queue@.len() implies (#[trigger] self.queue@[i]).consistent_with(
                    self.source,
                    self.destination,
                ) by {
                    assert(self.queue@[i] == oldq[i + 1]);
                    assert(oldq[i + 1].consistent_with(self.source, self.destination));
                }
                assert(self.dispatched@ + self.queued_keys() =~= old(self).dispatched@ + old(
                    self,
                ).queued_keys());
            }
            Some(task)
        } else {
            None
        }
    }

    /// A failed listing call is fatal: no further page is requested and
    /// nothing more is dispatched; what was listed before stays dispatched,
    /// and what is in flight may still report its outcome.
    pub fn on_list_error(&mut self, cause: String)
        requires
            old(self).wf(),
            old(self).queue@.len() == 0,
            !old(self).listing_done,
            !old(self).fatal,
        ensures
            final(self).wf(),
            final(self).fatal,
            final(self).listing_done,
            final(self).fatal_cause == Some(cause),
            final(self).source == old(self).source,
            final(self).destination == old(self).destination,
            final(self).limit == old(self).limit,
            final(self).in_flight == old(self).in_flight,
            final(self).queue@ == old(self).queue@,
            final(self).summary == old(self).summary,
            final(self).pages == old(self).pages,
            final(self).dispatched == old(self).dispatched,
    {
        self.fatal = true;
        self.fatal_cause = Some(cause);
        self.listing_done = true;
    }

    /// One in-flight task has reached its terminal outcome: the slot is
    /// freed and the outcome is recorded in the summary.
    pub fn on_task_done(&mut self, outcome: TransferOutcome)
        requires
            old(self).wf(),
            old(self).in_flight > 0,
            old(self).summary.total_attempted < u64::MAX,
        ensures
            final(self).wf(),
            final(self).in_flight == old(self).in_flight - 1,
            final(self).summary.total_attempted == old(self).summary.total_attempted + 1,
            (match outcome {
                TransferOutcome::Success { .. } => {
                    &&& final(self).summary.total_succeeded == old(self).summary.total_succeeded
                        + 1
                    &&& final(self).summary.failures@ == old(self).summary.failures@
                },
                TransferOutcome::Failure(f) => {
                    &&& final(self).summary.total_succeeded == old(self).summary.total_succeeded
                    &&& final(self).summary.failures@ == old(self).summary.failures@.push(f)
                },
            }),
            final(self).source == old(self).source,
            final(self).destination == old(self).destination,
            final(self).limit == old(self).limit,
            final(self).queue@ == old(self).queue@,
            final(self).listing_done == old(self).listing_done,
            final(self).fatal == old(self).fatal,
            final(self).fatal_cause == old(self).fatal_cause,
            final(self).token == old(self).token,
            final(self).pages == old(self).pages,
            final(self).dispatched == old(self).dispatched,
    {
        self.in_flight = self.in_flight - 1;
        self.summary.record(outcome);
    }

    /// The overall status of this run, as `run_status` maps it from the
    /// summary and the fatal flag.
    pub fn final_status(&self) -> (s: RunStatus)
        ensures
            s == (if self.fatal {
                RunStatus::FatalFailure
            } else if self.summary.failures@.len() == 0 {
                RunStatus::Success
            } else {
                RunStatus::PartialFailure
            }),
    {
        run_status(&self.summary, self.fatal)
    }
}

/// The concurrency bound: at no reachable state are more than `limit`
/// transfers simultaneously in flight.
pub proof fn lemma_concurrency_bound(e: Engine)
    requires
        e.wf(),
    ensures
        e.in_flight <= e.limit,
{
}

/// Pagination completeness: when a run finishes, the tasks it handed out
/// are exactly the objects of all listed pages — the same keys, in the same
/// order, each exactly once — and every one of them was attempted.
pub proof fn lemma_pagination_completeness(e: Engine)
    requires
        e.wf(),
        e.is_finished(),
    ensures
        e.dispatched@ == e.pages@.flatten(),
        e.summary.total_attempted == e.pages@.flatten().len(),
{
    assert(e.queued_keys() =~= Seq::<Seq<char>>::empty());
    assert(e.dispatched@ =~= e.dispatched@ + e.queued_keys());
}

/// Fatal isolation: once the listing has failed, no page is recorded after
/// the failure, the queue is empty so nothing further is dispatched, and
/// everything listed before the failure was already handed out.
pub proof fn lemma_fatal_isolation(e: Engine)
    requires
        e.wf(),
        e.fatal,
    ensures
        e.listing_done,
        e.queue@.len() == 0,
        e.dispatched@ == e.pages@.flatten(),
        e.fatal_cause is Some,
{
    assert(e.queued_keys() =~= Seq::<Seq<char>>::empty());
    assert(e.dispatched@ =~= e.dispatched@ + e.queued_keys());
}

} // verus!
