use vstd::prelude::*;
use crate::conf::{Account, Conf, Settings};
use crate::cycle::{lemma_run_cons, run};
use crate::worker::{Event, Phase, Worker};

verus! {

/// A worker for `account` that has not started yet.
pub open spec fn fresh_worker(account: Account, settings: Settings) -> Worker {
    Worker { account, settings, phase: Phase::Connect, dispatch: None }
}

/// One worker per configured account. The workers share nothing but the
/// timing settings, which none of them changes.
pub struct Supervisor {
    pub workers: Vec<Worker>,
}

impl Supervisor {
    /// Every worker is well formed.
    pub open spec fn wf(&self) -> bool {
        forall|i: int| 0 <= i < self.workers@.len() ==> #[trigger] self.workers@[i].wf()
    }

    /// A fresh worker for each account of `conf`, in the configured order,
    /// all with the configured retry delay and idle timeout.
    pub fn new(conf: Conf) -> (r: Supervisor)
        ensures
            r.wf(),
            r.workers@.len() == conf.accounts@.len(),
            forall|i: int|
                0 <= i < conf.accounts@.len() ==> #[trigger] r.workers@[i] == fresh_worker(
                    conf.accounts@[i],
                    Settings { retry: conf.retry, idle_timeout: conf.idle_timeout },
                ),
    {
        let settings = conf.settings();
        let mut accounts = conf.accounts;
        let ghost orig = accounts@;
        let mut workers: Vec<Worker> = Vec::new();
        while accounts.len() > 0
            invariant
                workers@.len() + accounts@.len() == orig.len(),
                accounts@ == orig.subrange(workers@.len() as int, orig.len() as int),
                settings == (Settings { retry: conf.retry, idle_timeout: conf.idle_timeout }),
                forall|j: int|
                    0 <= j < workers@.len() ==> #[trigger] workers@[j] == fresh_worker(
                        orig[j],
                        settings,
                    ) && workers@[j].wf(),
            decreases accounts@.len(),
        {
            let account = accounts.remove(0);
            let w = Worker::new(account, settings);
            workers.push(w);
            assert(accounts@ =~= orig.subrange(workers@.len() as int, orig.len() as int));
        }
        Supervisor { workers }
    }
}

/// The workers after `schedule`, where each entry hands one event to the
/// worker at its index (an index out of range hands it to nobody).
pub open spec fn run_all(ws: Seq<Worker>, schedule: Seq<(int, Event)>) -> Seq<Worker>
    decreases schedule.len(),
{
    if schedule.len() == 0 {
        ws
    } else {
        let (i, e) = schedule[0];
        let next = if 0 <= i < ws.len() {
            ws.update(i, ws[i].spec_step(e))
        } else {
            ws
        };
        run_all(next, schedule.drop_first())
    }
}

/// The events of `schedule` addressed to worker `b`, in order.
pub open spec fn events_for(schedule: Seq<(int, Event)>, b: int) -> Seq<Event>
    decreases schedule.len(),
{
    if schedule.len() == 0 {
        Seq::empty()
    } else {
        let rest = events_for(schedule.drop_first(), b);
        if schedule[0].0 == b {
            seq![schedule[0].1] + rest
        } else {
            rest
        }
    }
}

/// Workers are isolated: however the events of all workers interleave, and
/// whatever the other workers are told (failures included), each worker ends
/// exactly where its own events alone take it.
pub proof fn workers_are_isolated(ws: Seq<Worker>, schedule: Seq<(int, Event)>, b: int)
    requires
        0 <= b < ws.len(),
    ensures
        run_all(ws, schedule).len() == ws.len(),
        run_all(ws, schedule)[b] == run(ws[b], events_for(schedule, b)),
    decreases schedule.len(),
{
    if schedule.len() > 0 {
        let (i, e) = schedule[0];
        let next = if 0 <= i < ws.len() {
            ws.update(i, ws[i].spec_step(e))
        } else {
            ws
        };
        workers_are_isolated(next, schedule.drop_first(), b);
        if i == b {
            lemma_run_cons(ws[b], e, events_for(schedule.drop_first(), b));
        }
    }
}

} // verus!
