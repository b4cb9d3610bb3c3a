use vstd::prelude::*;
use crate::conf::Account;
use crate::worker::{Action, DispatchResult, Event, Phase, Wake, Worker};

verus! {

/// The worker after taking in `events` one by one.
pub open spec fn run(w: Worker, events: Seq<Event>) -> Worker
    decreases events.len(),
{
    if events.len() == 0 {
        w
    } else {
        run(w.spec_step(events[0]), events.drop_first())
    }
}

/// The actions the worker asks for while taking in `events`: one before each.
pub open spec fn trace(w: Worker, events: Seq<Event>) -> Seq<Action>
    decreases events.len(),
{
    if events.len() == 0 {
        Seq::empty()
    } else {
        seq![w.spec_action()] + trace(w.spec_step(events[0]), events.drop_first())
    }
}

/// `k` successes in a row.
pub open spec fn successes(k: nat) -> Seq<Event> {
    Seq::new(k, |i: int| Event::Succeeded)
}

/// The commands of `a` from index `lo` up to `hi`, each as the action that runs it.
pub open spec fn command_runs(a: Account, lo: nat, hi: nat) -> Seq<Action> {
    Seq::new((hi - lo) as nat, |i: int| Action::RunCommand { command: a.commands@[lo + i] })
}

/// The phases in which a failure aborts the cycle.
pub open spec fn is_session_step(p: Phase) -> bool {
    p == Phase::Connect || p == Phase::Authenticate || p == Phase::SelectMailbox
        || p == Phase::Baseline || p == Phase::BeginWait || p == Phase::Wait
}

/// Taking in `e` and then `rest` is taking in `e` followed by `rest`.
pub proof fn lemma_run_cons(w: Worker, e: Event, rest: Seq<Event>)
    ensures
        run(w, seq![e] + rest) == run(w.spec_step(e), rest),
        trace(w, seq![e] + rest) == seq![w.spec_action()] + trace(w.spec_step(e), rest),
{
    assert((seq![e] + rest).drop_first() =~= rest);
    assert((seq![e] + rest)[0] == e);
}

/// Taking in one event is one step.
pub proof fn lemma_run_one(w: Worker, e: Event)
    ensures
        run(w, seq![e]) == w.spec_step(e),
        trace(w, seq![e]) == seq![w.spec_action()],
{
    lemma_run_cons(w, e, Seq::empty());
    assert(seq![e] + Seq::<Event>::empty() =~= seq![e]);
    assert(seq![w.spec_action()] + Seq::<Action>::empty() =~= seq![w.spec_action()]);
}

/// Taking in `a` and then `b` is taking in `a + b`.
pub proof fn lemma_run_append(w: Worker, a: Seq<Event>, b: Seq<Event>)
    ensures
        run(w, a + b) == run(run(w, a), b),
        trace(w, a + b) == trace(w, a) + trace(run(w, a), b),
    decreases a.len(),
{
    if a.len() == 0 {
        assert(a + b =~= b);
        assert(trace(w, a) + trace(run(w, a), b) =~= trace(w, b));
    } else {
        assert((a + b).drop_first() =~= a.drop_first() + b);
        lemma_run_append(w.spec_step(a[0]), a.drop_first(), b);
        assert(trace(w, a + b) =~= trace(w, a) + trace(run(w, a), b));
    }
}

/// From command `k`, `m` successes run commands `k` to `k + m`; the commands
/// end successfully when the last one succeeded.
proof fn lemma_commands_succeed(w: Worker, k: nat, m: nat)
    requires
        w.wf(),
        k + m <= w.account.commands@.len(),
        w.phase == (Phase::React { next: k as usize }),
    ensures
        run(w, successes(m)).account == w.account,
        run(w, successes(m)).settings == w.settings,
        k + m < w.account.commands@.len() ==> run(w, successes(m)).phase == (Phase::React {
            next: (k + m) as usize,
        }) && run(w, successes(m)).dispatch == w.dispatch,
        k + m == w.account.commands@.len() ==> run(w, successes(m)).phase == Phase::EndWait
            && run(w, successes(m)).dispatch == Some(DispatchResult::Succeeded),
        trace(w, successes(m)) == command_runs(w.account, k, k + m),
    decreases m,
{
    let n = w.account.commands@.len();
    if m == 0 {
        assert(trace(w, successes(m)) =~= command_runs(w.account, k, k + m));
    } else {
        let w1 = w.spec_step(Event::Succeeded);
        assert(successes(m).drop_first() =~= successes((m - 1) as nat));
        if k + 1 == n {
            assert(m == 1);
            assert(successes(m) =~= seq![Event::Succeeded]);
            lemma_run_one(w, Event::Succeeded);
            assert(trace(w, successes(m)) =~= command_runs(w.account, k, k + m));
        } else {
            lemma_commands_succeed(w1, k + 1, (m - 1) as nat);
            assert(trace(w, successes(m)) =~= command_runs(w.account, k, k + m));
        }
    }
}

/// A failure in any step from connecting up to the end of the wait sends the
/// worker to sleep for exactly the retry delay, and the next action after
/// that sleep is a new connection.
pub proof fn retry_after_session_failure(w: Worker)
    requires
        w.wf(),
        is_session_step(w.phase),
    ensures
        w.spec_step(Event::Failed).phase == Phase::Backoff,
        w.spec_step(Event::Failed).spec_action() == (Action::Sleep { secs: w.settings.retry }),
        forall|e: Event| #[trigger] w.spec_step(Event::Failed).spec_step(e).phase == Phase::Connect,
{
}

/// A failure while closing the wait or logging out does not stop the worker:
/// it still sleeps for exactly the retry delay and then connects again.
pub proof fn teardown_failure_still_backs_off(w: Worker)
    requires
        w.wf(),
        w.phase == Phase::EndWait || w.phase == Phase::Logout,
    ensures
        w.spec_step(Event::Failed).phase == Phase::Backoff,
        w.spec_step(Event::Failed).spec_action() == (Action::Sleep { secs: w.settings.retry }),
        forall|e: Event| #[trigger] w.spec_step(Event::Failed).spec_step(e).phase == Phase::Connect,
{
}

/// When every command succeeds, the end of the wait is followed by all of the
/// account's commands, in order, and the commands are reported successful.
pub proof fn handlers_all_run(w: Worker, wake: Wake)
    requires
        w.wf(),
        w.phase == Phase::Wait,
    ensures
        ({
            let events = seq![Event::Woke(wake)] + successes(w.account.commands@.len());
            &&& trace(w, events) == seq![Action::Wait { timeout_secs: w.settings.idle_timeout }]
                + command_runs(w.account, 0, w.account.commands@.len())
            &&& run(w, events).phase == Phase::EndWait
            &&& run(w, events).dispatch == Some(DispatchResult::Succeeded)
            &&& run(w, events).account == w.account
            &&& run(w, events).settings == w.settings
        }),
{
    let n = w.account.commands@.len();
    let first = seq![Event::Woke(wake)];
    let w1 = w.spec_step(Event::Woke(wake));
    lemma_run_append(w, first, successes(n));
    lemma_run_one(w, Event::Woke(wake));
    if n == 0 {
        assert(successes(n) =~= Seq::<Event>::empty());
        assert(command_runs(w.account, 0, 0) =~= Seq::<Action>::empty());
        assert(trace(w1, successes(n)) =~= Seq::<Action>::empty());
    } else {
        lemma_commands_succeed(w1, 0, n);
    }
}

/// When command `j` fails after the ones before it succeeded, exactly the
/// commands up to `j` have run, in order, none after it is asked for, the
/// commands are reported failed at `j`, and the worker goes on to teardown.
pub proof fn handlers_stop_at_first_failure(w: Worker, wake: Wake, j: nat)
    requires
        w.wf(),
        j < w.account.commands@.len(),
        w.phase == Phase::Wait,
    ensures
        ({
            let events = seq![Event::Woke(wake)] + successes(j) + seq![Event::Failed];
            &&& trace(w, events) == seq![Action::Wait { timeout_secs: w.settings.idle_timeout }]
                + command_runs(w.account, 0, j + 1)
            &&& run(w, events).phase == Phase::EndWait
            &&& run(w, events).spec_action() == Action::EndWait
            &&& run(w, events).dispatch == Some(DispatchResult::Failed { index: j as usize })
        }),
{
    let first = seq![Event::Woke(wake)];
    let last = seq![Event::Failed];
    let w1 = w.spec_step(Event::Woke(wake));
    lemma_run_append(w, first, successes(j));
    lemma_run_append(w, first + successes(j), last);
    lemma_run_one(w, Event::Woke(wake));
    lemma_commands_succeed(w1, 0, j);
    let wj = run(w1, successes(j));
    lemma_run_one(wj, Event::Failed);
    assert(command_runs(w.account, 0, j) + seq![wj.spec_action()] =~= command_runs(
        w.account,
        0,
        j + 1,
    ));
    assert(trace(w, first + successes(j) + last) =~= seq![w.spec_action()] + command_runs(
        w.account,
        0,
        j + 1,
    ));
}

/// The timeout keeps the worker cycling: its wait is bounded by the idle
/// timeout; once the wait ends, for any reason, with every later step
/// succeeding, the commands run, the wait is closed, the session logged out,
/// the worker sleeps for the retry delay and then connects again.
pub proof fn idle_end_leads_to_new_cycle(w: Worker, wake: Wake)
    requires
        w.wf(),
        w.phase == Phase::Wait,
    ensures
        ({
            let n = w.account.commands@.len();
            let events = seq![Event::Woke(wake)] + successes(n + 3);
            &&& w.spec_action() == (Action::Wait { timeout_secs: w.settings.idle_timeout })
            &&& trace(w, events) == seq![Action::Wait { timeout_secs: w.settings.idle_timeout }]
                + command_runs(w.account, 0, n) + seq![
                Action::EndWait,
                Action::Logout,
                Action::Sleep { secs: w.settings.retry },
            ]
            &&& run(w, events).phase == Phase::Connect
        }),
{
    let n = w.account.commands@.len();
    let head = seq![Event::Woke(wake)] + successes(n);
    let tail = successes(3);
    handlers_all_run(w, wake);
    lemma_run_append(w, head, tail);
    assert(seq![Event::Woke(wake)] + successes(n + 3) =~= head + tail);
    let we = run(w, head);
    let w2 = we.spec_step(Event::Succeeded);
    let w3 = w2.spec_step(Event::Succeeded);
    let w4 = w3.spec_step(Event::Succeeded);
    assert(tail =~= seq![Event::Succeeded] + successes(2));
    assert(successes(2) =~= seq![Event::Succeeded] + successes(1));
    lemma_run_cons(we, Event::Succeeded, successes(2));
    lemma_run_cons(w2, Event::Succeeded, successes(1));
    assert(successes(1) =~= seq![Event::Succeeded]);
    lemma_run_one(w3, Event::Succeeded);
    assert(trace(we, tail) =~= seq![
        Action::EndWait,
        Action::Logout,
        Action::Sleep { secs: w.settings.retry },
    ]);
    assert(run(we, tail) == w4);
}

} // verus!
