use vstd::prelude::*;
use crate::conf::{port_of, Account, Settings};

verus! {

/// The mailbox that every worker selects and watches.
pub const MAILBOX: &'static str = "INBOX";

/// The message range of the baseline fetch: the whole mailbox.
pub const FETCH_RANGE: &'static str = "1:*";

/// The items of the baseline fetch: the flags of each message.
pub const FETCH_ITEMS: &'static str = "(FLAGS )";

/// Where a worker stands in its cycle: the step it is about to perform.
#[derive(Clone, Copy, Debug, PartialEq, Eq, Structural)]
pub enum Phase {
    /// Open a secure transport to the account's host and port.
    Connect,
    /// Log in with the account's credentials.
    Authenticate,
    /// Select the watched mailbox.
    SelectMailbox,
    /// Fetch the flags of every message, to prove the session works.
    Baseline,
    /// Start the server's wait primitive.
    BeginWait,
    /// Wait for server activity, at most the idle timeout.
    Wait,
    /// Run the command at index `next` of the account's commands.
    React { next: usize },
    /// Close the wait primitive.
    EndWait,
    /// Log out of the session.
    Logout,
    /// Sleep for the retry delay before connecting again.
    Backoff,
}

/// Why a wait ended.
#[derive(Clone, Copy, Debug, PartialEq, Eq, Structural)]
pub enum Wake {
    ManualInterrupt,
    Timeout,
    NewData,
}

/// How the action that a worker asked for went.
#[derive(Clone, Copy, Debug, PartialEq, Eq, Structural)]
pub enum Event {
    /// The action completed.
    Succeeded,
    /// The action failed (for a command: it exited unsuccessfully or could
    /// not be started).
    Failed,
    /// The wait ended for the given reason.
    Woke(Wake),
}

/// The outcome of running an account's commands once.
#[derive(Clone, Copy, Debug, PartialEq, Eq, Structural)]
pub enum DispatchResult {
    /// Every command ran and exited successfully.
    Succeeded,
    /// The command at `index` failed; none after it ran.
    Failed { index: usize },
}

/// What the worker asks its driver to do next.
#[derive(Clone, Debug, PartialEq, Eq)]
pub enum Action {
    /// Open a secure transport to `host:port`, checking the server's identity
    /// against `host`.
    Connect { host: String, port: u16 },
    /// Authenticate the open transport.
    Login { user: String, pass: String },
    /// Select [`MAILBOX`].
    Select,
    /// Fetch [`FETCH_ITEMS`] of [`FETCH_RANGE`].
    FetchFlags,
    /// Start the wait primitive.
    BeginWait,
    /// Wait for server activity for at most `timeout_secs` seconds.
    Wait { timeout_secs: u64 },
    /// Run one command line through the shell.
    RunCommand { command: String },
    /// Close the wait primitive.
    EndWait,
    /// Log out.
    Logout,
    /// Sleep for `secs` seconds.
    Sleep { secs: u64 },
}

/// Where a worker goes once the wait ended: to its first command, or straight
/// to teardown when it has none.
pub open spec fn after_wait(n: nat) -> Phase {
    if n == 0 {
        Phase::EndWait
    } else {
        Phase::React { next: 0 }
    }
}

/// The phase after `p` once event `e` came in, for an account with `n`
/// commands. A failure before the wait's end aborts the cycle; a failed
/// command ends the commands but not the cycle; teardown goes on to the
/// backoff whatever happens.
pub open spec fn next_phase(p: Phase, e: Event, n: nat) -> Phase {
    let failed = e == Event::Failed;
    match p {
        Phase::Connect => if failed { Phase::Backoff } else { Phase::Authenticate },
        Phase::Authenticate => if failed { Phase::Backoff } else { Phase::SelectMailbox },
        Phase::SelectMailbox => if failed { Phase::Backoff } else { Phase::Baseline },
        Phase::Baseline => if failed { Phase::Backoff } else { Phase::BeginWait },
        Phase::BeginWait => if failed { Phase::Backoff } else { Phase::Wait },
        Phase::Wait => if failed { Phase::Backoff } else { after_wait(n) },
        Phase::React { next } => if failed || next + 1 >= n {
            Phase::EndWait
        } else {
            Phase::React { next: (next + 1) as usize }
        },
        Phase::EndWait => if failed { Phase::Backoff } else { Phase::Logout },
        Phase::Logout => Phase::Backoff,
        Phase::Backoff => Phase::Connect,
    }
}

/// The recorded outcome of the commands after `p` and `e`: set when the
/// commands end, cleared when a new cycle starts, kept otherwise.
pub open spec fn next_dispatch(
    p: Phase,
    e: Event,
    n: nat,
    d: Option<DispatchResult>,
) -> Option<DispatchResult> {
    match p {
        Phase::Wait => if e != Event::Failed && n == 0 {
            Some(DispatchResult::Succeeded)
        } else {
            d
        },
        Phase::React { next } => if e == Event::Failed {
            Some(DispatchResult::Failed { index: next })
        } else if next + 1 >= n {
            Some(DispatchResult::Succeeded)
        } else {
            d
        },
        Phase::Backoff => None,
        _ => d,
    }
}

/// The state machine of one account.
pub struct Worker {
    pub account: Account,
    pub settings: Settings,
    pub phase: Phase,
    /// The outcome of this cycle's commands, once they have run.
    pub dispatch: Option<DispatchResult>,
}

impl Worker {
    /// The commands can be counted in a `usize`, and a command index is
    /// pending only while it names a command.
    pub open spec fn wf(&self) -> bool {
        &&& self.account.commands@.len() <= usize::MAX
        &&& match self.phase {
            Phase::React { next } => next < self.account.commands@.len(),
            _ => true,
        }
    }

    /// The worker after event `e`.
    pub open spec fn spec_step(self, e: Event) -> Worker {
        let n = self.account.commands@.len();
        Worker {
            account: self.account,
            settings: self.settings,
            phase: next_phase(self.phase, e, n),
            dispatch: next_dispatch(self.phase, e, n, self.dispatch),
        }
    }

    /// The action the worker asks for in its phase.
    pub open spec fn spec_action(self) -> Action {
        match self.phase {
            Phase::Connect => Action::Connect { host: self.account.host, port: port_of(self.account) },
            Phase::Authenticate => Action::Login { user: self.account.user, pass: self.account.pass },
            Phase::SelectMailbox => Action::Select,
            Phase::Baseline => Action::FetchFlags,
            Phase::BeginWait => Action::BeginWait,
            Phase::Wait => Action::Wait { timeout_secs: self.settings.idle_timeout },
            Phase::React { next } => Action::RunCommand { command: self.account.commands@[next as int] },
            Phase::EndWait => Action::EndWait,
            Phase::Logout => Action::Logout,
            Phase::Backoff => Action::Sleep { secs: self.settings.retry },
        }
    }

    /// A worker for `account`, about to connect, with no recorded outcome.
    pub fn new(account: Account, settings: Settings) -> (r: Worker)
        ensures
            r.account == account,
            r.settings == settings,
            r.phase == Phase::Connect,
            r.dispatch.is_none(),
            r.wf(),
    {
        // the commands are held in a `Vec`, so their number fits a `usize`
        let _count: usize = account.commands.len();
        Worker { account, settings, phase: Phase::Connect, dispatch: None }
    }

    /// The action to perform now.
    pub fn action(&self) -> (r: Action)
        requires
            self.wf(),
        ensures
            r == self.spec_action(),
    {
        match self.phase {
            Phase::Connect => Action::Connect {
                host: self.account.host.clone(),
                port: self.account.port_or_default(),
            },
            Phase::Authenticate => Action::Login {
                user: self.account.user.clone(),
                pass: self.account.pass.clone(),
            },
            Phase::SelectMailbox => Action::Select,
            Phase::Baseline => Action::FetchFlags,
            Phase::BeginWait => Action::BeginWait,
            Phase::Wait => Action::Wait { timeout_secs: self.settings.idle_timeout },
            Phase::React { next } => Action::RunCommand { command: self.account.commands[next].clone() },
            Phase::EndWait => Action::EndWait,
            Phase::Logout => Action::Logout,
            Phase::Backoff => Action::Sleep { secs: self.settings.retry },
        }
    }

    /// Takes in how the last action went and moves to the next phase.
    pub fn step(&mut self, e: Event)
        requires
            old(self).wf(),
        ensures
            *final(self) == old(self).spec_step(e),
            final(self).wf(),
    {
        let n = self.account.commands.len();
        let failed = match e {
            Event::Failed => true,
            _ => false,
        };
        let p = self.phase;
        let (phase, dispatch) = match p {
            Phase::Connect => (if failed { Phase::Backoff } else { Phase::Authenticate }, self.dispatch),
            Phase::Authenticate => (if failed { Phase::Backoff } else { Phase::SelectMailbox }, self.dispatch),
            Phase::SelectMailbox => (if failed { Phase::Backoff } else { Phase::Baseline }, self.dispatch),
            Phase::Baseline => (if failed { Phase::Backoff } else { Phase::BeginWait }, self.dispatch),
            Phase::BeginWait => (if failed { Phase::Backoff } else { Phase::Wait }, self.dispatch),
            Phase::Wait => if failed {
                (Phase::Backoff, self.dispatch)
            } else if n == 0 {
                (Phase::EndWait, Some(DispatchResult::Succeeded))
            } else {
                (Phase::React { next: 0 }, self.dispatch)
            },
            Phase::React { next } => if failed {
                (Phase::EndWait, Some(DispatchResult::Failed { index: next }))
            } else if next + 1 >= n {
                (Phase::EndWait, Some(DispatchResult::Succeeded))
            } else {
                (Phase::React { next: next + 1 }, self.dispatch)
            },
            Phase::EndWait => (if failed { Phase::Backoff } else { Phase::Logout }, self.dispatch),
            Phase::Logout => (Phase::Backoff, self.dispatch),
            Phase::Backoff => (Phase::Connect, None),
        };
        self.phase = phase;
        self.dispatch = dispatch;
    }
}

} // verus!
