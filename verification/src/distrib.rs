//! The distribution worker: which published files still have to be copied
//! to the remote host, and what to do next as connections come and go.

use vstd::prelude::*;
use vstd::string::StringExecFns;

verus! {

/// Seconds to wait before connecting again after a failure.
pub const BACKOFF_SECS: u64 = 10;

/// Permission mode of a file on the remote host.
pub const FILE_MODE: i32 = 0o644;

/// Directory, on both hosts, that holds the published files.
pub const OUTPUT_DIR: &'static str = "/var/www/html/iris/";

/// What the worker is waiting for.
#[derive(Clone, Copy, Debug, PartialEq, Eq, Structural)]
pub enum Phase {
    /// Not started.
    Idle,
    /// A connection to the remote host.
    Connecting,
    /// The answer of the session agent.
    AuthAgent,
    /// The answer to the private key.
    AuthKey,
    /// A notice, with nothing pending.
    Waiting,
    /// The notices that are queued.
    Draining,
    /// The end of a transfer of everything pending.
    Copying,
    /// The end of the pause after a failure.
    Backoff,
    /// A notice to discard: no destination is configured.
    Discarding,
    /// Nothing: the notices have ended.
    Stopped,
}

/// What happened.
#[derive(Debug, PartialEq, Eq)]
pub enum Event {
    /// The worker is started.
    Start,
    /// The connection stands.
    Connected,
    /// The connection could not be made.
    ConnectFailed,
    /// The remote host accepted the credentials.
    AuthOk,
    /// The remote host refused the credentials.
    AuthFailed,
    /// A resource was published.
    Notice(usize),
    /// No notice will come any more.
    Closed,
    /// These notices were queued.
    Drained(Vec<usize>),
    /// Every pending file was copied.
    Copied,
    /// A transfer failed.
    CopyFailed,
    /// The pause is over.
    Slept,
}

/// What to do next.
#[derive(Debug, PartialEq, Eq)]
pub enum Action {
    /// Connect to the remote host.
    Connect,
    /// Authenticate through the session agent.
    AuthAgent,
    /// Authenticate with the private key file, without a passphrase.
    AuthKey,
    /// Block until a notice arrives.
    Receive,
    /// Take the notices that are queued, without blocking.
    Drain,
    /// Copy the files of these resources, in this order.
    Copy(Vec<usize>),
    /// Discard the session and pause for so many seconds.
    Sleep(u64),
    /// Report that the resource is not copied, and block for the next
    /// notice.
    Discard(usize),
    /// End.
    Stop,
}

/// What happened, as a value of specifications.
pub enum EventView {
    Start,
    Connected,
    ConnectFailed,
    AuthOk,
    AuthFailed,
    Notice(usize),
    Closed,
    Drained(Seq<usize>),
    Copied,
    CopyFailed,
    Slept,
}

/// What to do next, as a value of specifications.
pub enum ActionView {
    Connect,
    AuthAgent,
    AuthKey,
    Receive,
    Drain,
    Copy(Seq<usize>),
    Sleep(u64),
    Discard(usize),
    Stop,
}

impl View for Event {
    type V = EventView;

    open spec fn view(&self) -> EventView {
        match *self {
            Event::Start => EventView::Start,
            Event::Connected => EventView::Connected,
            Event::ConnectFailed => EventView::ConnectFailed,
            Event::AuthOk => EventView::AuthOk,
            Event::AuthFailed => EventView::AuthFailed,
            Event::Notice(r) => EventView::Notice(r),
            Event::Closed => EventView::Closed,
            Event::Drained(v) => EventView::Drained(v@),
            Event::Copied => EventView::Copied,
            Event::CopyFailed => EventView::CopyFailed,
            Event::Slept => EventView::Slept,
        }
    }
}

impl View for Action {
    type V = ActionView;

    open spec fn view(&self) -> ActionView {
        match *self {
            Action::Connect => ActionView::Connect,
            Action::AuthAgent => ActionView::AuthAgent,
            Action::AuthKey => ActionView::AuthKey,
            Action::Receive => ActionView::Receive,
            Action::Drain => ActionView::Drain,
            Action::Copy(v) => ActionView::Copy(v@),
            Action::Sleep(s) => ActionView::Sleep(s),
            Action::Discard(r) => ActionView::Discard(r),
            Action::Stop => ActionView::Stop,
        }
    }
}

/// The state of the worker, as a value of specifications.
pub struct WorkerView {
    /// Whether a destination is configured.
    pub destination: bool,
    /// What the worker is waiting for.
    pub phase: Phase,
    /// The resources whose files are still to be copied, in the order in
    /// which they were first noticed.
    pub pending: Seq<usize>,
}

/// The distribution worker.
#[derive(Debug)]
pub struct Worker {
    destination: bool,
    phase: Phase,
    pending: Vec<usize>,
}

/// `pending` with `r` noted: at the end, unless it is pending already.
pub open spec fn noted(pending: Seq<usize>, r: usize) -> Seq<usize> {
    if pending.contains(r) {
        pending
    } else {
        pending.push(r)
    }
}

/// `pending` with the first `n` of `notices` noted, one after the other.
pub open spec fn noted_all(pending: Seq<usize>, notices: Seq<usize>, n: int) -> Seq<usize>
    decreases n,
{
    if n <= 0 {
        pending
    } else {
        noted(noted_all(pending, notices, n - 1), notices[n - 1])
    }
}

/// The session is ready: wait for a notice if nothing is pending, and
/// else take what is queued and go on to copy.
pub open spec fn session_ready(s: WorkerView) -> (WorkerView, ActionView) {
    if s.pending.len() == 0 {
        (WorkerView { phase: Phase::Waiting, ..s }, ActionView::Receive)
    } else {
        (WorkerView { phase: Phase::Draining, ..s }, ActionView::Drain)
    }
}

/// The session failed: discard it and pause. What is pending stays.
pub open spec fn session_failed(s: WorkerView) -> (WorkerView, ActionView) {
    (WorkerView { phase: Phase::Backoff, ..s }, ActionView::Sleep(BACKOFF_SECS))
}

/// The action that a phase is waiting on.
pub open spec fn awaited(s: WorkerView) -> ActionView {
    match s.phase {
        Phase::Idle => ActionView::Stop,
        Phase::Connecting => ActionView::Connect,
        Phase::AuthAgent => ActionView::AuthAgent,
        Phase::AuthKey => ActionView::AuthKey,
        Phase::Waiting => ActionView::Receive,
        Phase::Draining => ActionView::Drain,
        Phase::Copying => ActionView::Copy(s.pending),
        Phase::Backoff => ActionView::Sleep(BACKOFF_SECS),
        Phase::Discarding => ActionView::Receive,
        Phase::Stopped => ActionView::Stop,
    }
}

/// The worker's rule: the state after an event, and what to do next. An
/// event that the phase does not wait for changes nothing, and the action
/// that the phase waits on is asked for again.
pub open spec fn next(s: WorkerView, e: EventView) -> (WorkerView, ActionView) {
    match (s.phase, e) {
        (Phase::Idle, EventView::Start) => if s.destination {
            (WorkerView { phase: Phase::Connecting, ..s }, ActionView::Connect)
        } else {
            (WorkerView { phase: Phase::Discarding, ..s }, ActionView::Receive)
        },
        (Phase::Connecting, EventView::Connected) => (
            WorkerView { phase: Phase::AuthAgent, ..s },
            ActionView::AuthAgent,
        ),
        (Phase::Connecting, EventView::ConnectFailed) => session_failed(s),
        (Phase::AuthAgent, EventView::AuthOk) => session_ready(s),
        (Phase::AuthAgent, EventView::AuthFailed) => (
            WorkerView { phase: Phase::AuthKey, ..s },
            ActionView::AuthKey,
        ),
        (Phase::AuthKey, EventView::AuthOk) => session_ready(s),
        (Phase::AuthKey, EventView::AuthFailed) => session_failed(s),
        (Phase::Waiting, EventView::Notice(r)) => (
            WorkerView { phase: Phase::Draining, pending: noted(s.pending, r), ..s },
            ActionView::Drain,
        ),
        (Phase::Waiting, EventView::Closed) => (
            WorkerView { phase: Phase::Connecting, ..s },
            ActionView::Connect,
        ),
        (Phase::Draining, EventView::Drained(notices)) => {
            let pending = noted_all(s.pending, notices, notices.len() as int);
            (WorkerView { phase: Phase::Copying, pending, ..s }, ActionView::Copy(pending))
        },
        (Phase::Copying, EventView::Copied) => (
            WorkerView { phase: Phase::Waiting, pending: Seq::empty(), ..s },
            ActionView::Receive,
        ),
        (Phase::Copying, EventView::CopyFailed) => session_failed(s),
        (Phase::Backoff, EventView::Slept) => (
            WorkerView { phase: Phase::Connecting, ..s },
            ActionView::Connect,
        ),
        (Phase::Discarding, EventView::Notice(r)) => (s, ActionView::Discard(r)),
        (Phase::Discarding, EventView::Closed) => (
            WorkerView { phase: Phase::Stopped, ..s },
            ActionView::Stop,
        ),
        _ => (s, awaited(s)),
    }
}

/// No resource is pending twice.
pub open spec fn distinct(pending: Seq<usize>) -> bool {
    pending.no_duplicates()
}

/// Noting a resource keeps the pending resources distinct, and makes
/// pending exactly what was pending and the resource.
pub proof fn lemma_noted(pending: Seq<usize>, r: usize)
    requires
        distinct(pending),
    ensures
        distinct(noted(pending, r)),
        noted(pending, r).to_set() == pending.to_set().insert(r),
{
    let after = noted(pending, r);
    assert forall|x: usize| after.to_set().contains(x) <==> pending.to_set().insert(r).contains(
        x,
    ) by {
        if after.contains(x) {
            let i = choose|i: int| 0 <= i < after.len() && after[i] == x;
            if i < pending.len() {
                assert(pending[i] == x);
            }
        }
        if pending.contains(x) {
            let i = choose|i: int| 0 <= i < pending.len() && pending[i] == x;
            assert(after[i] == x);
        }
        if x == r && !pending.contains(r) {
            assert(after[pending.len() as int] == r);
        }
    }
    assert(after.to_set() =~= pending.to_set().insert(r));
}

/// Noting several resources keeps the pending resources distinct, and
/// makes pending exactly what was pending and those resources.
pub proof fn lemma_noted_all(pending: Seq<usize>, notices: Seq<usize>, n: int)
    requires
        distinct(pending),
        0 <= n <= notices.len(),
    ensures
        distinct(noted_all(pending, notices, n)),
        noted_all(pending, notices, n).to_set() == pending.to_set().union(
            notices.take(n).to_set(),
        ),
    decreases n,
{
    if n > 0 {
        lemma_noted_all(pending, notices, n - 1);
        let before = noted_all(pending, notices, n - 1);
        lemma_noted(before, notices[n - 1]);
        let front = notices.take(n - 1);
        let upto = notices.take(n);
        assert(upto =~= front.push(notices[n - 1]));
        assert forall|x: usize|
            pending.to_set().union(upto.to_set()).contains(x) <==> pending.to_set().union(
                front.to_set(),
            ).insert(notices[n - 1]).contains(x) by {
            if upto.contains(x) {
                let i = choose|i: int| 0 <= i < upto.len() && upto[i] == x;
                if i < n - 1 {
                    assert(front[i] == x);
                }
            }
            if front.contains(x) {
                let i = choose|i: int| 0 <= i < front.len() && front[i] == x;
                assert(upto[i] == x);
            }
            if x == notices[n - 1] {
                assert(upto[n - 1] == x);
            }
        }
        assert(noted_all(pending, notices, n).to_set() =~= pending.to_set().union(
            notices.take(n).to_set(),
        ));
    } else {
        assert(notices.take(0).to_set() =~= Set::<usize>::empty());
        assert(pending.to_set().union(notices.take(0).to_set()) =~= pending.to_set());
    }
}

impl View for Worker {
    type V = WorkerView;

    closed spec fn view(&self) -> WorkerView {
        WorkerView { destination: self.destination, phase: self.phase, pending: self.pending@ }
    }
}

impl Worker {
    /// No resource is pending twice.
    pub open spec fn wf(&self) -> bool {
        distinct(self@.pending)
    }

    /// A worker that is not started, with nothing pending.
    ///
    /// * `destination` Whether a remote host is configured; without one
    ///   the worker discards every notice.
    pub fn new(destination: bool) -> (r: Self)
        ensures
            r.wf(),
            r@ == (WorkerView { destination, phase: Phase::Idle, pending: Seq::empty() }),
    {
        Worker { destination, phase: Phase::Idle, pending: Vec::new() }
    }

    /// What the worker is waiting for.
    pub fn phase(&self) -> (r: Phase)
        ensures
            r == self@.phase,
    {
        self.phase
    }

    /// The resources whose files are still to be copied.
    pub fn pending(&self) -> (r: &Vec<usize>)
        ensures
            r@ == self@.pending,
    {
        &self.pending
    }

    /// Note that a resource was published.
    fn note(&mut self, r: usize)
        requires
            old(self).wf(),
        ensures
            final(self).wf(),
            final(self)@ == (WorkerView { pending: noted(old(self)@.pending, r), ..old(self)@ }),
    {
        let mut i: usize = 0;
        while i < self.pending.len()
            invariant
                i <= self.pending@.len(),
                self.wf(),
                self@ == old(self)@,
                forall|j: int| 0 <= j < i ==> self.pending@[j] != r,
            decreases self.pending@.len() - i,
        {
            if self.pending[i] == r {
                assert(self.pending@.contains(r));
                return ;
            }
            i += 1;
        }
        proof {
            lemma_noted(self.pending@, r);
        }
        self.pending.push(r);
    }

    /// The session is ready.
    fn ready(&mut self) -> (a: Action)
        ensures
            (final(self)@, a@) == session_ready(old(self)@),
    {
        if self.pending.len() == 0 {
            self.phase = Phase::Waiting;
            Action::Receive
        } else {
            self.phase = Phase::Draining;
            Action::Drain
        }
    }

    /// The session failed.
    fn failed(&mut self) -> (a: Action)
        ensures
            (final(self)@, a@) == session_failed(old(self)@),
    {
        self.phase = Phase::Backoff;
        Action::Sleep(BACKOFF_SECS)
    }

    /// Ask again for what the phase is waiting on.
    fn again(&self) -> (a: Action)
        ensures
            a@ == awaited(self@),
    {
        match self.phase {
            Phase::Idle => Action::Stop,
            Phase::Connecting => Action::Connect,
            Phase::AuthAgent => Action::AuthAgent,
            Phase::AuthKey => Action::AuthKey,
            Phase::Waiting => Action::Receive,
            Phase::Draining => Action::Drain,
            Phase::Copying => Action::Copy(self.pending.clone()),
            Phase::Backoff => Action::Sleep(BACKOFF_SECS),
            Phase::Discarding => Action::Receive,
            Phase::Stopped => Action::Stop,
        }
    }

    /// Take an event in, and say what to do next.
    pub fn step(&mut self, event: Event) -> (a: Action)
        requires
            old(self).wf(),
        ensures
            final(self).wf(),
            (final(self)@, a@) == next(old(self)@, event@),
    {
        match (self.phase, event) {
            (Phase::Idle, Event::Start) => {
                if self.destination {
                    self.phase = Phase::Connecting;
                    Action::Connect
                } else {
                    self.phase = Phase::Discarding;
                    Action::Receive
                }
            },
            (Phase::Connecting, Event::Connected) => {
                self.phase = Phase::AuthAgent;
                Action::AuthAgent
            },
            (Phase::Connecting, Event::ConnectFailed) => self.failed(),
            (Phase::AuthAgent, Event::AuthOk) => self.ready(),
            (Phase::AuthAgent, Event::AuthFailed) => {
                self.phase = Phase::AuthKey;
                Action::AuthKey
            },
            (Phase::AuthKey, Event::AuthOk) => self.ready(),
            (Phase::AuthKey, Event::AuthFailed) => self.failed(),
            (Phase::Waiting, Event::Notice(r)) => {
                self.note(r);
                self.phase = Phase::Draining;
                Action::Drain
            },
            (Phase::Waiting, Event::Closed) => {
                self.phase = Phase::Connecting;
                Action::Connect
            },
            (Phase::Draining, Event::Drained(notices)) => {
                let mut i: usize = 0;
                while i < notices.len()
                    invariant
                        i <= notices@.len(),
                        self.wf(),
                        self@ == (WorkerView {
                            pending: noted_all(old(self)@.pending, notices@, i as int),
                            ..old(self)@
                        }),
                    decreases notices@.len() - i,
                {
                    self.note(notices[i]);
                    i += 1;
                }
                self.phase = Phase::Copying;
                Action::Copy(self.pending.clone())
            },
            (Phase::Copying, Event::Copied) => {
                self.pending.clear();
                self.phase = Phase::Waiting;
                Action::Receive
            },
            (Phase::Copying, Event::CopyFailed) => self.failed(),
            (Phase::Backoff, Event::Slept) => {
                self.phase = Phase::Connecting;
                Action::Connect
            },
            (Phase::Discarding, Event::Notice(r)) => Action::Discard(r),
            (Phase::Discarding, Event::Closed) => {
                self.phase = Phase::Stopped;
                Action::Stop
            },
            _ => self.again(),
        }
    }
}

/// Whether a transfer copied as many bytes as the file holds. A mismatch
/// is reported and not retried.
pub fn length_matches(copied: u64, expected: u64) -> (r: bool)
    ensures
        r == (copied == expected),
{
    copied == expected
}

/// The private key file of a user: `id_rsa` in the directory `.ssh` of the
/// user's home directory under `/home`.
pub fn key_file(username: &str) -> (r: String)
    ensures
        r@ == "/home/"@ + username@ + "/.ssh/id_rsa"@,
{
    let mut key = String::from_str("/home/");
    key.append(username);
    key.append("/.ssh/id_rsa");
    key
}

/// Every step keeps the pending resources distinct.
pub proof fn law_pending_distinct(s: WorkerView, e: EventView)
    requires
        distinct(s.pending),
    ensures
        distinct(next(s, e).0.pending),
{
    match (s.phase, e) {
        (Phase::Waiting, EventView::Notice(r)) => {
            lemma_noted(s.pending, r);
        },
        (Phase::Draining, EventView::Drained(notices)) => {
            lemma_noted_all(s.pending, notices, notices.len() as int);
        },
        _ => {},
    }
}

/// Nothing is lost on a failure: whether the connection, the
/// authentication or a transfer fails, whatever was pending is still
/// pending, and after the pause the worker connects again.
pub proof fn law_failure_keeps_pending(s: WorkerView, e: EventView)
    requires
        e is ConnectFailed || e is AuthFailed || e is CopyFailed || e is Slept,
    ensures
        next(s, e).0.pending == s.pending,
        s.phase == Phase::Copying && e is CopyFailed ==> next(s, e).1 == ActionView::Sleep(
            BACKOFF_SECS,
        ) && next(next(s, e).0, EventView::Slept).1 == ActionView::Connect,
{
}

/// After connecting again with resources pending, the worker takes what
/// is queued and then copies exactly the resources that were pending and
/// those that were queued, each once.
pub proof fn law_recovery_copies_all(s: WorkerView, queued: Seq<usize>)
    requires
        distinct(s.pending),
        s.pending.len() > 0,
        s.phase == Phase::AuthAgent || s.phase == Phase::AuthKey,
    ensures
        next(s, EventView::AuthOk).1 == ActionView::Drain,
        next(next(s, EventView::AuthOk).0, EventView::Drained(queued)).1 matches ActionView::Copy(
            files,
        ) && files.no_duplicates() && files.to_set() == s.pending.to_set().union(queued.to_set()),
        next(
            next(next(s, EventView::AuthOk).0, EventView::Drained(queued)).0,
            EventView::Copied,
        ).0.pending.len() == 0,
{
    lemma_noted_all(s.pending, queued, queued.len() as int);
    assert(queued.take(queued.len() as int) =~= queued);
}

} // verus!
