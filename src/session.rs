//! The recording session's lifecycle as a state machine.
//!
//! The caller owns the processes. It feeds the session what happened (a
//! parsed proxy event, a timeout, the browser found, the stop signal, the
//! teardown finished) and performs the actions the session answers with,
//! in their order.

use vstd::prelude::*;
use crate::browser::BrowserProcessRef;
use crate::event::{ExitStatus, ProxyEvent};
use crate::process::{ProcessEntry, any_named, lemma_stop_leaves_no_process, pids_named_in, survivors};

verus! {

/// Why a session failed.
#[derive(Clone, Copy, Debug, PartialEq, Eq, Structural)]
pub enum FailureReason {
    /// The proxy did not start or did not report readiness in time.
    StartupError,
    /// The browser did not start or could not be identified in time.
    LaunchError,
    /// The proxy ended although no stop was requested.
    UnexpectedExit(ExitStatus),
}

/// Where a session stands in its lifecycle.
#[derive(Clone, Copy, Debug, PartialEq, Eq, Structural)]
pub enum SessionState {
    Idle,
    Starting,
    Recording,
    Stopping,
    Stopped,
    Failed(FailureReason),
}

/// Whether no transition leaves the state.
pub open spec fn is_terminal(state: SessionState) -> bool {
    state is Stopped || state is Failed
}

/// Whether the session is over and no browser it launched can still appear.
pub open spec fn is_settled(s: RecordingSession) -> bool {
    s.state is Stopped || (s.state is Failed && !s.launch_pending)
}

/// What the caller reports to the session.
#[derive(Debug)]
pub enum SessionInput {
    /// An event parsed from the proxy's output, or its exit.
    Proxy(ProxyEvent),
    /// The proxy did not report readiness within the startup timeout.
    StartupTimedOut,
    /// The launched browser was identified.
    BrowserFound(BrowserProcessRef),
    /// The browser did not spawn, or was not identified by the deadline.
    BrowserLaunchFailed,
    /// The consumer asked to stop recording.
    StopSignal,
    /// The kills and the sweep that the session asked for were attempted.
    TeardownDone,
}

/// What the session asks the caller to do.
#[derive(Debug, PartialEq, Eq)]
pub enum SessionAction {
    /// Spawn the proxy and read its output.
    SpawnProxy,
    /// Snapshot the browser processes, launch the browser, and scan for it.
    LaunchBrowser,
    /// Tell the consumer that recording started.
    NotifyStarted,
    /// Hand one traffic record to the consumer.
    Deliver(String),
    /// Kill the proxy through its handle.
    KillProxy,
    /// Kill the browser with this identifier.
    KillBrowser(u32),
    /// Kill every process with the proxy's binary name; failures are only logged.
    SweepProxy,
    /// Tell the consumer that recording stopped.
    NotifyStopped,
    /// Tell the consumer that the session failed.
    NotifyFailed(FailureReason),
}

/// One recording session.
#[derive(Clone, Copy, Debug, PartialEq, Eq, Structural)]
pub struct RecordingSession {
    pub state: SessionState,
    /// The proxy reported readiness.
    pub proxy_ready: bool,
    /// The browser this session launched, once identified.
    pub browser: Option<BrowserProcessRef>,
    /// The one stop signal was received.
    pub stop_received: bool,
    /// A browser launch was asked for and has neither been identified nor
    /// given up on.
    pub launch_pending: bool,
    /// While stopping, the kills and the sweep were attempted.
    pub teardown_done: bool,
}

/// Why a session cannot start.
#[derive(Clone, Copy, Debug, PartialEq, Eq, Structural)]
pub enum SessionError {
    /// A session that has not settled exists.
    AlreadyActive,
    /// This session already ran; a new one is needed.
    Finished,
}

/// The kills that end a session: the proxy, the browser if one was
/// identified, then the sweep.
pub open spec fn teardown(s: RecordingSession) -> Seq<SessionAction> {
    match s.browser {
        Some(b) => seq![SessionAction::KillProxy, SessionAction::KillBrowser(b.pid), SessionAction::SweepProxy],
        None => seq![SessionAction::KillProxy, SessionAction::SweepProxy],
    }
}

/// The session fails for `reason`, tears down and says so.
pub open spec fn fail(s: RecordingSession, reason: FailureReason) -> (
    RecordingSession,
    Seq<SessionAction>,
) {
    (
        RecordingSession { state: SessionState::Failed(reason), ..s },
        teardown(s).push(SessionAction::NotifyFailed(reason)),
    )
}

/// The session stops on the stop signal and tears down.
pub open spec fn stop(s: RecordingSession) -> (RecordingSession, Seq<SessionAction>) {
    (RecordingSession { state: SessionState::Stopping, stop_received: true, ..s }, teardown(s))
}

/// The next session and the actions, in order, that an input leads to.
pub open spec fn spec_step(s: RecordingSession, input: SessionInput) -> (
    RecordingSession,
    Seq<SessionAction>,
) {
    match s.state {
        SessionState::Starting => match input {
            SessionInput::Proxy(ProxyEvent::Started) => if s.proxy_ready {
                (s, seq![])
            } else {
                (
                    RecordingSession { proxy_ready: true, launch_pending: true, ..s },
                    seq![SessionAction::LaunchBrowser],
                )
            },
            SessionInput::Proxy(ProxyEvent::Exited(code)) => if s.proxy_ready {
                fail(s, FailureReason::UnexpectedExit(code))
            } else {
                fail(s, FailureReason::StartupError)
            },
            SessionInput::Proxy(_) => (s, seq![]),
            SessionInput::StartupTimedOut => if s.proxy_ready {
                (s, seq![])
            } else {
                fail(s, FailureReason::StartupError)
            },
            SessionInput::BrowserFound(b) => if s.launch_pending {
                (
                    RecordingSession {
                        state: SessionState::Recording,
                        browser: Some(b),
                        launch_pending: false,
                        ..s
                    },
                    seq![SessionAction::NotifyStarted],
                )
            } else {
                (s, seq![])
            },
            SessionInput::BrowserLaunchFailed => if s.launch_pending {
                fail(RecordingSession { launch_pending: false, ..s }, FailureReason::LaunchError)
            } else {
                (s, seq![])
            },
            SessionInput::StopSignal => stop(s),
            SessionInput::TeardownDone => (s, seq![]),
        },
        SessionState::Recording => match input {
            SessionInput::Proxy(ProxyEvent::Traffic(t)) => (s, seq![SessionAction::Deliver(t)]),
            SessionInput::Proxy(ProxyEvent::Exited(code)) => fail(
                s,
                FailureReason::UnexpectedExit(code),
            ),
            SessionInput::StopSignal => stop(s),
            _ => (s, seq![]),
        },
        SessionState::Stopping => match input {
            SessionInput::TeardownDone => if s.launch_pending {
                (RecordingSession { teardown_done: true, ..s }, seq![])
            } else {
                (
                    RecordingSession { state: SessionState::Stopped, teardown_done: true, ..s },
                    seq![SessionAction::NotifyStopped],
                )
            },
            SessionInput::BrowserFound(b) => if s.launch_pending {
                late_browser_done(s, seq![SessionAction::KillBrowser(b.pid)])
            } else {
                (s, seq![])
            },
            SessionInput::BrowserLaunchFailed => if s.launch_pending {
                late_browser_done(s, seq![])
            } else {
                (s, seq![])
            },
            _ => (s, seq![]),
        },
        SessionState::Failed(_) => match input {
            SessionInput::BrowserFound(b) => if s.launch_pending {
                (
                    RecordingSession { launch_pending: false, ..s },
                    seq![SessionAction::KillBrowser(b.pid)],
                )
            } else {
                (s, seq![])
            },
            SessionInput::BrowserLaunchFailed => if s.launch_pending {
                (RecordingSession { launch_pending: false, ..s }, seq![])
            } else {
                (s, seq![])
            },
            _ => (s, seq![]),
        },
        _ => (s, seq![]),
    }
}

/// While stopping, the pending launch has ended with `kills`; once the
/// teardown is also done the session has stopped.
pub open spec fn late_browser_done(s: RecordingSession, kills: Seq<SessionAction>) -> (
    RecordingSession,
    Seq<SessionAction>,
) {
    if s.teardown_done {
        (
            RecordingSession { state: SessionState::Stopped, launch_pending: false, ..s },
            kills.push(SessionAction::NotifyStopped),
        )
    } else {
        (RecordingSession { launch_pending: false, ..s }, kills)
    }
}

/// The session and all actions after feeding `inputs` in order.
pub open spec fn spec_run(s: RecordingSession, inputs: Seq<SessionInput>) -> (
    RecordingSession,
    Seq<SessionAction>,
)
    decreases inputs.len(),
{
    if inputs.len() == 0 {
        (s, seq![])
    } else {
        let (s1, a1) = spec_step(s, inputs[0]);
        let (s2, a2) = spec_run(s1, inputs.drop_first());
        (s2, a1 + a2)
    }
}

/// The deliveries owed for a sequence of proxy events: one per traffic
/// record, in order.
pub open spec fn deliveries(events: Seq<ProxyEvent>) -> Seq<SessionAction>
    decreases events.len(),
{
    if events.len() == 0 {
        seq![]
    } else {
        let rest = deliveries(events.drop_first());
        match events[0] {
            ProxyEvent::Traffic(t) => seq![SessionAction::Deliver(t)] + rest,
            _ => rest,
        }
    }
}

/// The inputs that report each of `events`.
pub open spec fn proxy_inputs(events: Seq<ProxyEvent>) -> Seq<SessionInput> {
    events.map_values(|e: ProxyEvent| SessionInput::Proxy(e))
}

/// While recording, the proxy's traffic records reach the consumer in the
/// order the proxy emitted them, one delivery each, with nothing else
/// delivered and nothing reordered, whatever warnings, malformed or
/// readiness lines come between them; the session keeps recording.
pub proof fn lemma_traffic_in_emission_order(s: RecordingSession, events: Seq<ProxyEvent>)
    requires
        s.state is Recording,
        forall|i: int| 0 <= i < events.len() ==> !(#[trigger] events[i] is Exited),
    ensures
        spec_run(s, proxy_inputs(events)) == (s, deliveries(events)),
    decreases events.len(),
{
    if events.len() > 0 {
        let rest = events.drop_first();
        assert(proxy_inputs(events).drop_first() =~= proxy_inputs(rest));
        assert forall|i: int| 0 <= i < rest.len() implies !(#[trigger] rest[i] is Exited) by {
            assert(rest[i] == events[i + 1]);
        }
        lemma_traffic_in_emission_order(s, rest);
        assert(!(events[0] is Exited));
        assert(proxy_inputs(events)[0] == SessionInput::Proxy(events[0]));
        match events[0] {
            ProxyEvent::Traffic(t) => {},
            _ => {
                assert(seq![] + deliveries(rest) =~= deliveries(rest));
            },
        }
    }
}

/// Every input keeps a session well formed.
pub proof fn lemma_step_keeps_wf(s: RecordingSession, input: SessionInput)
    requires
        s.wf(),
    ensures
        spec_step(s, input).0.wf(),
{
}

/// Whether an input ends a pending browser launch.
pub open spec fn ends_launch(input: SessionInput) -> bool {
    input is BrowserFound || input is BrowserLaunchFailed
}

/// A pending launch stays pending, whatever else happens, until the browser
/// is identified or given up on.
pub proof fn lemma_launch_stays_pending(s: RecordingSession, inputs: Seq<SessionInput>)
    requires
        s.wf(),
        s.launch_pending,
        forall|i: int| 0 <= i < inputs.len() ==> !ends_launch(#[trigger] inputs[i]),
    ensures
        spec_run(s, inputs).0.wf(),
        spec_run(s, inputs).0.launch_pending,
    decreases inputs.len(),
{
    if inputs.len() > 0 {
        let rest = inputs.drop_first();
        assert(!ends_launch(inputs[0]));
        assert forall|i: int| 0 <= i < rest.len() implies !ends_launch(#[trigger] rest[i]) by {
            assert(rest[i] == inputs[i + 1]);
        }
        lemma_step_keeps_wf(s, inputs[0]);
        lemma_launch_stays_pending(spec_step(s, inputs[0]).0, rest);
    }
}

/// A browser that the session asked to launch is never left running. When
/// it is identified, after any stop, failure or other input in between,
/// either the session records with it (so that its teardown kills it) or the
/// session kills it at once; either way no launch is pending afterwards.
pub proof fn lemma_launched_browser_not_leaked(
    s: RecordingSession,
    input: SessionInput,
    between: Seq<SessionInput>,
    b: BrowserProcessRef,
)
    requires
        s.wf(),
        spec_step(s, input).1.contains(SessionAction::LaunchBrowser),
        forall|i: int| 0 <= i < between.len() ==> !ends_launch(#[trigger] between[i]),
    ensures
        ({
            let later = spec_run(spec_step(s, input).0, between).0;
            let (last, actions) = spec_step(later, SessionInput::BrowserFound(b));
            &&& (last.state is Recording && last.browser == Some(b)) || actions.contains(
                SessionAction::KillBrowser(b.pid),
            )
            &&& !last.launch_pending
        }),
{
    let (s1, a1) = spec_step(s, input);
    lemma_step_keeps_wf(s, input);
    let k = choose|k: int| 0 <= k < a1.len() && a1[k] == SessionAction::LaunchBrowser;
    assert(s1.launch_pending);
    lemma_launch_stays_pending(s1, between);
    let later = spec_run(s1, between).0;
    let (last, actions) = spec_step(later, SessionInput::BrowserFound(b));
    if !(last.state is Recording) {
        assert(actions[0] == SessionAction::KillBrowser(b.pid));
    }
}

/// Stopping a recording session kills the proxy, then the browser it
/// launched, then sweeps the proxy's binary name. Whatever the proxy's own
/// kill achieved, the sweep's targets are taken from the table it left; so
/// where the launched browser is the only process of the browser's name, no
/// process of either name survives.
pub proof fn lemma_stop_clears_processes(
    s: RecordingSession,
    table: Seq<ProcessEntry>,
    proxy_name: Seq<char>,
    browser_name: Seq<char>,
)
    requires
        s.wf(),
        s.state is Recording,
        forall|i: int|
            0 <= i < table.len() && (#[trigger] table[i]).name@ == browser_name ==> table[i].pid
                == s.browser->Some_0.pid,
    ensures
        spec_step(s, SessionInput::StopSignal) == (
            RecordingSession { state: SessionState::Stopping, stop_received: true, ..s },
            seq![
                SessionAction::KillProxy,
                SessionAction::KillBrowser(s.browser->Some_0.pid),
                SessionAction::SweepProxy,
            ],
        ),
        ({
            let after = survivors(
                table,
                pids_named_in(table, proxy_name).push(s.browser->Some_0.pid),
            );
            !any_named(after, proxy_name) && !any_named(after, browser_name)
        }),
{
    lemma_stop_leaves_no_process(table, proxy_name, browser_name, s.browser->Some_0.pid);
}

impl RecordingSession {
    /// Recording means the proxy is ready and the browser is identified;
    /// the browser is identified only from then on; a launch is pending
    /// exactly while starting after readiness, and possibly after a stop or
    /// failure that came before the browser was identified; the stop signal
    /// has been received exactly in the states that stopping leads to.
    pub open spec fn wf(&self) -> bool {
        &&& self.state is Recording ==> self.proxy_ready && self.browser is Some
            && !self.launch_pending
        &&& (self.state is Idle || self.state is Starting) ==> self.browser is None
        &&& self.state is Idle ==> !self.proxy_ready
        &&& self.state is Starting ==> self.launch_pending == self.proxy_ready
        &&& self.launch_pending ==> self.proxy_ready && self.browser is None
        &&& self.state is Stopped ==> !self.launch_pending
        &&& (self.state is Stopping || self.state is Stopped) <==> self.stop_received
        &&& self.teardown_done ==> (self.state is Stopping || self.state is Stopped)
    }

    /// A session that has not started.
    pub fn new() -> (r: RecordingSession)
        ensures
            r.wf(),
            r == (RecordingSession {
                state: SessionState::Idle,
                proxy_ready: false,
                browser: None,
                stop_received: false,
                launch_pending: false,
                teardown_done: false,
            }),
    {
        RecordingSession {
            state: SessionState::Idle,
            proxy_ready: false,
            browser: None,
            stop_received: false,
            launch_pending: false,
            teardown_done: false,
        }
    }

    /// Starts an idle session: the proxy is to be spawned. A session that is
    /// already under way, or over, refuses and asks for nothing.
    pub fn start(&mut self) -> (r: Result<Vec<SessionAction>, SessionError>)
        ensures
            old(self).wf() ==> final(self).wf(),
            old(self).state is Idle ==> (r matches Ok(a) && a@ == seq![SessionAction::SpawnProxy]
                && *final(self) == (RecordingSession { state: SessionState::Starting, ..*old(self) })),
            !(old(self).state is Idle) && !is_terminal(old(self).state) ==> r == Err::<
                Vec<SessionAction>,
                SessionError,
            >(SessionError::AlreadyActive) && *final(self) == *old(self),
            is_terminal(old(self).state) ==> r == Err::<Vec<SessionAction>, SessionError>(
                SessionError::Finished,
            ) && *final(self) == *old(self),
    {
        match self.state {
            SessionState::Idle => {
                self.state = SessionState::Starting;
                Ok(vec![SessionAction::SpawnProxy])
            },
            SessionState::Stopped | SessionState::Failed(_) => Err(SessionError::Finished),
            _ => Err(SessionError::AlreadyActive),
        }
    }

    fn teardown_actions(&self) -> (r: Vec<SessionAction>)
        ensures
            r@ == teardown(*self),
    {
        match self.browser {
            Some(b) => vec![
                SessionAction::KillProxy,
                SessionAction::KillBrowser(b.pid),
                SessionAction::SweepProxy,
            ],
            None => vec![SessionAction::KillProxy, SessionAction::SweepProxy],
        }
    }

    fn fail_with(&mut self, reason: FailureReason) -> (r: Vec<SessionAction>)
        ensures
            (*final(self), r@) == fail(*old(self), reason),
    {
        let mut r = self.teardown_actions();
        r.push(SessionAction::NotifyFailed(reason));
        self.state = SessionState::Failed(reason);
        r
    }

    fn end_late_launch(&mut self, kills: Vec<SessionAction>) -> (r: Vec<SessionAction>)
        ensures
            (*final(self), r@) == late_browser_done(*old(self), kills@),
    {
        let mut r = kills;
        self.launch_pending = false;
        if self.teardown_done {
            self.state = SessionState::Stopped;
            r.push(SessionAction::NotifyStopped);
        }
        r
    }

    fn stop_now(&mut self) -> (r: Vec<SessionAction>)
        ensures
            (*final(self), r@) == stop(*old(self)),
    {
        let r = self.teardown_actions();
        self.state = SessionState::Stopping;
        self.stop_received = true;
        r
    }

    /// Feeds one input to the session and returns the actions it asks for,
    /// in the order they are to be performed.
    pub fn step(&mut self, input: SessionInput) -> (r: Vec<SessionAction>)
        ensures
            old(self).wf() ==> final(self).wf(),
            (*final(self), r@) == spec_step(*old(self), input),
    {
        match self.state {
            SessionState::Starting => match input {
                SessionInput::Proxy(ProxyEvent::Started) => if self.proxy_ready {
                    vec![]
                } else {
                    self.proxy_ready = true;
                    self.launch_pending = true;
                    vec![SessionAction::LaunchBrowser]
                },
                SessionInput::Proxy(ProxyEvent::Exited(code)) => if self.proxy_ready {
                    self.fail_with(FailureReason::UnexpectedExit(code))
                } else {
                    self.fail_with(FailureReason::StartupError)
                },
                SessionInput::Proxy(_) => vec![],
                SessionInput::StartupTimedOut => if self.proxy_ready {
                    vec![]
                } else {
                    self.fail_with(FailureReason::StartupError)
                },
                SessionInput::BrowserFound(b) => if self.launch_pending {
                    self.state = SessionState::Recording;
                    self.browser = Some(b);
                    self.launch_pending = false;
                    vec![SessionAction::NotifyStarted]
                } else {
                    vec![]
                },
                SessionInput::BrowserLaunchFailed => if self.launch_pending {
                    self.launch_pending = false;
                    self.fail_with(FailureReason::LaunchError)
                } else {
                    vec![]
                },
                SessionInput::StopSignal => self.stop_now(),
                SessionInput::TeardownDone => vec![],
            },
            SessionState::Recording => match input {
                SessionInput::Proxy(ProxyEvent::Traffic(t)) => vec![SessionAction::Deliver(t)],
                SessionInput::Proxy(ProxyEvent::Exited(code)) => self.fail_with(
                    FailureReason::UnexpectedExit(code),
                ),
                SessionInput::StopSignal => self.stop_now(),
                _ => vec![],
            },
            SessionState::Stopping => match input {
                SessionInput::TeardownDone => {
                    self.teardown_done = true;
                    if self.launch_pending {
                        vec![]
                    } else {
                        self.state = SessionState::Stopped;
                        vec![SessionAction::NotifyStopped]
                    }
                },
                SessionInput::BrowserFound(b) => if self.launch_pending {
                    self.end_late_launch(vec![SessionAction::KillBrowser(b.pid)])
                } else {
                    vec![]
                },
                SessionInput::BrowserLaunchFailed => if self.launch_pending {
                    self.end_late_launch(vec![])
                } else {
                    vec![]
                },
                _ => vec![],
            },
            SessionState::Failed(_) => match input {
                SessionInput::BrowserFound(b) => if self.launch_pending {
                    self.launch_pending = false;
                    vec![SessionAction::KillBrowser(b.pid)]
                } else {
                    vec![]
                },
                SessionInput::BrowserLaunchFailed => {
                    self.launch_pending = false;
                    vec![]
                },
                _ => vec![],
            },
            _ => vec![],
        }
    }

    /// Whether the session is over and no browser it launched can still appear.
    pub fn is_settled(&self) -> (r: bool)
        ensures
            r == is_settled(*self),
    {
        match self.state {
            SessionState::Stopped => true,
            SessionState::Failed(_) => !self.launch_pending,
            _ => false,
        }
    }
}

/// The application's one recording slot: at most one session is under way,
/// since the proxy binds a fixed local port.
#[derive(Debug)]
pub struct Recorder {
    pub current: Option<RecordingSession>,
}

/// A fresh session that has just been asked to start.
pub open spec fn fresh_starting() -> RecordingSession {
    RecordingSession {
        state: SessionState::Starting,
        proxy_ready: false,
        browser: None,
        stop_received: false,
        launch_pending: false,
        teardown_done: false,
    }
}

impl Recorder {
    /// The session in the slot, if any, is well formed.
    pub open spec fn wf(&self) -> bool {
        self.current matches Some(s) ==> s.wf()
    }

    /// A recorder with no session.
    pub fn new() -> (r: Recorder)
        ensures
            r.current is None,
            r.wf(),
    {
        Recorder { current: None }
    }

    /// Begins a fresh session, unless one that has not settled holds the
    /// slot (it is under way, or a browser it launched may still appear):
    /// then it fails at once, the slot unchanged and nothing spawned.
    pub fn start(&mut self) -> (r: Result<Vec<SessionAction>, SessionError>)
        ensures
            old(self).wf() ==> final(self).wf(),
            old(self).current matches Some(s) && !is_settled(s) ==> r == Err::<
                Vec<SessionAction>,
                SessionError,
            >(SessionError::AlreadyActive) && final(self).current == old(self).current,
            !(old(self).current matches Some(s) && !is_settled(s)) ==> (r matches Ok(a)
                && a@ == seq![SessionAction::SpawnProxy] && final(self).current == Some(
                fresh_starting(),
            )),
    {
        match self.current {
            Some(s) => {
                if !s.is_settled() {
                    return Err(SessionError::AlreadyActive);
                }
            },
            None => {},
        }
        let mut session = RecordingSession::new();
        let r = session.start();
        self.current = Some(session);
        r
    }

    /// Feeds an input to the current session; without one it asks for nothing.
    pub fn step(&mut self, input: SessionInput) -> (r: Vec<SessionAction>)
        ensures
            old(self).wf() ==> final(self).wf(),
            match old(self).current {
                Some(s) => final(self).current == Some(spec_step(s, input).0) && r@ == spec_step(
                    s,
                    input,
                ).1,
                None => final(self).current is None && r@.len() == 0,
            },
    {
        match self.current {
            Some(s) => {
                let mut session = s;
                let r = session.step(input);
                self.current = Some(session);
                r
            },
            None => vec![],
        }
    }
}

} // verus!
