//! The decisions of the event loop.
//!
//! The loop alternates outside work (polling the timers, the background
//! workers and the terminal, sleeping, calling the application's handlers)
//! with decisions. The decisions are an `EventLoop` state machine: each call
//! of `EventLoop::step` takes what the driver reports of the last command and
//! answers with the next command. The driver performs the command and reports
//! back; it holds no rule of its own.

use std::collections::VecDeque;
use vstd::prelude::*;

use crate::control::Control;
use crate::event::RepaintEvent;
use crate::queue::{front_of, poll_queued, read_queued, rest_of, Queue};
use crate::timer::{TimeOut, TimerEvent};

verus! {

/// Captures some parameters for running the event loop.
#[derive(Debug)]
pub struct RunConfig {
    /// How many worker threads are wanted?
    /// Most of the time 1 should be sufficient to offload any gui-blocking tasks.
    pub n_threats: usize,
}

impl Default for RunConfig {
    fn default() -> (r: Self)
        ensures
            r.n_threats == 1,
    {
        RunConfig { n_threats: 1 }
    }
}

/// The longest idle sleep between two polls, in nanoseconds (10 ms).
pub const POLL_SLEEP_MAX: u64 = 10_000_000;

/// The idle sleep after a series of successful polls, in nanoseconds (100 µs).
pub const POLL_SLEEP_SHORT: u64 = 100_000;

/// How much the idle sleep grows after each idle round, in nanoseconds (100 µs).
pub const POLL_SLEEP_STEP: u64 = 100_000;

/// A source of events that the loop polls.
#[derive(Debug, Clone, Copy, PartialEq, Eq)]
pub enum PollNext {
    Timers,
    Workers,
    Crossterm,
}

/// What a non-blocking receive from the workers' result channel gave.
#[derive(Debug, PartialEq, Eq)]
pub enum Received<A, E> {
    /// A worker has sent this result.
    Value(Result<Control<A>, E>),
    /// No result is waiting.
    Empty,
    /// All workers have hung up; the channel's error, as the application's error.
    Disconnected(E),
}

/// What the driver of the loop must do next.
#[derive(Debug, PartialEq, Eq)]
pub enum Command<A, E> {
    /// Initialize the application, and report `Report::Initialized`.
    Init,
    /// Check that no worker thread has finished, and report `Report::Liveness`.
    CheckLiveness,
    /// Poll the timers, the workers and the terminal, and report `Report::Polled`.
    PollSources,
    /// Sleep for `calculate_sleep(timer sleep time, max)` nanoseconds, where `max`
    /// is the value given here, and report `Report::Slept`.
    Sleep(u64),
    /// Read one event from this source and report: `Report::TimerRead` for the
    /// timers, `Report::WorkerRead` for the workers, and for the terminal the
    /// flow that the application's terminal handler returns (or the read error).
    Read(PollNext),
    /// Repaint, and report the flow it returns.
    Repaint(RepaintEvent),
    /// Hand this fired timer to the application, and report the flow it returns.
    Timer(TimeOut),
    /// Run this action, and report the flow it returns.
    Action(A),
    /// Hand this error to the application, and report the flow it returns.
    Error(E),
    /// The application asked to quit: stop the workers and end the loop.
    Quit,
    /// A worker thread has died: stop the workers and panic.
    WorkerPanicked,
    /// Initializing, the first repaint or polling the terminal failed: end the
    /// loop with this error.
    Fail(E),
}

/// What the driver reports after it has performed a command.
#[derive(Debug, PartialEq, Eq)]
pub enum Report<A, E> {
    /// What initializing the application gave.
    Initialized(Result<(), E>),
    /// Whether every worker thread is still running.
    Liveness(bool),
    /// Which sources have something to read.
    Polled { timers: bool, workers: bool, crossterm: bool },
    /// Polling the terminal failed with this error.
    PollFailed(E),
    /// The sleep is over.
    Slept,
    /// What reading the timers gave.
    TimerRead(Option<TimerEvent>),
    /// What reading the workers' channel gave.
    WorkerRead(Received<A, E>),
    /// The flow that a handler returned.
    Flow(Result<Control<A>, E>),
}

/// Where the loop stands: which report it waits for.
#[derive(Debug)]
pub enum Phase<A, E> {
    /// Waiting for the application's initialization.
    AwaitInit,
    /// Waiting for the first repaint, which follows the initialization.
    AwaitFirstRepaint,
    /// A new round begins with this flow, once the workers are known alive.
    AwaitLiveness(Result<Control<A>, E>),
    /// Waiting for the poll of all sources.
    AwaitPolls,
    /// Waiting for the idle sleep to end.
    AwaitSleep,
    /// Waiting for what the timers gave.
    AwaitTimer,
    /// Waiting for what the workers' channel gave.
    AwaitWorker,
    /// Waiting for the flow of a source's event; it is dispatched at once.
    AwaitSource,
    /// Waiting for the flow of a dispatched handler; it begins the next round.
    AwaitHandler,
    /// The loop has ended.
    Stopped,
}

/// The mathematical state of the loop.
#[verifier::ext_equal]
pub struct LoopState<A, E> {
    pub phase: Phase<A, E>,
    /// The sources found ready by the last poll and not read yet, in reading order.
    pub polled: Seq<PollNext>,
    /// The current longest idle sleep, in nanoseconds.
    pub poll_sleep: int,
}

/// The event loop's own state.
#[derive(Debug)]
pub struct EventLoop<A, E> {
    phase: Phase<A, E>,
    poll_queue: VecDeque<PollNext>,
    poll_sleep: u64,
}

impl<A, E> View for EventLoop<A, E> {
    type V = LoopState<A, E>;

    closed spec fn view(&self) -> LoopState<A, E> {
        LoopState { phase: self.phase, polled: self.poll_queue@, poll_sleep: self.poll_sleep as int }
    }
}

/// The order in which ready sources are read: timers, workers, terminal.
pub open spec fn rank(p: PollNext) -> int {
    match p {
        PollNext::Timers => 0,
        PollNext::Workers => 1,
        PollNext::Crossterm => 2,
    }
}

/// The sources that a poll found ready, in reading order.
pub open spec fn ready_sources(timers: bool, workers: bool, crossterm: bool) -> Seq<PollNext> {
    (if timers { seq![PollNext::Timers] } else { Seq::empty() })
        + (if workers { seq![PollNext::Workers] } else { Seq::empty() })
        + (if crossterm { seq![PollNext::Crossterm] } else { Seq::empty() })
}

/// Each source occurs at most once, in reading order.
pub open spec fn in_reading_order(s: Seq<PollNext>) -> bool {
    forall|i: int, j: int| 0 <= i < j < s.len() ==> rank(#[trigger] s[i]) < rank(#[trigger] s[j])
}

/// The idle sleep stays between its bounds, in whole steps, and the sources
/// waiting to be read are in reading order.
pub open spec fn sleep_and_sources_wf(polled: Seq<PollNext>, poll_sleep: int) -> bool {
    &&& POLL_SLEEP_SHORT <= poll_sleep <= POLL_SLEEP_MAX
    &&& poll_sleep % (POLL_SLEEP_STEP as int) == 0
    &&& in_reading_order(polled)
}

/// The invariant of the loop's state.
pub open spec fn loop_wf<A, E>(s: LoopState<A, E>) -> bool {
    &&& sleep_and_sources_wf(s.polled, s.poll_sleep)
    &&& (s.phase is AwaitPolls || s.phase is AwaitSleep) ==> s.polled.len() == 0
}

/// Which report each phase waits for.
pub open spec fn accepts<A, E>(phase: Phase<A, E>, report: Report<A, E>) -> bool {
    match phase {
        Phase::AwaitInit => report is Initialized,
        Phase::AwaitFirstRepaint => report is Flow,
        Phase::AwaitLiveness(_) => report is Liveness,
        Phase::AwaitPolls => report is Polled || report is PollFailed,
        Phase::AwaitSleep => report is Slept,
        Phase::AwaitTimer => report is TimerRead,
        Phase::AwaitWorker => report is WorkerRead,
        Phase::AwaitSource => report is Flow,
        Phase::AwaitHandler => report is Flow,
        Phase::Stopped => false,
    }
}

/// The idle sleep after one more idle round: it grows by a step up to the maximum.
pub open spec fn backed_off(poll_sleep: int) -> int {
    if poll_sleep < POLL_SLEEP_MAX { poll_sleep + POLL_SLEEP_STEP } else { poll_sleep }
}

/// The flow that a receive from the workers' channel stands for: a result is
/// handled as it is, an empty channel continues, a hung-up channel is an error.
pub open spec fn worker_flow<A, E>(r: Received<A, E>) -> Result<Control<A>, E> {
    match r {
        Received::Value(v) => v,
        Received::Empty => Ok(Control::Continue),
        Received::Disconnected(e) => Err(e),
    }
}

/// A new round, carrying `flow`: first the workers' liveness is checked.
pub open spec fn new_round<A, E>(polled: Seq<PollNext>, poll_sleep: int, flow: Result<Control<A>, E>) -> (
    LoopState<A, E>,
    Command<A, E>,
) {
    (LoopState { phase: Phase::AwaitLiveness(flow), polled, poll_sleep }, Command::CheckLiveness)
}

/// What a flow leads to: `Continue` and `Break` start the next round,
/// `Repaint`, an action and an error call their handler, `Quit` ends the loop.
pub open spec fn dispatch<A, E>(polled: Seq<PollNext>, poll_sleep: int, flow: Result<Control<A>, E>) -> (
    LoopState<A, E>,
    Command<A, E>,
) {
    match flow {
        Ok(Control::Continue) => new_round(polled, poll_sleep, Ok(Control::Continue)),
        Ok(Control::Break) => new_round(polled, poll_sleep, Ok(Control::Continue)),
        Ok(Control::Repaint) => (
            LoopState { phase: Phase::AwaitHandler, polled, poll_sleep },
            Command::Repaint(RepaintEvent::Repaint),
        ),
        Ok(Control::Action(a)) => (
            LoopState { phase: Phase::AwaitHandler, polled, poll_sleep },
            Command::Action(a),
        ),
        Ok(Control::Quit) => (LoopState { phase: Phase::Stopped, polled, poll_sleep }, Command::Quit),
        Err(e) => (LoopState { phase: Phase::AwaitHandler, polled, poll_sleep }, Command::Error(e)),
    }
}

/// The phase that waits for what reading a source gives.
pub open spec fn read_phase<A, E>(src: PollNext) -> Phase<A, E> {
    match src {
        PollNext::Timers => Phase::AwaitTimer,
        PollNext::Workers => Phase::AwaitWorker,
        PollNext::Crossterm => Phase::AwaitSource,
    }
}

/// With sources waiting, the first one is read and the idle sleep becomes short;
/// with none, the loop sleeps.
pub open spec fn read_or_sleep<A, E>(polled: Seq<PollNext>, poll_sleep: int) -> (
    LoopState<A, E>,
    Command<A, E>,
) {
    if polled.len() == 0 {
        (LoopState { phase: Phase::AwaitSleep, polled, poll_sleep }, Command::Sleep(poll_sleep as u64))
    } else {
        (
            LoopState {
                phase: read_phase(polled[0]),
                polled: polled.drop_first(),
                poll_sleep: POLL_SLEEP_SHORT as int,
            },
            Command::Read(polled[0]),
        )
    }
}

/// The flow after the liveness check: with nothing pending, the oldest queued
/// result is taken, if there is one.
pub open spec fn take_queued<A, E>(flow: Result<Control<A>, E>, queued: Seq<Control<A>>) -> (
    Result<Control<A>, E>,
    Seq<Control<A>>,
) {
    if flow == Ok::<Control<A>, E>(Control::Continue) && queued.len() > 0 {
        (Ok(queued[0]), rest_of(queued))
    } else {
        (flow, queued)
    }
}

/// One step of the loop: from its state, the queued results and the report
/// on the last command, to its next state, the queued results and the next command.
pub open spec fn step_spec<A, E>(s: LoopState<A, E>, queued: Seq<Control<A>>, report: Report<A, E>) -> (
    LoopState<A, E>,
    Seq<Control<A>>,
    Command<A, E>,
) {
    let polled = s.polled;
    let poll_sleep = s.poll_sleep;
    let (next, command) = match (s.phase, report) {
        (Phase::AwaitInit, Report::Initialized(r)) => match r {
            Ok(()) => (
                LoopState { phase: Phase::AwaitFirstRepaint, polled, poll_sleep },
                Command::Repaint(RepaintEvent::Repaint),
            ),
            Err(e) => (LoopState { phase: Phase::Stopped, polled, poll_sleep }, Command::Fail(e)),
        },
        (Phase::AwaitFirstRepaint, Report::Flow(r)) => match r {
            Ok(_) => new_round(polled, poll_sleep, Ok(Control::Continue)),
            Err(e) => (LoopState { phase: Phase::Stopped, polled, poll_sleep }, Command::Fail(e)),
        },
        (Phase::AwaitPolls, Report::PollFailed(e)) => (
            LoopState { phase: Phase::Stopped, polled, poll_sleep },
            Command::Fail(e),
        ),
        (Phase::AwaitLiveness(flow), Report::Liveness(alive)) => {
            if !alive {
                (LoopState { phase: Phase::Stopped, polled, poll_sleep }, Command::WorkerPanicked)
            } else {
                let flow = take_queued(flow, queued).0;
                if flow == Ok::<Control<A>, E>(Control::Continue) {
                    if polled.len() == 0 {
                        (LoopState { phase: Phase::AwaitPolls, polled, poll_sleep }, Command::PollSources)
                    } else {
                        read_or_sleep(polled, poll_sleep)
                    }
                } else {
                    dispatch(polled, poll_sleep, flow)
                }
            }
        },
        (Phase::AwaitPolls, Report::Polled { timers, workers, crossterm }) => {
            read_or_sleep(polled + ready_sources(timers, workers, crossterm), poll_sleep)
        },
        (Phase::AwaitSleep, Report::Slept) => {
            new_round(polled, backed_off(poll_sleep), Ok(Control::Continue))
        },
        (Phase::AwaitTimer, Report::TimerRead(t)) => match t {
            Some(TimerEvent::Repaint(evt)) => (
                LoopState { phase: Phase::AwaitSource, polled, poll_sleep },
                Command::Repaint(RepaintEvent::Timer(evt)),
            ),
            Some(TimerEvent::Application(evt)) => (
                LoopState { phase: Phase::AwaitSource, polled, poll_sleep },
                Command::Timer(evt),
            ),
            None => dispatch(polled, poll_sleep, Ok(Control::Continue)),
        },
        (Phase::AwaitWorker, Report::WorkerRead(r)) => dispatch(polled, poll_sleep, worker_flow(r)),
        (Phase::AwaitSource, Report::Flow(flow)) => dispatch(polled, poll_sleep, flow),
        (Phase::AwaitHandler, Report::Flow(flow)) => new_round(polled, poll_sleep, flow),
        _ => (s, Command::Quit),
    };
    let queued_after = match (s.phase, report) {
        (Phase::AwaitLiveness(flow), Report::Liveness(true)) => take_queued(flow, queued).1,
        _ => queued,
    };
    (next, queued_after, command)
}


fn new_round_exec<A, E>(poll_queue: VecDeque<PollNext>, poll_sleep: u64, flow: Result<Control<A>, E>) -> (r: (
    EventLoop<A, E>,
    Command<A, E>,
))
    requires
        sleep_and_sources_wf(poll_queue@, poll_sleep as int),
    ensures
        (r.0@, r.1) == new_round(poll_queue@, poll_sleep as int, flow),
{
    (EventLoop { phase: Phase::AwaitLiveness(flow), poll_queue, poll_sleep }, Command::CheckLiveness)
}

fn dispatch_exec<A, E>(poll_queue: VecDeque<PollNext>, poll_sleep: u64, flow: Result<Control<A>, E>) -> (r: (
    EventLoop<A, E>,
    Command<A, E>,
))
    requires
        sleep_and_sources_wf(poll_queue@, poll_sleep as int),
    ensures
        (r.0@, r.1) == dispatch(poll_queue@, poll_sleep as int, flow),
{
    match flow {
        Ok(Control::Continue) => new_round_exec(poll_queue, poll_sleep, Ok(Control::Continue)),
        Ok(Control::Break) => new_round_exec(poll_queue, poll_sleep, Ok(Control::Continue)),
        Ok(Control::Repaint) => (
            EventLoop { phase: Phase::AwaitHandler, poll_queue, poll_sleep },
            Command::Repaint(RepaintEvent::Repaint),
        ),
        Ok(Control::Action(a)) => (
            EventLoop { phase: Phase::AwaitHandler, poll_queue, poll_sleep },
            Command::Action(a),
        ),
        Ok(Control::Quit) => (EventLoop { phase: Phase::Stopped, poll_queue, poll_sleep }, Command::Quit),
        Err(e) => (EventLoop { phase: Phase::AwaitHandler, poll_queue, poll_sleep }, Command::Error(e)),
    }
}

fn read_or_sleep_exec<A, E>(poll_queue: VecDeque<PollNext>, poll_sleep: u64) -> (r: (
    EventLoop<A, E>,
    Command<A, E>,
))
    requires
        sleep_and_sources_wf(poll_queue@, poll_sleep as int),
    ensures
        (r.0@, r.1) == read_or_sleep::<A, E>(poll_queue@, poll_sleep as int),
{
    let mut poll_queue = poll_queue;
    let ghost before = poll_queue@;
    match poll_queue.pop_front() {
        None => (EventLoop { phase: Phase::AwaitSleep, poll_queue, poll_sleep }, Command::Sleep(poll_sleep)),
        Some(src) => {
            assert(poll_queue@ =~= before.drop_first());
            let phase = match src {
                PollNext::Timers => Phase::AwaitTimer,
                PollNext::Workers => Phase::AwaitWorker,
                PollNext::Crossterm => Phase::AwaitSource,
            };
            (EventLoop { phase, poll_queue, poll_sleep: POLL_SLEEP_SHORT }, Command::Read(src))
        },
    }
}

impl<A, E> EventLoop<A, E> {
    /// Every event loop keeps the invariant of its state.
    #[verifier::type_invariant]
    spec fn keeps_invariant(&self) -> bool {
        loop_wf(self@)
    }

    /// The loop's first state and command: the application is initialized
    /// first, with nothing polled and the longest idle sleep.
    pub fn start() -> (r: (EventLoop<A, E>, Command<A, E>))
        ensures
            loop_wf(r.0@),
            r.0@ == (LoopState::<A, E> {
                phase: Phase::AwaitInit,
                polled: Seq::empty(),
                poll_sleep: POLL_SLEEP_MAX as int,
            }),
            r.1 is Init,
    {
        (EventLoop { phase: Phase::AwaitInit, poll_queue: VecDeque::new(), poll_sleep: POLL_SLEEP_MAX }, Command::Init)
    }

    /// Whether the loop waits for this report.
    pub fn expects(&self, report: &Report<A, E>) -> (r: bool)
        ensures
            r == accepts(self@.phase, *report),
    {
        match (&self.phase, report) {
            (Phase::AwaitInit, Report::Initialized(_)) => true,
            (Phase::AwaitFirstRepaint, Report::Flow(_)) => true,
            (Phase::AwaitLiveness(_), Report::Liveness(_)) => true,
            (Phase::AwaitPolls, Report::Polled { .. }) => true,
            (Phase::AwaitPolls, Report::PollFailed(_)) => true,
            (Phase::AwaitSleep, Report::Slept) => true,
            (Phase::AwaitTimer, Report::TimerRead(_)) => true,
            (Phase::AwaitWorker, Report::WorkerRead(_)) => true,
            (Phase::AwaitSource, Report::Flow(_)) => true,
            (Phase::AwaitHandler, Report::Flow(_)) => true,
            _ => false,
        }
    }

    /// Takes the report on the last command and decides the next command.
    pub fn step(self, queue: &mut Queue<Control<A>>, report: Report<A, E>) -> (r: (
        EventLoop<A, E>,
        Command<A, E>,
    ))
        requires
            accepts(self@.phase, report),
        ensures
            loop_wf(r.0@),
            (r.0@, final(queue)@, r.1) == step_spec(self@, old(queue)@, report),
    {
        proof {
            use_type_invariant(&self);
        }
        let EventLoop { phase, poll_queue, poll_sleep } = self;
        match (phase, report) {
            (Phase::AwaitInit, Report::Initialized(r)) => match r {
                Ok(()) => (
                    EventLoop { phase: Phase::AwaitFirstRepaint, poll_queue, poll_sleep },
                    Command::Repaint(RepaintEvent::Repaint),
                ),
                Err(e) => (EventLoop { phase: Phase::Stopped, poll_queue, poll_sleep }, Command::Fail(e)),
            },
            (Phase::AwaitFirstRepaint, Report::Flow(r)) => match r {
                Ok(_) => new_round_exec(poll_queue, poll_sleep, Ok(Control::Continue)),
                Err(e) => (EventLoop { phase: Phase::Stopped, poll_queue, poll_sleep }, Command::Fail(e)),
            },
            (Phase::AwaitPolls, Report::PollFailed(e)) => (
                EventLoop { phase: Phase::Stopped, poll_queue, poll_sleep },
                Command::Fail(e),
            ),
            (Phase::AwaitLiveness(flow), Report::Liveness(alive)) => {
                if !alive {
                    (EventLoop { phase: Phase::Stopped, poll_queue, poll_sleep }, Command::WorkerPanicked)
                } else {
                    let flow = match flow {
                        Ok(Control::Continue) => {
                            if poll_queued(queue) {
                                match read_queued(queue) {
                                    Ok(c) => Ok(c),
                                    Err(_) => Ok(Control::Continue),
                                }
                            } else {
                                Ok(Control::Continue)
                            }
                        },
                        other => other,
                    };
                    match flow {
                        Ok(Control::Continue) => {
                            if poll_queue.len() == 0 {
                                (EventLoop { phase: Phase::AwaitPolls, poll_queue, poll_sleep }, Command::PollSources)
                            } else {
                                read_or_sleep_exec(poll_queue, poll_sleep)
                            }
                        },
                        other => dispatch_exec(poll_queue, poll_sleep, other),
                    }
                }
            },
            (Phase::AwaitPolls, Report::Polled { timers, workers, crossterm }) => {
                let mut poll_queue = poll_queue;
                let ghost before = poll_queue@;
                if timers {
                    poll_queue.push_back(PollNext::Timers);
                }
                if workers {
                    poll_queue.push_back(PollNext::Workers);
                }
                if crossterm {
                    poll_queue.push_back(PollNext::Crossterm);
                }
                assert(poll_queue@ =~= before + ready_sources(timers, workers, crossterm));
                read_or_sleep_exec(poll_queue, poll_sleep)
            },
            (Phase::AwaitSleep, Report::Slept) => {
                let poll_sleep = if poll_sleep < POLL_SLEEP_MAX {
                    poll_sleep + POLL_SLEEP_STEP
                } else {
                    poll_sleep
                };
                new_round_exec(poll_queue, poll_sleep, Ok(Control::Continue))
            },
            (Phase::AwaitTimer, Report::TimerRead(t)) => match t {
                Some(TimerEvent::Repaint(evt)) => (
                    EventLoop { phase: Phase::AwaitSource, poll_queue, poll_sleep },
                    Command::Repaint(RepaintEvent::Timer(evt)),
                ),
                Some(TimerEvent::Application(evt)) => (
                    EventLoop { phase: Phase::AwaitSource, poll_queue, poll_sleep },
                    Command::Timer(evt),
                ),
                None => dispatch_exec(poll_queue, poll_sleep, Ok(Control::Continue)),
            },
            (Phase::AwaitWorker, Report::WorkerRead(r)) => {
                let flow = match r {
                    Received::Value(v) => v,
                    Received::Empty => Ok(Control::Continue),
                    Received::Disconnected(e) => Err(e),
                };
                dispatch_exec(poll_queue, poll_sleep, flow)
            },
            (Phase::AwaitSource, Report::Flow(flow)) => dispatch_exec(poll_queue, poll_sleep, flow),
            (Phase::AwaitHandler, Report::Flow(flow)) => new_round_exec(poll_queue, poll_sleep, flow),
            (phase, _) => (EventLoop { phase, poll_queue, poll_sleep }, Command::Quit),
        }
    }
}

/// How long the idle loop sleeps: until the next timer is due, if one is,
/// but never longer than `max` (all in nanoseconds).
pub fn calculate_sleep(timer_sleep: Option<u128>, max: u64) -> (r: u64)
    ensures
        r == match timer_sleep {
            Some(t) => if t < max { t } else { max as u128 },
            None => max as u128,
        },
{
    match timer_sleep {
        Some(t) => if t < max as u128 {
            t as u64
        } else {
            max
        },
        None => max,
    }
}

/// Whether all worker threads are still running, given for each thread
/// whether it has finished.
pub fn check_liveness(finished: &[bool]) -> (r: bool)
    ensures
        r <==> forall|i: int| 0 <= i < finished@.len() ==> !finished@[i],
{
    let mut i: usize = 0;
    while i < finished.len()
        invariant
            i <= finished@.len(),
            forall|j: int| 0 <= j < i ==> !finished@[j],
        decreases finished@.len() - i,
    {
        if finished[i] {
            return false;
        }
        i = i + 1;
    }
    true
}

/// A poll of the sources happens only when every source that the last poll
/// found ready has been read: no source is starved by another.
pub proof fn lemma_polls_only_when_drained<A, E>(
    s: LoopState<A, E>,
    queued: Seq<Control<A>>,
    report: Report<A, E>,
)
    requires
        loop_wf(s),
        accepts(s.phase, report),
    ensures
        step_spec(s, queued, report).2 is PollSources ==> s.polled.len() == 0,
{
}

/// The loop sleeps only after a poll that found no source ready, and then
/// for at most the longest idle sleep.
pub proof fn lemma_sleeps_only_when_idle<A, E>(
    s: LoopState<A, E>,
    queued: Seq<Control<A>>,
    report: Report<A, E>,
)
    requires
        loop_wf(s),
        accepts(s.phase, report),
    ensures
        step_spec(s, queued, report).2 is Sleep ==> {
            &&& s.phase is AwaitPolls
            &&& report == Report::<A, E>::Polled { timers: false, workers: false, crossterm: false }
            &&& step_spec(s, queued, report).2->Sleep_0 <= POLL_SLEEP_MAX
        },
{
    if step_spec(s, queued, report).2 is Sleep {
        match (s.phase, report) {
            (Phase::AwaitPolls, Report::Polled { timers, workers, crossterm }) => {
                assert(timers == false && workers == false && crossterm == false);
            },
            _ => {},
        }
    }
}

/// The idle sleep backs off: after an idle round it grows by one step up to
/// the maximum; after a source has been read it is short again.
pub proof fn lemma_sleep_backs_off<A, E>(s: LoopState<A, E>, queued: Seq<Control<A>>, report: Report<A, E>)
    requires
        loop_wf(s),
        accepts(s.phase, report),
    ensures
        s.phase is AwaitSleep ==> step_spec(s, queued, report).0.poll_sleep == if s.poll_sleep
            < POLL_SLEEP_MAX {
            s.poll_sleep + POLL_SLEEP_STEP
        } else {
            POLL_SLEEP_MAX as int
        },
        step_spec(s, queued, report).2 is Read ==> step_spec(s, queued, report).0.poll_sleep
            == POLL_SLEEP_SHORT,
{
}

/// Results queued by the handlers come first: with no flow pending and a
/// queued result waiting, the oldest queued result is taken out and handled
/// as if a handler had returned it; it is handled before any source is polled.
pub proof fn lemma_queued_results_first<A, E>(s: LoopState<A, E>, queued: Seq<Control<A>>)
    requires
        loop_wf(s),
        s.phase == Phase::<A, E>::AwaitLiveness(Ok(Control::Continue)),
        queued.len() > 0,
    ensures
        step_spec(s, queued, Report::Liveness(true)).1 == queued.drop_first(),
        queued[0] != Control::<A>::Continue ==> (
            step_spec(s, queued, Report::Liveness(true)).0,
            step_spec(s, queued, Report::Liveness(true)).2,
        ) == dispatch(s.polled, s.poll_sleep, Ok::<Control<A>, E>(queued[0])),
{
}

/// A flow that is pending at the start of a round is handled first, and the
/// queue is left alone.
pub proof fn lemma_pending_flow_first<A, E>(
    s: LoopState<A, E>,
    queued: Seq<Control<A>>,
    flow: Result<Control<A>, E>,
)
    requires
        loop_wf(s),
        s.phase == Phase::<A, E>::AwaitLiveness(flow),
        flow != Ok::<Control<A>, E>(Control::Continue),
    ensures
        step_spec(s, queued, Report::Liveness(true)).1 == queued,
        (step_spec(s, queued, Report::Liveness(true)).0, step_spec(s, queued, Report::Liveness(true)).2)
            == dispatch(s.polled, s.poll_sleep, flow),
{
}

/// `Break` ends the handling of an event just as `Continue` does: no handler
/// is called and a new round begins.
pub proof fn lemma_break_is_continue<A, E>(polled: Seq<PollNext>, poll_sleep: int)
    ensures
        dispatch::<A, E>(polled, poll_sleep, Ok(Control::Break)) == dispatch::<A, E>(
            polled,
            poll_sleep,
            Ok(Control::Continue),
        ),
        dispatch::<A, E>(polled, poll_sleep, Ok(Control::Continue)).1 is CheckLiveness,
{
}

/// `Quit` ends the loop, a dead worker ends it with a panic, and a failed
/// initialization, first repaint or terminal poll ends it with that error;
/// once ended, the loop takes no further report.
pub proof fn lemma_loop_ends<A, E>(s: LoopState<A, E>, queued: Seq<Control<A>>, report: Report<A, E>)
    requires
        loop_wf(s),
        accepts(s.phase, report),
    ensures
        dispatch::<A, E>(s.polled, s.poll_sleep, Ok(Control::Quit)).0.phase is Stopped,
        dispatch::<A, E>(s.polled, s.poll_sleep, Ok(Control::Quit)).1 is Quit,
        s.phase is AwaitLiveness ==> {
            let r = step_spec(s, queued, Report::Liveness(false));
            &&& r.0.phase is Stopped
            &&& r.1 == queued
            &&& r.2 is WorkerPanicked
        },
        forall|later: Report<A, E>| !accepts(Phase::<A, E>::Stopped, later),
        (step_spec(s, queued, report).2 is Quit || step_spec(s, queued, report).2 is WorkerPanicked
            || step_spec(s, queued, report).2 is Fail) <==> step_spec(s, queued, report).0.phase is Stopped,
{
}

/// The sources that a poll finds ready are read one by one, timers first,
/// then the workers, then the terminal.
pub proof fn lemma_ready_sources_in_order(timers: bool, workers: bool, crossterm: bool)
    ensures
        in_reading_order(ready_sources(timers, workers, crossterm)),
        ready_sources(timers, workers, crossterm).len() == 0 <==> !timers && !workers && !crossterm,
        timers ==> ready_sources(timers, workers, crossterm)[0] == PollNext::Timers,
        !timers && workers ==> ready_sources(timers, workers, crossterm)[0] == PollNext::Workers,
        !timers && !workers && crossterm ==> ready_sources(timers, workers, crossterm)[0]
            == PollNext::Crossterm,
{
}

/// The application is initialized before the first repaint, and the first
/// round begins only after both: an initialization error ends the loop before
/// any repaint, a first-repaint error ends it before any round, and what the
/// first repaint returns is otherwise not acted on.
pub proof fn lemma_init_before_first_repaint<A, E>(
    s: LoopState<A, E>,
    queued: Seq<Control<A>>,
    init: Result<(), E>,
    first: Result<Control<A>, E>,
)
    requires
        loop_wf(s),
        s.phase is AwaitInit,
    ensures
        ({
            let r = step_spec(s, queued, Report::Initialized(init));
            &&& r.1 == queued
            &&& init is Ok ==> r.2 == Command::<A, E>::Repaint(RepaintEvent::Repaint)
                && r.0.phase is AwaitFirstRepaint
            &&& init is Err ==> r.2 == Command::<A, E>::Fail(init->Err_0) && r.0.phase is Stopped
        }),
        ({
            let t = LoopState::<A, E> { phase: Phase::AwaitFirstRepaint, ..s };
            let r = step_spec(t, queued, Report::Flow(first));
            &&& r.1 == queued
            &&& first is Ok ==> (r.0, r.2) == new_round::<A, E>(s.polled, s.poll_sleep, Ok(Control::Continue))
            &&& first is Ok ==> r.2 is CheckLiveness && r.0.phase == Phase::<A, E>::AwaitLiveness(
                Ok(Control::Continue),
            ) && r.0.polled == s.polled
            &&& first is Err ==> r.2 == Command::<A, E>::Fail(first->Err_0) && r.0.phase is Stopped
        }),
{
}

/// A failed poll of the terminal ends the loop with that error.
pub proof fn lemma_poll_failure_ends<A, E>(s: LoopState<A, E>, queued: Seq<Control<A>>, e: E)
    requires
        loop_wf(s),
        s.phase is AwaitPolls,
    ensures
        step_spec(s, queued, Report::PollFailed(e)).2 == Command::<A, E>::Fail(e),
        step_spec(s, queued, Report::PollFailed(e)).0.phase is Stopped,
        step_spec(s, queued, Report::PollFailed(e)).1 == queued,
{
}

/// What a terminal-event or timer handler returns is acted on at once:
/// `Repaint` repaints, an action runs its handler, an error goes to the error
/// handler (each then waits for that handler's flow), `Continue` and `Break`
/// start a new round with nothing pending, and `Quit` ends the loop. The
/// queue, the sources still to read and the idle sleep are left alone.
pub proof fn lemma_source_flow_acted_on<A, E>(
    s: LoopState<A, E>,
    queued: Seq<Control<A>>,
    f: Result<Control<A>, E>,
)
    requires
        loop_wf(s),
        s.phase is AwaitSource,
    ensures
        ({
            let r = step_spec(s, queued, Report::Flow(f));
            &&& r.1 == queued
            &&& r.0.polled == s.polled
            &&& r.0.poll_sleep == s.poll_sleep
            &&& f == Ok::<Control<A>, E>(Control::Repaint) ==> r.2 == Command::<A, E>::Repaint(
                RepaintEvent::Repaint,
            ) && r.0.phase is AwaitHandler
            &&& f matches Ok(Control::Action(a)) ==> r.2 == Command::<A, E>::Action(a)
                && r.0.phase is AwaitHandler
            &&& f matches Err(e) ==> r.2 == Command::<A, E>::Error(e) && r.0.phase is AwaitHandler
            &&& (f == Ok::<Control<A>, E>(Control::Continue) || f == Ok::<Control<A>, E>(
                Control::Break,
            )) ==> r.2 is CheckLiveness && r.0.phase == Phase::<A, E>::AwaitLiveness(
                Ok(Control::Continue),
            )
            &&& f == Ok::<Control<A>, E>(Control::Quit) ==> r.2 is Quit && r.0.phase is Stopped
        }),
{
}

/// What an action, error or repaint handler returns is carried into the next
/// round as its pending flow, whatever it is: the loop checks the workers'
/// liveness first, and leaves the queue, the sources still to read and the
/// idle sleep alone. Once the workers are known alive, a pending flow other
/// than `Continue` is acted on before any queued result or poll: `Repaint`
/// repaints, an action runs, an error goes to the error handler, `Break`
/// starts a new round, and `Quit` ends the loop.
pub proof fn lemma_handler_flow_carried<A, E>(
    s: LoopState<A, E>,
    queued: Seq<Control<A>>,
    f: Result<Control<A>, E>,
)
    requires
        loop_wf(s),
        s.phase is AwaitHandler,
    ensures
        ({
            let r = step_spec(s, queued, Report::Flow(f));
            &&& r.0.phase == Phase::<A, E>::AwaitLiveness(f)
            &&& r.0.polled == s.polled
            &&& r.0.poll_sleep == s.poll_sleep
            &&& r.1 == queued
            &&& r.2 is CheckLiveness
        }),
        f != Ok::<Control<A>, E>(Control::Continue) ==> ({
            let t = step_spec(s, queued, Report::Flow(f)).0;
            let r = step_spec(t, queued, Report::Liveness(true));
            &&& r.1 == queued
            &&& r.0.polled == s.polled
            &&& f == Ok::<Control<A>, E>(Control::Repaint) ==> r.2 == Command::<A, E>::Repaint(
                RepaintEvent::Repaint,
            ) && r.0.phase is AwaitHandler
            &&& f matches Ok(Control::Action(a)) ==> r.2 == Command::<A, E>::Action(a)
                && r.0.phase is AwaitHandler
            &&& f matches Err(e) ==> r.2 == Command::<A, E>::Error(e) && r.0.phase is AwaitHandler
            &&& f == Ok::<Control<A>, E>(Control::Break) ==> r.2 is CheckLiveness && r.0.phase
                == Phase::<A, E>::AwaitLiveness(Ok(Control::Continue))
            &&& f == Ok::<Control<A>, E>(Control::Quit) ==> r.2 is Quit && r.0.phase is Stopped
        }),
{
    assert(loop_wf(step_spec(s, queued, Report::Flow(f)).0));
}

/// A poll queues exactly the sources it found ready, in reading order
/// (timers, workers, terminal), and the first of them is read at once; with
/// none ready the loop sleeps for its current idle sleep.
pub proof fn lemma_poll_reads_ready_sources<A, E>(
    s: LoopState<A, E>,
    queued: Seq<Control<A>>,
    timers: bool,
    workers: bool,
    crossterm: bool,
)
    requires
        loop_wf(s),
        s.phase is AwaitPolls,
    ensures
        ({
            let r = step_spec(s, queued, Report::Polled { timers, workers, crossterm });
            let after_workers: Seq<PollNext> = if crossterm {
                seq![PollNext::Crossterm]
            } else {
                Seq::empty()
            };
            let after_timers: Seq<PollNext> = if workers {
                seq![PollNext::Workers] + after_workers
            } else {
                after_workers
            };
            &&& r.1 == queued
            &&& timers ==> r.2 == Command::<A, E>::Read(PollNext::Timers) && r.0.polled
                =~= after_timers && r.0.phase is AwaitTimer
            &&& !timers && workers ==> r.2 == Command::<A, E>::Read(PollNext::Workers)
                && r.0.polled =~= after_workers && r.0.phase is AwaitWorker
            &&& !timers && !workers && crossterm ==> r.2 == Command::<A, E>::Read(
                PollNext::Crossterm,
            ) && r.0.polled.len() == 0 && r.0.phase is AwaitSource
            &&& !timers && !workers && !crossterm ==> r.2 == Command::<A, E>::Sleep(
                s.poll_sleep as u64,
            ) && r.0.polled.len() == 0 && r.0.phase is AwaitSleep
            &&& (timers || workers || crossterm) ==> r.0.poll_sleep == POLL_SLEEP_SHORT
        }),
{
    let r = step_spec(s, queued, Report::Polled { timers, workers, crossterm });
    let all = s.polled + ready_sources(timers, workers, crossterm);
    assert(s.polled.len() == 0);
    assert(all =~= ready_sources(timers, workers, crossterm));
    if timers {
        assert(all[0] == PollNext::Timers);
        assert(all.drop_first() =~= (if workers {
            seq![PollNext::Workers]
        } else {
            Seq::<PollNext>::empty()
        }) + (if crossterm {
            seq![PollNext::Crossterm]
        } else {
            Seq::<PollNext>::empty()
        }));
    } else if workers {
        assert(all[0] == PollNext::Workers);
        assert(all.drop_first() =~= (if crossterm {
            seq![PollNext::Crossterm]
        } else {
            Seq::<PollNext>::empty()
        }));
    } else if crossterm {
        assert(all[0] == PollNext::Crossterm);
        assert(all.drop_first().len() == 0);
    } else {
        assert(all.len() == 0);
    }
}

/// A background worker's result is handled as the task returned it: a result
/// is acted on at once like a handler's flow (so a task's error goes to the
/// error handler), an empty channel starts a new round, and a hung-up channel
/// goes to the error handler with its error.
pub proof fn lemma_worker_result_handled<A, E>(
    s: LoopState<A, E>,
    queued: Seq<Control<A>>,
    received: Received<A, E>,
)
    requires
        loop_wf(s),
        s.phase is AwaitWorker,
    ensures
        ({
            let r = step_spec(s, queued, Report::WorkerRead(received));
            &&& r.1 == queued
            &&& r.0.polled == s.polled
            &&& r.0.poll_sleep == s.poll_sleep
            &&& received matches Received::Value(Err(e)) ==> r.2 == Command::<A, E>::Error(e)
                && r.0.phase is AwaitHandler
            &&& received matches Received::Disconnected(e) ==> r.2 == Command::<A, E>::Error(e)
                && r.0.phase is AwaitHandler
            &&& received == Received::<A, E>::Value(Ok(Control::Repaint)) ==> r.2
                == Command::<A, E>::Repaint(RepaintEvent::Repaint) && r.0.phase is AwaitHandler
            &&& received matches Received::Value(Ok(Control::Action(a))) ==> r.2
                == Command::<A, E>::Action(a) && r.0.phase is AwaitHandler
            &&& received == Received::<A, E>::Value(Ok(Control::Quit)) ==> r.2 is Quit
                && r.0.phase is Stopped
            &&& (received == Received::<A, E>::Empty || received == Received::<A, E>::Value(
                Ok(Control::Continue),
            ) || received == Received::<A, E>::Value(Ok(Control::Break))) ==> r.2 is CheckLiveness
                && r.0.phase == Phase::<A, E>::AwaitLiveness(Ok(Control::Continue))
        }),
{
}

/// `Quit` from any handler ends the loop: at once when a terminal-event,
/// timer or worker result says so, and right after the liveness check when an
/// action, error or repaint handler says so.
pub proof fn lemma_quit_from_any_handler<A, E>(s: LoopState<A, E>, queued: Seq<Control<A>>)
    requires
        loop_wf(s),
        s.phase is AwaitSource || s.phase is AwaitHandler,
    ensures
        s.phase is AwaitSource ==> ({
            let r = step_spec(s, queued, Report::Flow(Ok(Control::Quit)));
            r.2 is Quit && r.0.phase is Stopped
        }),
        s.phase is AwaitHandler ==> ({
            let t = step_spec(s, queued, Report::Flow(Ok(Control::Quit)));
            let r = step_spec(t.0, t.1, Report::Liveness(true));
            &&& t.2 is CheckLiveness
            &&& r.2 is Quit
            &&& r.0.phase is Stopped
            &&& r.1 == queued
        }),
{
    if s.phase is AwaitHandler {
        lemma_handler_flow_carried(s, queued, Ok(Control::Quit));
    } else {
        lemma_source_flow_acted_on(s, queued, Ok(Control::Quit));
    }
}

/// What the timers give is acted on: a timer that asks for a repaint repaints
/// with that timer as the reason, an application timer goes to the
/// application's timer handler (each then waits for that handler's flow, to
/// act on it at once), and no fired timer starts a new round.
pub proof fn lemma_timer_read_handled<A, E>(
    s: LoopState<A, E>,
    queued: Seq<Control<A>>,
    fired: Option<TimerEvent>,
)
    requires
        loop_wf(s),
        s.phase is AwaitTimer,
    ensures
        ({
            let r = step_spec(s, queued, Report::TimerRead(fired));
            &&& r.1 == queued
            &&& r.0.polled == s.polled
            &&& r.0.poll_sleep == s.poll_sleep
            &&& fired matches Some(TimerEvent::Repaint(t)) ==> r.2 == Command::<A, E>::Repaint(
                RepaintEvent::Timer(t),
            ) && r.0.phase is AwaitSource
            &&& fired matches Some(TimerEvent::Application(t)) ==> r.2 == Command::<A, E>::Timer(t)
                && r.0.phase is AwaitSource
            &&& fired is None ==> r.2 is CheckLiveness && r.0.phase == Phase::<A, E>::AwaitLiveness(
                Ok(Control::Continue),
            )
        }),
{
}

/// At the start of a round with the workers alive and nothing pending, the
/// oldest queued result is taken out and acted on before any poll: `Repaint`
/// repaints, an action runs, `Quit` ends the loop, and `Break` starts a new
/// round. With nothing queued (or a queued `Continue`), a source left from the
/// last poll is read next, or else the sources are polled.
pub proof fn lemma_round_start_without_pending<A, E>(s: LoopState<A, E>, queued: Seq<Control<A>>)
    requires
        loop_wf(s),
        s.phase == Phase::<A, E>::AwaitLiveness(Ok(Control::Continue)),
    ensures
        ({
            let r = step_spec(s, queued, Report::Liveness(true));
            &&& queued.len() > 0 ==> r.1 =~= queued.subrange(1, queued.len() as int)
            &&& queued.len() == 0 ==> r.1 == queued
            &&& queued.len() > 0 && queued[0] == Control::<A>::Repaint ==> r.2
                == Command::<A, E>::Repaint(RepaintEvent::Repaint) && r.0.phase is AwaitHandler
            &&& queued.len() > 0 ==> (queued[0] matches Control::Action(a) ==> r.2
                == Command::<A, E>::Action(a) && r.0.phase is AwaitHandler)
            &&& queued.len() > 0 && queued[0] == Control::<A>::Quit ==> r.2 is Quit
                && r.0.phase is Stopped
            &&& queued.len() > 0 && queued[0] == Control::<A>::Break ==> r.2 is CheckLiveness
                && r.0.phase == Phase::<A, E>::AwaitLiveness(Ok(Control::Continue))
            &&& (queued.len() == 0 || queued[0] == Control::<A>::Continue) ==> {
                &&& s.polled.len() == 0 ==> r.2 is PollSources && r.0.phase is AwaitPolls
                    && r.0.polled == s.polled
                &&& s.polled.len() > 0 ==> r.2 == Command::<A, E>::Read(s.polled[0])
                    && r.0.polled =~= s.polled.subrange(1, s.polled.len() as int)
                    && r.0.poll_sleep == POLL_SLEEP_SHORT
                    && (s.polled[0] == PollNext::Timers ==> r.0.phase is AwaitTimer)
                    && (s.polled[0] == PollNext::Workers ==> r.0.phase is AwaitWorker)
                    && (s.polled[0] == PollNext::Crossterm ==> r.0.phase is AwaitSource)
            }
        }),
{
}

/// After an idle sleep a new round begins with nothing pending, the queue and
/// the sources untouched.
pub proof fn lemma_after_sleep_new_round<A, E>(s: LoopState<A, E>, queued: Seq<Control<A>>)
    requires
        loop_wf(s),
        s.phase is AwaitSleep,
    ensures
        ({
            let r = step_spec(s, queued, Report::Slept);
            &&& r.1 == queued
            &&& r.0.polled == s.polled
            &&& r.2 is CheckLiveness
            &&& r.0.phase == Phase::<A, E>::AwaitLiveness(Ok(Control::Continue))
        }),
{
}

} // verus!
