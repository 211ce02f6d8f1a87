use rat_salsa2::framework::{
    calculate_sleep, check_liveness, Command, PollNext, Received, Report, POLL_SLEEP_MAX,
    POLL_SLEEP_SHORT,
};
use rat_salsa2::{Control, EventLoop, Queue, RepaintEvent, TimeOut, TimerEvent};

type Loop = EventLoop<u32, String>;

/// A loop past the initialization and the first repaint.
fn started(q: &mut Queue<Control<u32>>) -> (Loop, Command<u32, String>) {
    let (lp, cmd) = Loop::start();
    assert_eq!(cmd, Command::Init);
    let (lp, cmd) = lp.step(q, Report::Initialized(Ok(())));
    assert_eq!(cmd, Command::Repaint(RepaintEvent::Repaint));
    lp.step(q, Report::Flow(Ok(Control::Quit)))
}

fn polled(timers: bool, workers: bool, crossterm: bool) -> Report<u32, String> {
    Report::Polled { timers, workers, crossterm }
}

#[test]
fn initializes_then_repaints_then_checks_liveness() {
    let mut q: Queue<Control<u32>> = Queue::default();
    // what the first repaint returns is not acted on
    let (_lp, cmd) = started(&mut q);
    assert_eq!(cmd, Command::CheckLiveness);
}

#[test]
fn failed_initialization_ends_the_loop() {
    let mut q: Queue<Control<u32>> = Queue::default();
    let (lp, _) = Loop::start();
    let (lp, cmd) = lp.step(&mut q, Report::Initialized(Err("no config".to_string())));
    assert_eq!(cmd, Command::Fail("no config".to_string()));
    assert!(!lp.expects(&Report::Flow(Ok(Control::Continue))));
}

#[test]
fn failed_first_repaint_ends_the_loop() {
    let mut q: Queue<Control<u32>> = Queue::default();
    let (lp, _) = Loop::start();
    let (lp, _) = lp.step(&mut q, Report::Initialized(Ok(())));
    let (lp, cmd) = lp.step(&mut q, Report::Flow(Err("draw".to_string())));
    assert_eq!(cmd, Command::Fail("draw".to_string()));
    assert!(!lp.expects(&Report::Liveness(true)));
}

#[test]
fn failed_terminal_poll_ends_the_loop() {
    let mut q: Queue<Control<u32>> = Queue::default();
    let (lp, _) = started(&mut q);
    let (lp, cmd) = lp.step(&mut q, Report::Liveness(true));
    assert_eq!(cmd, Command::PollSources);
    let (lp, cmd) = lp.step(&mut q, Report::PollFailed("tty".to_string()));
    assert_eq!(cmd, Command::Fail("tty".to_string()));
    assert!(!lp.expects(&Report::Slept));
}

#[test]
fn idle_loop_polls_sleeps_and_backs_off() {
    let mut q: Queue<Control<u32>> = Queue::default();
    let (lp, cmd) = started(&mut q);
    assert_eq!(cmd, Command::CheckLiveness);
    let (lp, cmd) = lp.step(&mut q, Report::Liveness(true));
    assert_eq!(cmd, Command::PollSources);
    let (lp, cmd) = lp.step(&mut q, polled(false, false, false));
    assert_eq!(cmd, Command::Sleep(POLL_SLEEP_MAX));
    let (lp, cmd) = lp.step(&mut q, Report::Slept);
    assert_eq!(cmd, Command::CheckLiveness);
    let (lp, cmd) = lp.step(&mut q, Report::Liveness(true));
    assert_eq!(cmd, Command::PollSources);
    // the terminal has an event: reading it makes the idle sleep short
    let (lp, cmd) = lp.step(&mut q, polled(false, false, true));
    assert_eq!(cmd, Command::Read(PollNext::Crossterm));
    let (lp, cmd) = lp.step(&mut q, Report::Flow(Ok(Control::Continue)));
    assert_eq!(cmd, Command::CheckLiveness);
    let (lp, cmd) = lp.step(&mut q, Report::Liveness(true));
    assert_eq!(cmd, Command::PollSources);
    let (lp, cmd) = lp.step(&mut q, polled(false, false, false));
    assert_eq!(cmd, Command::Sleep(POLL_SLEEP_SHORT));
    assert_eq!(POLL_SLEEP_SHORT, 100_000);
    // after an idle round the sleep grows by 100 µs
    let (lp, _) = lp.step(&mut q, Report::Slept);
    let (lp, _) = lp.step(&mut q, Report::Liveness(true));
    let (_lp, cmd) = lp.step(&mut q, polled(false, false, false));
    assert_eq!(cmd, Command::Sleep(200_000));
}

#[test]
fn ready_sources_are_read_in_order_before_the_next_poll() {
    let mut q: Queue<Control<u32>> = Queue::default();
    let (lp, _) = started(&mut q);
    let (lp, _) = lp.step(&mut q, Report::Liveness(true));
    let (lp, cmd) = lp.step(&mut q, polled(true, true, true));
    assert_eq!(cmd, Command::Read(PollNext::Timers));
    let t = TimeOut { handle: 4, counter: 2 };
    let (lp, cmd) = lp.step(&mut q, Report::TimerRead(Some(TimerEvent::Repaint(t))));
    assert_eq!(cmd, Command::Repaint(RepaintEvent::Timer(t)));
    let (lp, cmd) = lp.step(&mut q, Report::Flow(Ok(Control::Continue)));
    assert_eq!(cmd, Command::CheckLiveness);
    let (lp, cmd) = lp.step(&mut q, Report::Liveness(true));
    assert_eq!(cmd, Command::Read(PollNext::Workers));
    let (lp, cmd) = lp.step(&mut q, Report::WorkerRead(Received::Empty));
    assert_eq!(cmd, Command::CheckLiveness);
    let (lp, cmd) = lp.step(&mut q, Report::Liveness(true));
    assert_eq!(cmd, Command::Read(PollNext::Crossterm));
    let (lp, cmd) = lp.step(&mut q, Report::Flow(Ok(Control::Break)));
    assert_eq!(cmd, Command::CheckLiveness);
    let (_lp, cmd) = lp.step(&mut q, Report::Liveness(true));
    assert_eq!(cmd, Command::PollSources);
}

#[test]
fn application_timer_goes_to_the_application() {
    let mut q: Queue<Control<u32>> = Queue::default();
    let (lp, _) = started(&mut q);
    let (lp, _) = lp.step(&mut q, Report::Liveness(true));
    let (lp, _) = lp.step(&mut q, polled(true, false, false));
    let t = TimeOut { handle: 1, counter: 9 };
    let (lp, cmd) = lp.step(&mut q, Report::TimerRead(Some(TimerEvent::Application(t))));
    assert_eq!(cmd, Command::Timer(t));
    // the timer handler's result is dispatched at once
    let (_lp, cmd) = lp.step(&mut q, Report::Flow(Ok(Control::Action(5))));
    assert_eq!(cmd, Command::Action(5));
}

#[test]
fn no_timer_event_continues() {
    let mut q: Queue<Control<u32>> = Queue::default();
    let (lp, _) = started(&mut q);
    let (lp, _) = lp.step(&mut q, Report::Liveness(true));
    let (lp, _) = lp.step(&mut q, polled(true, false, false));
    let (_lp, cmd) = lp.step(&mut q, Report::TimerRead(None));
    assert_eq!(cmd, Command::CheckLiveness);
}

#[test]
fn worker_results_are_dispatched() {
    let mut q: Queue<Control<u32>> = Queue::default();
    let (lp, _) = started(&mut q);
    let (lp, _) = lp.step(&mut q, Report::Liveness(true));
    let (lp, _) = lp.step(&mut q, polled(false, true, false));
    let (lp, cmd) = lp.step(&mut q, Report::WorkerRead(Received::Value(Ok(Control::Repaint))));
    assert_eq!(cmd, Command::Repaint(RepaintEvent::Repaint));
    let (lp, cmd) = lp.step(&mut q, Report::Flow(Ok(Control::Continue)));
    assert_eq!(cmd, Command::CheckLiveness);
    let (lp, _) = lp.step(&mut q, Report::Liveness(true));
    let (lp, _) = lp.step(&mut q, polled(false, true, false));
    let (_lp, cmd) = lp.step(
        &mut q,
        Report::WorkerRead(Received::Disconnected("hung up".to_string())),
    );
    assert_eq!(cmd, Command::Error("hung up".to_string()));
}

#[test]
fn queued_results_come_before_polling() {
    let mut q: Queue<Control<u32>> = Queue::default();
    q.queue(Control::Action(7));
    q.queue(Control::Repaint);
    let (lp, _) = started(&mut q);
    let (lp, cmd) = lp.step(&mut q, Report::Liveness(true));
    assert_eq!(cmd, Command::Action(7));
    let (lp, cmd) = lp.step(&mut q, Report::Flow(Ok(Control::Continue)));
    assert_eq!(cmd, Command::CheckLiveness);
    let (lp, cmd) = lp.step(&mut q, Report::Liveness(true));
    assert_eq!(cmd, Command::Repaint(RepaintEvent::Repaint));
    let (lp, _) = lp.step(&mut q, Report::Flow(Ok(Control::Continue)));
    let (_lp, cmd) = lp.step(&mut q, Report::Liveness(true));
    assert_eq!(cmd, Command::PollSources);
}

#[test]
fn pending_flow_is_handled_before_the_queue() {
    let mut q: Queue<Control<u32>> = Queue::default();
    let (lp, _) = started(&mut q);
    let (lp, _) = lp.step(&mut q, Report::Liveness(true));
    let (lp, _) = lp.step(&mut q, polled(false, false, true));
    let (lp, cmd) = lp.step(&mut q, Report::Flow(Ok(Control::Action(1))));
    assert_eq!(cmd, Command::Action(1));
    // the action handler returns another action and queues a repaint
    q.queue(Control::Repaint);
    let (lp, cmd) = lp.step(&mut q, Report::Flow(Ok(Control::Action(2))));
    assert_eq!(cmd, Command::CheckLiveness);
    let (lp, cmd) = lp.step(&mut q, Report::Liveness(true));
    assert_eq!(cmd, Command::Action(2));
    let (lp, _) = lp.step(&mut q, Report::Flow(Ok(Control::Continue)));
    let (_lp, cmd) = lp.step(&mut q, Report::Liveness(true));
    assert_eq!(cmd, Command::Repaint(RepaintEvent::Repaint));
}

#[test]
fn errors_go_to_the_error_handler() {
    let mut q: Queue<Control<u32>> = Queue::default();
    let (lp, _) = started(&mut q);
    let (lp, _) = lp.step(&mut q, Report::Liveness(true));
    let (lp, _) = lp.step(&mut q, polled(false, false, true));
    let (lp, cmd) = lp.step(&mut q, Report::Flow(Err("bad key".to_string())));
    assert_eq!(cmd, Command::Error("bad key".to_string()));
    let (lp, cmd) = lp.step(&mut q, Report::Flow(Ok(Control::Quit)));
    assert_eq!(cmd, Command::CheckLiveness);
    let (lp, cmd) = lp.step(&mut q, Report::Liveness(true));
    assert_eq!(cmd, Command::Quit);
    assert!(!lp.expects(&Report::Liveness(true)));
    assert!(!lp.expects(&Report::Flow(Ok(Control::Continue))));
}

#[test]
fn dead_worker_stops_the_loop() {
    let mut q: Queue<Control<u32>> = Queue::default();
    q.queue(Control::Quit);
    let (lp, _) = started(&mut q);
    let (lp, cmd) = lp.step(&mut q, Report::Liveness(false));
    assert_eq!(cmd, Command::WorkerPanicked);
    assert!(!lp.expects(&Report::Slept));
}

#[test]
fn expects_only_the_matching_report() {
    let mut q: Queue<Control<u32>> = Queue::default();
    let (lp, _) = Loop::start();
    assert!(lp.expects(&Report::Initialized(Ok(()))));
    assert!(!lp.expects(&Report::Liveness(true)));
    let (lp, _) = lp.step(&mut q, Report::Initialized(Ok(())));
    assert!(lp.expects(&Report::Flow(Ok(Control::Continue))));
    let (lp, _) = lp.step(&mut q, Report::Flow(Ok(Control::Continue)));
    assert!(lp.expects(&Report::Liveness(true)));
    assert!(!lp.expects(&Report::Slept));
    let (lp, _) = lp.step(&mut q, Report::Liveness(true));
    assert!(lp.expects(&polled(true, false, false)));
    assert!(lp.expects(&Report::PollFailed("tty".to_string())));
    assert!(!lp.expects(&Report::Liveness(true)));
}

#[test]
fn sleep_is_bounded_by_the_next_timer() {
    assert_eq!(calculate_sleep(Some(5_000_000), 10_000_000), 5_000_000);
    assert_eq!(calculate_sleep(Some(20_000_000), 10_000_000), 10_000_000);
    assert_eq!(calculate_sleep(Some(10_000_000), 10_000_000), 10_000_000);
    assert_eq!(calculate_sleep(Some(0), 100_000), 0);
    assert_eq!(calculate_sleep(None, 300_000), 300_000);
    assert_eq!(calculate_sleep(Some(u128::MAX), 7), 7);
}

#[test]
fn liveness_needs_every_worker_running() {
    assert!(check_liveness(&[]));
    assert!(check_liveness(&[false, false]));
    assert!(!check_liveness(&[false, true, false]));
    assert!(!check_liveness(&[true]));
}
