//! The controller: polls the status source on a fixed interval, forwards each
//! snapshot to the UI, and ends the run when the UI asks for it.

use crate::clock::wall_clock_seconds;
use crate::mailbox::{Mailbox, MailboxModel};
use crate::message::{ControllerMessage, UIMessage};
use crate::engine::{EngineModel, DASHBOARD_FPS};
use crate::theme::{dashboard_theme, Theme};
use crate::ui::{title_text, UIModel, QUIT_KEY, UI};
use crate::view::{TUIStatusListener, ViewRegistry};
use vstd::prelude::*;
use vstd::string::*;

verus! {

/// Seconds between two polls of the status source, unless set otherwise.
pub const DEFAULT_POLL_INTERVAL: u32 = 1;

/// Milliseconds to sleep after each iteration, unless set otherwise.
pub const DEFAULT_SLEEP_QUANTUM: u64 = 100;

/// What the caller of an iteration does next.
#[derive(Clone, Copy, Debug, PartialEq, Eq, Structural)]
pub enum Action {
    /// Sleep this many milliseconds, then run the next iteration.
    Sleep(u64),
    /// The run is over.
    Exit,
}

/// Where a controller stands.
#[derive(Clone, Copy, Debug, PartialEq, Eq, Structural)]
pub enum Phase {
    /// The UI runs and nobody asked to quit.
    Running,
    /// The UI runs and a shutdown request waits to be seen.
    ShuttingDown,
    /// The UI is stopped. There is no way back.
    Terminated,
}

/// The error with which construction fails where the render engine did not
/// start.
pub open spec fn startup_error(cause: Seq<char>) -> Seq<char> {
    "render engine failed to start: "@ + cause
}

/// The controller, mathematically.
pub struct ControllerModel<S, V> {
    /// The UI that the controller owns.
    pub ui: UIModel<S, V>,
    /// Seconds between two polls.
    pub poll_interval: u32,
    /// Milliseconds to sleep after each iteration.
    pub sleep_quantum: u64,
    /// The clock reading from which the time to the next poll counts: that of
    /// the last poll or, before the first one, that of the first iteration.
    /// `None` until an iteration got that far.
    pub last_poll: Option<i64>,
}

impl<S: Copy, V: TUIStatusListener<S>> ControllerModel<S, V> {
    /// Where the controller stands.
    pub open spec fn phase(self) -> Phase {
        if !self.ui.engine.running {
            Phase::Terminated
        } else if self.ui.controller_tx.pending.len() > 0 {
            Phase::ShuttingDown
        } else {
            Phase::Running
        }
    }

    /// The clock reading from which the time to the next poll counts, at an
    /// iteration that reads `now`.
    pub open spec fn poll_clock(self, now: i64) -> i64 {
        match self.last_poll {
            Some(t) => t,
            None => now,
        }
    }

    /// Whether an iteration that reads `now` polls the status source: the
    /// controller is running and the poll interval has elapsed.
    pub open spec fn poll_due(self, now: i64) -> bool {
        self.phase() == Phase::Running && now - self.poll_clock(now) >= self.poll_interval
    }

    /// What an iteration tells its caller.
    pub open spec fn action(self) -> Action {
        if self.phase() == Phase::Running {
            Action::Sleep(self.sleep_quantum)
        } else {
            Action::Exit
        }
    }

    /// The controller after one iteration that reads `now` from the clock
    /// and, where it polls, `reading` from the status source.
    ///
    /// A terminated controller stays as it is. Otherwise the UI makes its
    /// step. Then a shutdown request, where one waits, is taken and the UI is
    /// stopped. Where none waits and the poll is due, the reading is sent to
    /// the UI and the poll clock starts again at `now`.
    pub open spec fn ticked(self, now: i64, reading: S) -> Self {
        match self.phase() {
            Phase::Terminated => self,
            Phase::ShuttingDown => ControllerModel {
                ui: self.ui.stepped().polled().stopped(),
                ..self
            },
            Phase::Running => if self.poll_due(now) {
                ControllerModel {
                    ui: self.ui.stepped().with_message(UIMessage::UpdateStatus(reading)),
                    last_poll: Some(now),
                    ..self
                }
            } else {
                ControllerModel {
                    ui: self.ui.stepped(),
                    last_poll: Some(self.poll_clock(now)),
                    ..self
                }
            },
        }
    }

    /// The controller with its UI replaced.
    pub open spec fn with_ui(self, ui: UIModel<S, V>) -> Self {
        ControllerModel { ui, ..self }
    }

    /// Whether iteration `i` of a run over `clock` polls the status source.
    pub open spec fn polls_at(self, clock: Seq<i64>, readings: Seq<S>, i: int) -> bool {
        self.ran(clock.take(i), readings.take(i)).poll_due(clock[i])
    }

    /// The controller after one iteration for each reading of `clock`, in
    /// order, `readings` being what the status source holds at each.
    pub open spec fn ran(self, clock: Seq<i64>, readings: Seq<S>) -> Self
        decreases clock.len(),
    {
        if clock.len() == 0 {
            self
        } else {
            self.ran(clock.drop_last(), readings.drop_last()).ticked(clock.last(), readings.last())
        }
    }
}

impl<S: Copy, V: TUIStatusListener<S>> ControllerModel<S, V> {
    /// A terminated controller is final: no iteration changes it.
    pub proof fn lemma_terminated_is_final(self, clock: Seq<i64>, readings: Seq<S>)
        requires
            self.phase() == Phase::Terminated,
        ensures
            self.ran(clock, readings) == self,
        decreases clock.len(),
    {
        if clock.len() > 0 {
            self.lemma_terminated_is_final(clock.drop_last(), readings.drop_last());
        }
    }

    /// A run over two stretches of clock is the run over the first followed by
    /// the run over the second.
    pub proof fn lemma_ran_append(
        self,
        clock1: Seq<i64>,
        readings1: Seq<S>,
        clock2: Seq<i64>,
        readings2: Seq<S>,
    )
        requires
            readings1.len() == clock1.len(),
            readings2.len() == clock2.len(),
        ensures
            self.ran(clock1 + clock2, readings1 + readings2) == self.ran(clock1, readings1).ran(
                clock2,
                readings2,
            ),
        decreases clock2.len(),
    {
        if clock2.len() == 0 {
            assert(clock1 + clock2 =~= clock1);
            assert(readings1 + readings2 =~= readings1);
        } else {
            self.lemma_ran_append(clock1, readings1, clock2.drop_last(), readings2.drop_last());
            assert((clock1 + clock2).drop_last() =~= clock1 + clock2.drop_last());
            assert((readings1 + readings2).drop_last() =~= readings1 + readings2.drop_last());
            assert((clock1 + clock2).last() == clock2.last());
            assert((readings1 + readings2).last() == readings2.last());
        }
    }
}

impl<S: Copy, V: TUIStatusListener<S>> ControllerModel<S, V> {
    /// Where the UI does not run, an iteration ends the run at once: it polls
    /// nothing and changes nothing, and neither does any run.
    pub proof fn lemma_halted_ui_ends_run(
        self,
        now: i64,
        reading: S,
        clock: Seq<i64>,
        readings: Seq<S>,
    )
        requires
            !self.ui.engine.running,
        ensures
            self.action() == Action::Exit,
            !self.poll_due(now),
            self.ticked(now, reading) == self,
            self.ran(clock, readings) == self,
    {
        self.lemma_terminated_is_final(clock, readings);
    }

    /// One shutdown, however often it was asked for: after any number of
    /// presses of the quit key, at least one, the next iteration ends the run
    /// and stops the UI. Apart from the requests left unread, the controller
    /// is then what one press would have left; no later iteration and no
    /// second stop changes it.
    pub proof fn lemma_shutdown_once(
        self,
        presses: nat,
        now: i64,
        reading: S,
        clock: Seq<i64>,
        readings: Seq<S>,
    )
        requires
            self.ui.engine.running,
            !self.ui.controller_tx.closed,
            presses >= 1,
        ensures
            ({
                let asked = self.with_ui(self.ui.keyed_times(QUIT_KEY, presses));
                let once = self.with_ui(self.ui.keyed(QUIT_KEY));
                let after = asked.ticked(now, reading);
                &&& asked.phase() == Phase::ShuttingDown
                &&& asked.action() == Action::Exit
                &&& after.phase() == Phase::Terminated
                &&& after.ui.engine == self.ui.engine.stepped().halted()
                &&& after.with_ui(after.ui.without_requests()) == once.ticked(now, reading).with_ui(
                    once.ticked(now, reading).ui.without_requests(),
                )
                &&& after.ui.inbox == self.ui.stepped().inbox
                &&& after.ui.views == self.ui.stepped().views
                &&& after.last_poll == self.last_poll
                &&& after.ran(clock, readings) == after
                &&& after.with_ui(after.ui.stopped()) == after
            }),
    {
        let asked = self.with_ui(self.ui.keyed_times(QUIT_KEY, presses));
        let after = asked.ticked(now, reading);
        self.ui.lemma_quit_presses(presses);
        self.ui.lemma_quit_presses(1);
        assert(self.ui.keyed_times(QUIT_KEY, 1) == self.ui.keyed(QUIT_KEY)) by {
            assert(self.ui.keyed_times(QUIT_KEY, 0) == self.ui);
        }
        self.ui.controller_tx.lemma_sent_times(ControllerMessage::Shutdown, presses);
        let once_after = self.with_ui(self.ui.keyed(QUIT_KEY)).ticked(now, reading);
        assert(after.ui.without_requests() == once_after.ui.without_requests());
        after.lemma_terminated_is_final(clock, readings);
    }

    /// There is no way back: an iteration takes a running controller nowhere
    /// or, once a shutdown request waits, to its end, and a terminated one
    /// stays terminated.
    pub proof fn lemma_phase_order(self, now: i64, reading: S)
        ensures
            self.phase() == Phase::Running ==> self.ticked(now, reading).phase()
                == Phase::Running,
            self.phase() == Phase::ShuttingDown ==> self.ticked(now, reading).phase()
                == Phase::Terminated,
            self.phase() == Phase::Terminated ==> self.ticked(now, reading) == self,
    {
    }

    /// A run changes neither the poll interval nor the sleep quantum.
    pub proof fn lemma_ran_keeps_timing(self, clock: Seq<i64>, readings: Seq<S>)
        ensures
            self.ran(clock, readings).poll_interval == self.poll_interval,
            self.ran(clock, readings).sleep_quantum == self.sleep_quantum,
        decreases clock.len(),
    {
        if clock.len() > 0 {
            self.lemma_ran_keeps_timing(clock.drop_last(), readings.drop_last());
        }
    }

    /// After iteration `i` of a run polled, the poll clock never stands
    /// before that iteration's reading again.
    pub proof fn lemma_poll_clock_after(
        self,
        clock: Seq<i64>,
        readings: Seq<S>,
        i: int,
        k: int,
    )
        requires
            readings.len() == clock.len(),
            0 <= i < k <= clock.len(),
            self.polls_at(clock, readings, i),
        ensures
            self.ran(clock.take(k), readings.take(k)).last_poll is Some,
            self.ran(clock.take(k), readings.take(k)).last_poll->0 >= clock[i],
        decreases k - i,
    {
        let before = self.ran(clock.take(k - 1), readings.take(k - 1));
        assert(clock.take(k).drop_last() =~= clock.take(k - 1));
        assert(readings.take(k).drop_last() =~= readings.take(k - 1));
        assert(clock.take(k).last() == clock[k - 1]);
        assert(self.ran(clock.take(k), readings.take(k)) == before.ticked(
            clock[k - 1],
            readings[k - 1],
        ));
        if k - 1 > i {
            self.lemma_poll_clock_after(clock, readings, i, k - 1);
        }
    }

    /// At most one poll per interval: any two iterations of a run that poll
    /// read clock values at least the poll interval apart.
    pub proof fn lemma_polls_spaced(self, clock: Seq<i64>, readings: Seq<S>, i: int, j: int)
        requires
            readings.len() == clock.len(),
            0 <= i < j < clock.len(),
            self.polls_at(clock, readings, i),
            self.polls_at(clock, readings, j),
        ensures
            clock[j] - clock[i] >= self.poll_interval,
    {
        self.lemma_poll_clock_after(clock, readings, i, j);
        self.lemma_ran_keeps_timing(clock.take(j), readings.take(j));
    }

    /// At least one poll once the interval has elapsed: an iteration of a
    /// running controller that reads a clock value a poll interval or more
    /// past the poll clock sends the reading to the UI, as the one message in
    /// its inbox where the inbox is open, and starts the poll clock again.
    pub proof fn lemma_poll_when_due(self, now: i64, reading: S)
        requires
            self.phase() == Phase::Running,
            now - self.poll_clock(now) >= self.poll_interval,
        ensures
            self.poll_due(now),
            self.ticked(now, reading).last_poll == Some(now),
            self.ticked(now, reading).ui.inbox == self.ui.inbox.drained().sent(
                UIMessage::UpdateStatus(reading),
            ),
            !self.ui.inbox.closed ==> self.ticked(now, reading).ui.inbox.pending
                =~= seq![UIMessage::UpdateStatus(reading)],
    {
    }

    /// An iteration sends at most one message, and none unless the poll is
    /// due: the inbox of a controller that has made an iteration holds the
    /// one snapshot polled, or nothing.
    pub proof fn lemma_at_most_one_per_tick(self, now: i64, reading: S)
        requires
            self.ui.engine.running,
        ensures
            self.ticked(now, reading).ui.inbox.pending.len() <= 1,
            !self.poll_due(now) ==> self.ticked(now, reading).ui.inbox.pending.len() == 0,
    {
    }
}

/// The controller. It owns the UI, and with it the queue on which the UI asks
/// for shutdown.
///
/// What sleeps and draws is the caller: it runs one iteration after the other,
/// each with [`Controller::tick`] or [`Controller::tick_now`], and does after
/// each what the [`Action`] says.
pub struct Controller<S, V> {
    ui: UI<S, V>,
    poll_interval: u32,
    sleep_quantum: u64,
    last_poll: Option<i64>,
}

impl<S, V> View for Controller<S, V> {
    type V = ControllerModel<S, V>;

    closed spec fn view(&self) -> ControllerModel<S, V> {
        ControllerModel {
            ui: self.ui@,
            poll_interval: self.poll_interval,
            sleep_quantum: self.sleep_quantum,
            last_poll: self.last_poll,
        }
    }
}

impl<S: Copy, V: TUIStatusListener<S>> Controller<S, V> {
    /// Creates a new controller with a fresh UI, given how the start of the
    /// render engine went. Where it failed, so does construction, with an
    /// error that says so and why.
    pub fn new(
        engine_start: Result<(), String>,
        views: ViewRegistry<V>,
        pkg_version: &str,
        theme: Theme,
    ) -> (r: Result<Self, String>)
        ensures
            match engine_start {
                Ok(_) => r is Ok && r->Ok_0@ == (ControllerModel::<S, V> {
                    ui: UIModel {
                        engine: EngineModel::fresh().at_fps(DASHBOARD_FPS),
                        inbox: MailboxModel::empty(),
                        controller_tx: MailboxModel::empty(),
                        views: views@,
                        theme: dashboard_theme(theme),
                        title: title_text(pkg_version@),
                    },
                    poll_interval: DEFAULT_POLL_INTERVAL,
                    sleep_quantum: DEFAULT_SLEEP_QUANTUM,
                    last_poll: None,
                }),
                Err(cause) => r is Err && r->Err_0@ == startup_error(cause@),
            },
    {
        match engine_start {
            Ok(_) => {
                let tx: Mailbox<ControllerMessage> = Mailbox::new();
                Ok(
                    Controller {
                        ui: UI::new(tx, views, pkg_version, theme),
                        poll_interval: DEFAULT_POLL_INTERVAL,
                        sleep_quantum: DEFAULT_SLEEP_QUANTUM,
                        last_poll: None,
                    },
                )
            },
            Err(cause) => {
                let mut message = String::from_str("render engine failed to start: ");
                message.append(cause.as_str());
                Err(message)
            },
        }
    }

    /// Sets the seconds between two polls.
    pub fn set_poll_interval(&mut self, seconds: u32)
        ensures
            final(self)@ == (ControllerModel { poll_interval: seconds, ..old(self)@ }),
    {
        self.poll_interval = seconds;
    }

    /// Sets the milliseconds to sleep after each iteration.
    pub fn set_sleep_quantum(&mut self, millis: u64)
        ensures
            final(self)@ == (ControllerModel { sleep_quantum: millis, ..old(self)@ }),
    {
        self.sleep_quantum = millis;
    }

    /// Where the controller stands.
    pub fn phase(&self) -> (phase: Phase)
        ensures
            phase == self@.phase(),
    {
        if !self.ui.is_running() {
            Phase::Terminated
        } else if self.ui.requests() > 0 {
            Phase::ShuttingDown
        } else {
            Phase::Running
        }
    }

    /// The UI.
    pub fn ui(&self) -> (ui: &UI<S, V>)
        ensures
            ui@ == self@.ui,
    {
        &self.ui
    }

    /// Gives up the controller for its UI.
    pub fn into_ui(self) -> (ui: UI<S, V>)
        ensures
            ui@ == self@.ui,
    {
        self.ui
    }

    /// A key was pressed in the UI.
    pub fn key(&mut self, key: char)
        ensures
            final(self)@ == (ControllerModel { ui: old(self)@.ui.keyed(key), ..old(self)@ }),
    {
        self.ui.key(key);
    }

    /// The UI, to send it keys and messages.
    pub fn ui_mut(&mut self) -> (ui: &mut UI<S, V>)
        ensures
            ui@ == old(self)@.ui,
            final(self)@ == old(self)@.with_ui(final(ui)@),
    {
        &mut self.ui
    }

    /// One iteration of the run at clock reading `now`, in whole seconds.
    ///
    /// Where the UI no longer steps, the run is over. Where it steps and a
    /// shutdown request waits, the UI is stopped and the run is over. Else,
    /// where the poll interval has elapsed, a snapshot is read from `source`
    /// and sent to the UI. A send that fails is not an error: the run goes on
    /// until the UI itself no longer steps.
    pub fn tick<F: Fn() -> S>(&mut self, now: i64, source: &F) -> (action: Action)
        requires
            source.requires(()),
        ensures
            action == old(self)@.action(),
            exists|reading: S|
                {
                    &&& #[trigger] old(self)@.ticked(now, reading) == final(self)@
                    &&& old(self)@.poll_due(now) ==> source.ensures((), reading)
                },
    {
        if !self.ui.step() {
            assert(old(self)@.ticked(now, arbitrary()) == self@);
            return Action::Exit;
        }
        match self.ui.try_recv() {
            Ok(ControllerMessage::Shutdown) => {
                self.ui.stop();
                assert(old(self)@.ticked(now, arbitrary()) == self@);
                return Action::Exit;
            },
            Err(_) => {},
        }
        let last = match self.last_poll {
            Some(t) => t,
            None => now,
        };
        if (now as i128) - (last as i128) >= (self.poll_interval as i128) {
            let snapshot = source();
            let _ = self.ui.send(UIMessage::UpdateStatus(snapshot));
            self.last_poll = Some(now);
            assert(old(self)@.ticked(now, snapshot) == self@);
        } else {
            self.last_poll = Some(last);
            assert(old(self)@.ticked(now, arbitrary()) == self@);
        }
        Action::Sleep(self.sleep_quantum)
    }

    /// One iteration of the run at whatever the wall clock reads: what
    /// [`Controller::tick`] does for some reading `now`.
    pub fn tick_now<F: Fn() -> S>(&mut self, source: &F) -> (action: Action)
        requires
            source.requires(()),
        ensures
            action == old(self)@.action(),
            exists|now: i64, reading: S|
                {
                    &&& #[trigger] old(self)@.ticked(now, reading) == final(self)@
                    &&& old(self)@.poll_due(now) ==> source.ensures((), reading)
                },
    {
        let now = wall_clock_seconds();
        self.tick(now, source)
    }

    /// Runs the controller against a scripted clock: one iteration for each
    /// reading of `clock`, in order, until one of them ends the run. The
    /// answer tells whether the run is over; where it is not, the script ran
    /// out first and the run can go on with another.
    ///
    /// The iterations that follow the end of a run change nothing, so the
    /// controller is left as the whole script leaves it.
    pub fn run<F: Fn() -> S>(&mut self, source: &F, clock: &Vec<i64>) -> (over: bool)
        requires
            source.requires(()),
        ensures
            over == (final(self)@.phase() == Phase::Terminated),
            exists|readings: Seq<S>|
                {
                    &&& #[trigger] old(self)@.ran(clock@, readings) == final(self)@
                    &&& readings.len() == clock@.len()
                    &&& forall|i: int|
                        0 <= i < clock@.len() && #[trigger] old(self)@.polls_at(clock@, readings, i)
                            ==> source.ensures((), readings[i])
                },
    {
        let n = clock.len();
        let ghost mut readings: Seq<S> = Seq::empty();
        let mut i: usize = 0;
        assert(clock@.take(0) =~= Seq::<i64>::empty());
        while i < n
            invariant
                n == clock@.len(),
                i <= n,
                source.requires(()),
                readings.len() == i,
                self@ == old(self)@.ran(clock@.take(i as int), readings),
                forall|k: int|
                    0 <= k < i && (#[trigger] old(self)@.ran(
                        clock@.take(k),
                        readings.take(k),
                    )).poll_due(clock@[k]) ==> source.ensures((), readings[k]),
            decreases n - i,
        {
            let ghost before = self@;
            let ghost done = readings;
            let action = self.tick(clock[i], source);
            proof {
                let reading = choose|reading: S|
                    {
                        &&& #[trigger] before.ticked(clock@[i as int], reading) == self@
                        &&& before.poll_due(clock@[i as int]) ==> source.ensures((), reading)
                    };
                readings = done.push(reading);
                let next = clock@.take(i + 1);
                assert(next.drop_last() =~= clock@.take(i as int));
                assert(readings.drop_last() =~= done);
                assert(next.last() == clock@[i as int]);
                assert(done =~= readings.take(i as int));
                assert forall|k: int|
                    0 <= k < i + 1 && (#[trigger] old(self)@.ran(
                        clock@.take(k),
                        readings.take(k),
                    )).poll_due(clock@[k]) implies source.ensures((), readings[k]) by {
                    if k < i {
                        assert(readings.take(k) =~= done.take(k));
                    }
                }
            }
            i += 1;
            match action {
                Action::Exit => {
                    proof {
                        let ghost rest = Seq::new((n - i) as nat, |j: int| arbitrary::<S>());
                        let ghost all = readings + rest;
                        let ghost tail = clock@.subrange(i as int, n as int);
                        assert(clock@.take(i as int) + tail =~= clock@);
                        old(self)@.lemma_ran_append(clock@.take(i as int), readings, tail, rest);
                        self@.lemma_terminated_is_final(tail, rest);
                        assert forall|k: int|
                            0 <= k < n && #[trigger] old(self)@.polls_at(
                                clock@,
                                all,
                                k,
                            ) implies source.ensures((), all[k]) by {
                            if k < i {
                                assert(all.take(k) =~= readings.take(k));
                            } else {
                                let mid = clock@.subrange(i as int, k);
                                let pad = rest.take(k - i);
                                assert(clock@.take(k) =~= clock@.take(i as int) + mid);
                                assert(all.take(k) =~= readings + pad);
                                old(self)@.lemma_ran_append(
                                    clock@.take(i as int),
                                    readings,
                                    mid,
                                    pad,
                                );
                                self@.lemma_terminated_is_final(mid, pad);
                            }
                        }
                        assert(old(self)@.ran(clock@, all) == self@);
                    }
                    return true;
                },
                Action::Sleep(_) => {},
            }
        }
        proof {
            assert(clock@.take(n as int) =~= clock@);
            assert forall|k: int|
                0 <= k < n && #[trigger] old(self)@.polls_at(
                    clock@,
                    readings,
                    k,
                ) implies source.ensures((), readings[k]) by {}
            assert(old(self)@.ran(clock@, readings) == self@);
        }
        self.phase() == Phase::Terminated
    }
}

} // verus!
