//! The UI: one render step per call, with an empty inbox going into it.

use crate::engine::{EngineModel, RenderEngine, DASHBOARD_FPS};
use crate::mailbox::{Mailbox, MailboxModel, SendError, TryRecvError};
use crate::message::{ControllerMessage, UIMessage};
use crate::theme::{dashboard_theme, modify_theme, Theme};
use crate::view::{RegistryModel, TUIStatusListener, ViewRegistry};
use vstd::prelude::*;
use vstd::string::*;

verus! {

/// The key that asks the dashboard to quit.
pub const QUIT_KEY: char = 'q';

/// The title line of the dashboard for a package version.
pub open spec fn title_text(pkg_version: Seq<char>) -> Seq<char> {
    "Mugle Miner Version "@ + pkg_version
}

/// The title line of the dashboard.
pub fn title_line(pkg_version: &str) -> (title: String)
    ensures
        title@ == title_text(pkg_version@),
{
    let mut title = String::from_str("Mugle Miner Version ");
    title.append(pkg_version);
    title
}

/// The snapshots that a run of messages carries, in order.
pub open spec fn snapshots<S: Copy>(messages: Seq<UIMessage<S>>) -> Seq<S> {
    Seq::new(messages.len(), |i: int| messages[i].snapshot())
}

/// The UI, mathematically.
pub struct UIModel<S, V> {
    /// The render engine.
    pub engine: EngineModel,
    /// What the controller sent and no step has handled yet.
    pub inbox: MailboxModel<UIMessage<S>>,
    /// What was sent to the controller and is not yet received.
    pub controller_tx: MailboxModel<ControllerMessage>,
    /// The stack of status panels.
    pub views: RegistryModel<V>,
    /// The look of the dashboard.
    pub theme: Theme,
    /// The title line.
    pub title: Seq<char>,
}

impl<S: Copy, V: TUIStatusListener<S>> UIModel<S, V> {
    /// The UI after one step. A halted UI stays as it is. A running one hands
    /// every pending snapshot to the panels, oldest first, which leaves the
    /// inbox empty, and then has the engine draw one frame.
    pub open spec fn stepped(self) -> Self {
        if self.engine.running {
            UIModel {
                engine: self.engine.stepped(),
                inbox: self.inbox.drained(),
                views: self.views.dispatched_all(snapshots(self.inbox.pending)),
                ..self
            }
        } else {
            self
        }
    }

    /// The UI after a request to stop.
    pub open spec fn stopped(self) -> Self {
        UIModel { engine: self.engine.halted(), ..self }
    }

    /// The UI after `message` was sent to it.
    pub open spec fn with_message(self, message: UIMessage<S>) -> Self {
        UIModel { inbox: self.inbox.sent(message), ..self }
    }

    /// The UI after `key` was pressed: the quit key sends a shutdown request
    /// to the controller, any other key does nothing.
    pub open spec fn keyed(self, key: char) -> Self {
        if key == QUIT_KEY {
            UIModel { controller_tx: self.controller_tx.sent(ControllerMessage::Shutdown), ..self }
        } else {
            self
        }
    }

    /// The UI once the receiving side of its inbox is gone: what is sent to
    /// it from then on is refused.
    pub open spec fn disconnected(self) -> Self {
        UIModel { inbox: self.inbox.shut(), ..self }
    }

    /// The UI with another stack of panels.
    pub open spec fn with_views(self, views: RegistryModel<V>) -> Self {
        UIModel { views, ..self }
    }

    /// The UI after `key` was pressed `presses` times.
    pub open spec fn keyed_times(self, key: char, presses: nat) -> Self
        decreases presses,
    {
        if presses == 0 {
            self
        } else {
            self.keyed_times(key, (presses - 1) as nat).keyed(key)
        }
    }

    /// The UI with the requests to the controller that nobody received put
    /// aside.
    pub open spec fn without_requests(self) -> Self {
        UIModel { controller_tx: self.controller_tx.drained(), ..self }
    }

    /// The UI after the controller looked for a request.
    pub open spec fn polled(self) -> Self {
        UIModel { controller_tx: self.controller_tx.received(), ..self }
    }
}

impl<S: Copy, V: TUIStatusListener<S>> UIModel<S, V> {
    /// Last write wins: a step of a running UI that found messages waiting
    /// leaves every mounted panel as the update with the last of their
    /// snapshots made it.
    pub proof fn lemma_step_last_write_wins(self, i: int)
        requires
            self.engine.running,
            self.inbox.pending.len() > 0,
            0 <= i < self.views.layers.len(),
            self.views.layers[i].mounted,
        ensures
            self.stepped().views.layers[i].view == self.views.dispatched_all(
                snapshots(self.inbox.pending.drop_last()),
            ).layers[i].view.updated(self.inbox.pending.last().snapshot()),
    {
        let all = snapshots(self.inbox.pending);
        assert(all.drop_last() =~= snapshots(self.inbox.pending.drop_last()));
        self.views.lemma_last_write_wins(i, all);
    }

    /// A step leaves nothing in the inbox, whatever was in it, and a halted
    /// UI never steps.
    pub proof fn lemma_step_empties_inbox(self)
        ensures
            self.engine.running ==> self.stepped().inbox.pending.len() == 0,
            self.engine.running ==> self.stepped().engine.running,
            !self.engine.running ==> self.stepped() == self,
    {
    }

    /// Stopping is idempotent, and after it no step does anything.
    pub proof fn lemma_stop_is_final(self)
        ensures
            self.stopped().stopped() == self.stopped(),
            self.stopped().stepped() == self.stopped(),
            !self.stopped().engine.running,
    {
    }

    /// Pressing the quit key queues one shutdown request per press for as
    /// long as the queue is open, and changes nothing else.
    pub proof fn lemma_quit_presses(self, presses: nat)
        ensures
            self.keyed_times(QUIT_KEY, presses) == (UIModel {
                controller_tx: self.controller_tx.sent_times(ControllerMessage::Shutdown, presses),
                ..self
            }),
            !self.controller_tx.closed ==> self.keyed_times(
                QUIT_KEY,
                presses,
            ).controller_tx.pending.len() == self.controller_tx.pending.len() + presses,
        decreases presses,
    {
        if presses > 0 {
            self.lemma_quit_presses((presses - 1) as nat);
            self.controller_tx.lemma_sent_times(ControllerMessage::Shutdown, (presses - 1) as nat);
            self.controller_tx.lemma_sent_times(ControllerMessage::Shutdown, presses);
        }
    }
}

/// Main UI.
///
/// It holds the queue towards the controller that it was given: both ends of
/// an in-process queue are one value, so the UI, which fills it, keeps it, and
/// the controller, which owns the UI, is its one reader.
pub struct UI<S, V> {
    engine: RenderEngine,
    inbox: Mailbox<UIMessage<S>>,
    controller_tx: Mailbox<ControllerMessage>,
    views: ViewRegistry<V>,
    theme: Theme,
    title: String,
}

impl<S, V> View for UI<S, V> {
    type V = UIModel<S, V>;

    closed spec fn view(&self) -> UIModel<S, V> {
        UIModel {
            engine: self.engine@,
            inbox: self.inbox@,
            controller_tx: self.controller_tx@,
            views: self.views@,
            theme: self.theme,
            title: self.title@,
        }
    }
}

impl<S: Copy, V: TUIStatusListener<S>> UI<S, V> {
    /// Creates a new UI: a running engine at the dashboard's frame rate, an
    /// empty inbox, the given panels, the engine's theme restyled for the
    /// dashboard, and the title line for `pkg_version`.
    pub fn new(
        controller_tx: Mailbox<ControllerMessage>,
        views: ViewRegistry<V>,
        pkg_version: &str,
        theme: Theme,
    ) -> (ui: Self)
        ensures
            ui@ == (UIModel::<S, V> {
                engine: EngineModel::fresh().at_fps(DASHBOARD_FPS),
                inbox: MailboxModel::empty(),
                controller_tx: controller_tx@,
                views: views@,
                theme: dashboard_theme(theme),
                title: title_text(pkg_version@),
            }),
    {
        let mut theme = theme;
        modify_theme(&mut theme);
        let mut engine = RenderEngine::new();
        engine.set_fps(DASHBOARD_FPS);
        UI {
            engine,
            inbox: Mailbox::new(),
            controller_tx,
            views,
            theme,
            title: title_line(pkg_version),
        }
    }

    /// Steps the UI: where the engine is halted, nothing happens and the
    /// answer is `false`. Otherwise every pending message is handled, oldest
    /// first, the engine draws one frame, and the answer is `true`.
    pub fn step(&mut self) -> (alive: bool)
        ensures
            alive == old(self)@.engine.running,
            final(self)@ == old(self)@.stepped(),
    {
        if !self.engine.is_running() {
            return false;
        }
        let ghost messages = self.inbox@.pending;
        let ghost mut handled: int = 0;
        assert(snapshots(messages.take(0)) =~= Seq::<S>::empty());
        loop
            invariant
                0 <= handled <= messages.len(),
                messages == old(self)@.inbox.pending,
                self.inbox@.pending == messages.skip(handled),
                self.inbox@.closed == old(self)@.inbox.closed,
                self.views@ == old(self)@.views.dispatched_all(snapshots(messages.take(handled))),
                self.engine == old(self).engine,
                self.controller_tx == old(self).controller_tx,
                self.theme == old(self).theme,
                self.title == old(self).title,
            ensures
                handled == messages.len(),
            decreases messages.len() - handled,
        {
            match self.inbox.try_recv() {
                Ok(message) => {
                    match message {
                        UIMessage::UpdateStatus(update) => {
                            self.views.update_all(&update);
                        },
                    }
                    proof {
                        let before = snapshots(messages.take(handled));
                        let after = snapshots(messages.take(handled + 1));
                        assert(after.drop_last() =~= before);
                        assert(after.last() == messages[handled].snapshot());
                        assert(messages.skip(handled).drop_first() =~= messages.skip(handled + 1));
                        handled = handled + 1;
                    }
                },
                Err(_) => {
                    break ;
                },
            }
        }
        self.engine.step();
        proof {
            assert(messages.take(handled) =~= messages);
            assert(self.inbox@.pending =~= Seq::<UIMessage<S>>::empty());
            assert(self.inbox@ == old(self)@.inbox.drained());
        }
        true
    }

    /// Stops the UI: the engine is told to halt, and every later step answers
    /// `false`. Stopping twice is stopping once.
    pub fn stop(&mut self)
        ensures
            final(self)@ == old(self)@.stopped(),
    {
        self.engine.quit();
    }

    /// Sends `message` to the UI. Where the inbox was closed, the message
    /// comes back.
    pub fn send(&mut self, message: UIMessage<S>) -> (r: Result<(), SendError<UIMessage<S>>>)
        ensures
            final(self)@ == old(self)@.with_message(message),
            r == if old(self)@.inbox.closed {
                Err::<(), SendError<UIMessage<S>>>(SendError(message))
            } else {
                Ok::<(), SendError<UIMessage<S>>>(())
            },
    {
        self.inbox.send(message)
    }

    /// A key was pressed. The quit key sends `Shutdown` to the controller;
    /// pressed again it sends it again, which changes nothing in the end.
    pub fn key(&mut self, key: char)
        ensures
            final(self)@ == old(self)@.keyed(key),
    {
        if key == QUIT_KEY {
            let _ = self.controller_tx.send(ControllerMessage::Shutdown);
        }
    }

    /// Drops the receiving side of the inbox. What is pending is still
    /// handled by the next step; what is sent from now on is refused.
    pub fn disconnect(&mut self)
        ensures
            final(self)@ == old(self)@.disconnected(),
    {
        self.inbox.close();
    }

    /// Makes the panel called `name` the visible one, and tells whether there
    /// is one.
    pub fn select(&mut self, name: &str) -> (found: bool)
        ensures
            found == old(self)@.views.has(name@),
            found ==> exists|i: int|
                old(self)@.views.named(i, name@) && final(self)@ == old(self)@.with_views(
                    old(self)@.views.with_visible(i),
                ),
            !found ==> final(self)@ == old(self)@,
    {
        self.views.select(name)
    }

    /// Mounts or unmounts the panel called `name`, and tells whether there is
    /// one. An unmounted panel takes no update.
    pub fn set_mounted(&mut self, name: &str, mounted: bool) -> (found: bool)
        ensures
            found == old(self)@.views.has(name@),
            found ==> exists|i: int|
                old(self)@.views.named(i, name@) && final(self)@ == old(self)@.with_views(
                    old(self)@.views.with_mounted(i, mounted),
                ),
            !found ==> final(self)@ == old(self)@,
    {
        self.views.set_mounted(name, mounted)
    }

    /// The controller's end of the queue: takes the oldest request without
    /// waiting for one.
    pub fn try_recv(&mut self) -> (r: Result<ControllerMessage, TryRecvError>)
        ensures
            r == old(self)@.controller_tx.front(),
            final(self)@ == old(self)@.polled(),
    {
        self.controller_tx.try_recv()
    }

    /// Whether the engine is running.
    pub fn is_running(&self) -> (b: bool)
        ensures
            b == self@.engine.running,
    {
        self.engine.is_running()
    }

    /// Frames drawn so far.
    pub fn frames(&self) -> (n: u64)
        ensures
            n == self@.engine.frames,
    {
        self.engine.frames()
    }

    /// Frames per second.
    pub fn fps(&self) -> (n: u32)
        ensures
            n == self@.engine.fps,
    {
        self.engine.fps()
    }

    /// The number of requests that wait for the controller.
    pub fn requests(&self) -> (n: usize)
        ensures
            n == self@.controller_tx.pending.len(),
    {
        self.controller_tx.len()
    }

    /// The number of messages that wait for the next step.
    pub fn pending(&self) -> (n: usize)
        ensures
            n == self@.inbox.pending.len(),
    {
        self.inbox.len()
    }

    /// The stack of status panels.
    pub fn views(&self) -> (views: &ViewRegistry<V>)
        ensures
            views@ == self@.views,
    {
        &self.views
    }

    /// The look of the dashboard.
    pub fn theme(&self) -> (theme: Theme)
        ensures
            theme == self@.theme,
    {
        self.theme
    }

    /// The title line.
    pub fn title(&self) -> (title: &String)
        ensures
            title@ == self@.title,
    {
        &self.title
    }
}

} // verus!
