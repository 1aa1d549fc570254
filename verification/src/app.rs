use crate::genshin::{Window, WindowProps};
use crate::global_states::EventType;
use vstd::prelude::*;

verus! {

/// Virtual-key code of the key that arms the automation (F9).
pub const KEY_RUN: u32 = 120;

/// Virtual-key code of the key that disarms the automation (F10).
pub const KEY_PAUSE: u32 = 121;

/// Virtual-key code of the key that ends the program (F11).
pub const KEY_EXIT: u32 = 122;

/// Whether the automation may synthesize input.
#[derive(Clone, Copy, Debug, PartialEq, Eq, Structural)]
pub enum ArmedState {
    Disarmed,
    Armed,
}

/// What an event asks of the orchestrator.
#[derive(Clone, Copy, Debug, PartialEq, Eq, Structural)]
pub enum Trigger {
    Arm,
    Disarm,
    Exit,
    Refresh,
    Nothing,
}

/// The trigger that `event` stands for.
pub open spec fn trigger_of(event: EventType) -> Trigger {
    match event {
        EventType::KeyPress(key) => if key == KEY_RUN {
            Trigger::Arm
        } else if key == KEY_PAUSE {
            Trigger::Disarm
        } else if key == KEY_EXIT {
            Trigger::Exit
        } else {
            Trigger::Nothing
        },
        EventType::ChangeForegroundWindow => Trigger::Refresh,
        EventType::DestroyWindow => Trigger::Refresh,
        EventType::Shutdown => Trigger::Exit,
    }
}

/// Reads an event as a trigger.
pub fn classify(event: EventType) -> (t: Trigger)
    ensures
        t == trigger_of(event),
{
    match event {
        EventType::KeyPress(key) => if key == KEY_RUN {
            Trigger::Arm
        } else if key == KEY_PAUSE {
            Trigger::Disarm
        } else if key == KEY_EXIT {
            Trigger::Exit
        } else {
            Trigger::Nothing
        },
        EventType::ChangeForegroundWindow => Trigger::Refresh,
        EventType::DestroyWindow => Trigger::Refresh,
        EventType::Shutdown => Trigger::Exit,
    }
}

impl ArmedState {
    /// The state after `trigger`: arming arms, disarming disarms, and nothing
    /// else touches it.
    pub open spec fn after(self, trigger: Trigger) -> ArmedState {
        match trigger {
            Trigger::Arm => ArmedState::Armed,
            Trigger::Disarm => ArmedState::Disarmed,
            _ => self,
        }
    }

    /// Applies a trigger.
    pub fn on(self, trigger: Trigger) -> (next: ArmedState)
        ensures
            next == self.after(trigger),
    {
        match trigger {
            Trigger::Arm => ArmedState::Armed,
            Trigger::Disarm => ArmedState::Disarmed,
            _ => self,
        }
    }
}

/// What the worker sees of the orchestrator: the target window, the
/// geometry computed for it, and whether the worker should act. The three
/// are written together and read together.
#[derive(Clone, Copy, Debug, PartialEq, Eq, Structural)]
pub struct SharedState {
    pub window: Option<Window>,
    pub props: Option<WindowProps>,
    pub send_message: bool,
}

impl SharedState {
    /// No target, no geometry, nothing to do.
    pub open spec fn unresolved() -> SharedState {
        SharedState { window: None, props: None, send_message: false }
    }

    /// The target `window` with the geometry for its size, the worker held
    /// back until the focus has been looked at.
    pub open spec fn resolved(window: Window, width: i32, height: i32) -> SharedState {
        SharedState {
            window: Some(window),
            props: Some(WindowProps::for_size(width, height)),
            send_message: false,
        }
    }
}

/// Whether the worker should act: the automation is armed, a target is
/// resolved, its geometry is there, and the target is the foreground window.
pub open spec fn should_act_of(
    armed: ArmedState,
    window: Option<Window>,
    props: Option<WindowProps>,
    foreground: Option<usize>,
) -> bool {
    &&& armed == ArmedState::Armed
    &&& window is Some
    &&& props is Some
    &&& foreground == Some(window->0.handle())
}

/// Computes whether the worker should act. `foreground` is the foreground
/// window that the system reports.
pub fn should_act(
    armed: ArmedState,
    window: Option<Window>,
    props: Option<WindowProps>,
    foreground: Option<usize>,
) -> (act: bool)
    ensures
        act == should_act_of(armed, window, props, foreground),
{
    match armed {
        ArmedState::Disarmed => false,
        ArmedState::Armed => match window {
            Some(w) => props.is_some() && w.is_active(foreground),
            None => false,
        },
    }
}

/// What a poll of a background thread's report channel found.
#[derive(Clone, Copy, Debug, PartialEq, Eq, Structural)]
pub enum ThreadReport {
    /// Nothing was waiting.
    Nothing,
    /// The thread reported success.
    Alive,
    /// The thread reported an error.
    Failed,
    /// The thread is gone: nobody holds the sending end any more.
    Disconnected,
}

/// The conditions that end the program with an error.
#[derive(Clone, Copy, Debug, PartialEq, Eq, Structural)]
pub enum Fault {
    /// The channel on which the hooks send their events could not be set.
    EventChannel,
    /// The shutdown handler could not be registered.
    ShutdownHandler,
    /// The event listener thread could not be started.
    ListenerStart,
    /// The event listener could not install its hooks.
    ListenerSetup,
    /// The event listener reported an error while running.
    ListenerFailed,
    /// The event listener is gone without a report.
    ListenerDisconnected,
    /// The worker thread could not be started.
    WorkerStart,
    /// The worker reported an error.
    WorkerFailed,
    /// The worker is gone without a report.
    WorkerDisconnected,
    /// The first lookup found no target window.
    WindowNotFound,
    /// The rectangle of a window that was found could not be read.
    WindowSize,
    /// The shared state could not be written: its lock is poisoned.
    SharedState,
}

impl Fault {
    /// The message that heads the error report.
    pub fn describe(&self) -> (text: &'static str)
        ensures
            text@ == match *self {
                Fault::EventChannel => "Error setting global event listener"@,
                Fault::ShutdownHandler => "Error setting the shutdown handler"@,
                Fault::ListenerStart => "Error starting the event listener"@,
                Fault::ListenerSetup => "Error inside the event listener"@,
                Fault::ListenerFailed => "Error inside the event listener"@,
                Fault::ListenerDisconnected => "Thread listener disconnected"@,
                Fault::WorkerStart => "Error starting the message sender"@,
                Fault::WorkerFailed => "Error inside the message sender"@,
                Fault::WorkerDisconnected => "Thread send message disconnected"@,
                Fault::WindowNotFound => "Target window not found"@,
                Fault::WindowSize => "Error reading the size of the target window"@,
                Fault::SharedState => "Error when locking mutex"@,
            },
    {
        match self {
            Fault::EventChannel => "Error setting global event listener",
            Fault::ShutdownHandler => "Error setting the shutdown handler",
            Fault::ListenerStart => "Error starting the event listener",
            Fault::ListenerSetup => "Error inside the event listener",
            Fault::ListenerFailed => "Error inside the event listener",
            Fault::ListenerDisconnected => "Thread listener disconnected",
            Fault::WorkerStart => "Error starting the message sender",
            Fault::WorkerFailed => "Error inside the message sender",
            Fault::WorkerDisconnected => "Thread send message disconnected",
            Fault::WindowNotFound => "Target window not found",
            Fault::WindowSize => "Error reading the size of the target window",
            Fault::SharedState => "Error when locking mutex",
        }
    }
}

/// How the orchestrator ended.
#[derive(Clone, Copy, Debug, PartialEq, Eq, Structural)]
pub enum Outcome {
    /// The exit key, a shutdown request, or the end of the event stream.
    Clean,
    /// A fatal condition.
    Fatal(Fault),
}

impl Outcome {
    /// The exit code of the process: zero for a clean end, one otherwise.
    pub fn exit_code(&self) -> (code: i32)
        ensures
            code == match *self {
                Outcome::Clean => 0i32,
                Outcome::Fatal(_) => 1i32,
            },
    {
        match self {
            Outcome::Clean => 0,
            Outcome::Fatal(_) => 1,
        }
    }
}

/// What the orchestrator asks its driver to do next. The driver does it and
/// answers with the matching [`Reply`].
#[derive(Clone, Copy, Debug, PartialEq, Eq, Structural)]
pub enum Request {
    /// Set the channel on which the hooks send their events. Answer: `Done`.
    SetEventChannel,
    /// Register the shutdown handler. Answer: `Done`.
    SetShutdownHandler,
    /// Start the event listener thread. Answer: `Done`.
    StartListener,
    /// Wait for the event listener's first report. Answer: `Report`.
    AwaitListener,
    /// Start the worker thread. Answer: `Done`.
    StartWorker,
    /// Look the target window up by title and class. Answer: `Found`.
    FindWindow,
    /// Read the size of this window. Answer: `Size`.
    WindowSize(Window),
    /// Replace the shared state by this value, in one critical section.
    /// Answer: `Published`.
    Publish(SharedState),
    /// Wait for the next event. Answer: `Event`.
    NextEvent,
    /// Look, without waiting, for a report of the event listener. Answer:
    /// `Report`.
    ListenerReport,
    /// Look, without waiting, for a report of the worker. Answer: `Report`.
    WorkerReport,
    /// Ask the system for the foreground window. Answer: `Foreground`.
    Foreground,
    /// Leave. Nothing is asked after this.
    Exit(Outcome),
}

/// What the driver answers.
#[derive(Clone, Copy, Debug, PartialEq, Eq)]
pub enum Reply {
    /// Whether the step succeeded.
    Done(bool),
    /// What the report channel held.
    Report(ThreadReport),
    /// The handle that the lookup returned: null if it found nothing.
    Found(usize),
    /// Width and height of the window, or `None` if they could not be read.
    Size(Option<(i32, i32)>),
    /// Whether the shared state was replaced. It is not if its lock is
    /// poisoned.
    Published(bool),
    /// The event, or `None` if no event can come any more.
    Event(Option<EventType>),
    /// The foreground window, or `None` if there is none.
    Foreground(Option<usize>),
}

/// The orchestrator: the armed state, the target as it was last resolved,
/// and the request that is pending.
///
/// Every value is a legal state. An answer that does not match the pending
/// request changes nothing, so that the request stands.
#[derive(Clone, Copy, Debug, PartialEq, Eq, Structural)]
pub struct App {
    pub armed: ArmedState,
    pub shared: SharedState,
    /// Set until the first target has been published: until then a lookup
    /// that finds nothing is fatal.
    pub booting: bool,
    pub request: Request,
}

impl App {
    /// The state before anything was done.
    pub open spec fn initial() -> App {
        App {
            armed: ArmedState::Disarmed,
            shared: SharedState::unresolved(),
            booting: true,
            request: Request::SetEventChannel,
        }
    }

    /// This state, ended with `outcome`.
    pub open spec fn ended(self, outcome: Outcome) -> App {
        App { request: Request::Exit(outcome), ..self }
    }

    /// This state, with `request` pending.
    pub open spec fn asking(self, request: Request) -> App {
        App { request, ..self }
    }

    /// The state after a background thread's report was looked at: a report
    /// of failure and a lost thread are fatal, anything else lets the
    /// orchestrator go on with `request`.
    pub open spec fn after_report(
        self,
        report: ThreadReport,
        failed: Fault,
        disconnected: Fault,
        request: Request,
    ) -> App {
        match report {
            ThreadReport::Nothing => self.asking(request),
            ThreadReport::Alive => self.asking(request),
            ThreadReport::Failed => self.ended(Outcome::Fatal(failed)),
            ThreadReport::Disconnected => self.ended(Outcome::Fatal(disconnected)),
        }
    }

    /// The state after the reports were found in order: the focus matters
    /// only if everything else already allows the worker to act; otherwise
    /// the flag is published as false at once.
    pub open spec fn after_reports(self) -> App {
        if self.armed == ArmedState::Armed && self.shared.window is Some
            && self.shared.props is Some {
            self.asking(Request::Foreground)
        } else {
            self.publishing(SharedState { send_message: false, ..self.shared })
        }
    }

    /// This state with `shared` as the shared state, and its publication
    /// pending.
    pub open spec fn publishing(self, shared: SharedState) -> App {
        App { shared, booting: false, request: Request::Publish(shared), ..self }
    }

    /// The state after a refresh gave `shared`: while booting it is published
    /// at once, later the reports are looked at first.
    pub open spec fn refreshed(self, shared: SharedState) -> App {
        if self.booting {
            self.publishing(shared)
        } else {
            App { shared, request: Request::ListenerReport, ..self }
        }
    }

    /// The state that follows this one on the answer `reply`.
    pub open spec fn next(self, reply: Reply) -> App {
        match (self.request, reply) {
            (Request::SetEventChannel, Reply::Done(ok)) => if ok {
                self.asking(Request::SetShutdownHandler)
            } else {
                self.ended(Outcome::Fatal(Fault::EventChannel))
            },
            (Request::SetShutdownHandler, Reply::Done(ok)) => if ok {
                self.asking(Request::StartListener)
            } else {
                self.ended(Outcome::Fatal(Fault::ShutdownHandler))
            },
            (Request::StartListener, Reply::Done(ok)) => if ok {
                self.asking(Request::AwaitListener)
            } else {
                self.ended(Outcome::Fatal(Fault::ListenerStart))
            },
            (Request::AwaitListener, Reply::Report(report)) => match report {
                ThreadReport::Nothing => self,
                _ => self.after_report(
                    report,
                    Fault::ListenerSetup,
                    Fault::ListenerDisconnected,
                    Request::StartWorker,
                ),
            },
            (Request::StartWorker, Reply::Done(ok)) => if ok {
                self.asking(Request::FindWindow)
            } else {
                self.ended(Outcome::Fatal(Fault::WorkerStart))
            },
            (Request::FindWindow, Reply::Found(hwnd)) => if hwnd != 0 {
                self.asking(Request::WindowSize(Window::with_handle(hwnd)))
            } else if self.booting {
                self.ended(Outcome::Fatal(Fault::WindowNotFound))
            } else {
                self.refreshed(SharedState::unresolved())
            },
            (Request::WindowSize(window), Reply::Size(size)) => match size {
                Some((width, height)) => self.refreshed(
                    SharedState::resolved(window, width, height),
                ),
                None => self.ended(Outcome::Fatal(Fault::WindowSize)),
            },
            (Request::Publish(_), Reply::Published(ok)) => if ok {
                self.asking(Request::NextEvent)
            } else {
                self.ended(Outcome::Fatal(Fault::SharedState))
            },
            (Request::NextEvent, Reply::Event(event)) => match event {
                None => self.ended(Outcome::Clean),
                Some(e) => match trigger_of(e) {
                    Trigger::Exit => self.ended(Outcome::Clean),
                    Trigger::Refresh => self.asking(Request::FindWindow),
                    t => App {
                        armed: self.armed.after(t),
                        request: Request::ListenerReport,
                        ..self
                    },
                },
            },
            (Request::ListenerReport, Reply::Report(report)) => self.after_report(
                report,
                Fault::ListenerFailed,
                Fault::ListenerDisconnected,
                Request::WorkerReport,
            ),
            (Request::WorkerReport, Reply::Report(report)) => match report {
                ThreadReport::Failed => self.ended(Outcome::Fatal(Fault::WorkerFailed)),
                ThreadReport::Disconnected => self.ended(
                    Outcome::Fatal(Fault::WorkerDisconnected),
                ),
                _ => self.after_reports(),
            },
            (Request::Foreground, Reply::Foreground(foreground)) => self.publishing(
                SharedState {
                    send_message: should_act_of(
                        self.armed,
                        self.shared.window,
                        self.shared.props,
                        foreground,
                    ),
                    ..self.shared
                },
            ),
            _ => self,
        }
    }

    /// The orchestrator before anything was done: disarmed, no target, and
    /// the setting of the event channel pending.
    pub fn new() -> (app: App)
        ensures
            app == App::initial(),
    {
        App {
            armed: ArmedState::Disarmed,
            shared: SharedState { window: None, props: None, send_message: false },
            booting: true,
            request: Request::SetEventChannel,
        }
    }

    /// Takes the driver's answer to the pending request and decides what is
    /// asked next.
    pub fn step(&mut self, reply: Reply)
        ensures
            *final(self) == old(self).next(reply),
    {
        match (self.request, reply) {
            (Request::SetEventChannel, Reply::Done(ok)) => {
                self.proceed(ok, Request::SetShutdownHandler, Fault::EventChannel);
            },
            (Request::SetShutdownHandler, Reply::Done(ok)) => {
                self.proceed(ok, Request::StartListener, Fault::ShutdownHandler);
            },
            (Request::StartListener, Reply::Done(ok)) => {
                self.proceed(ok, Request::AwaitListener, Fault::ListenerStart);
            },
            (Request::AwaitListener, Reply::Report(report)) => {
                match report {
                    ThreadReport::Nothing => {},
                    _ => {
                        self.take_report(
                            report,
                            Fault::ListenerSetup,
                            Fault::ListenerDisconnected,
                            Request::StartWorker,
                        );
                    },
                }
            },
            (Request::StartWorker, Reply::Done(ok)) => {
                self.proceed(ok, Request::FindWindow, Fault::WorkerStart);
            },
            (Request::FindWindow, Reply::Found(hwnd)) => {
                match Window::new(hwnd) {
                    Some(window) => {
                        self.request = Request::WindowSize(window);
                    },
                    None => {
                        if self.booting {
                            self.request = Request::Exit(Outcome::Fatal(Fault::WindowNotFound));
                        } else {
                            self.refresh(
                                SharedState { window: None, props: None, send_message: false },
                            );
                        }
                    },
                }
            },
            (Request::WindowSize(window), Reply::Size(size)) => {
                match size {
                    Some((width, height)) => {
                        self.refresh(
                            SharedState {
                                window: Some(window),
                                props: Some(WindowProps::new(width, height)),
                                send_message: false,
                            },
                        );
                    },
                    None => {
                        self.request = Request::Exit(Outcome::Fatal(Fault::WindowSize));
                    },
                }
            },
            (Request::Publish(_), Reply::Published(ok)) => {
                self.proceed(ok, Request::NextEvent, Fault::SharedState);
            },
            (Request::NextEvent, Reply::Event(event)) => {
                match event {
                    None => {
                        self.request = Request::Exit(Outcome::Clean);
                    },
                    Some(e) => {
                        let t = classify(e);
                        match t {
                            Trigger::Exit => {
                                self.request = Request::Exit(Outcome::Clean);
                            },
                            Trigger::Refresh => {
                                self.request = Request::FindWindow;
                            },
                            _ => {
                                self.armed = self.armed.on(t);
                                self.request = Request::ListenerReport;
                            },
                        }
                    },
                }
            },
            (Request::ListenerReport, Reply::Report(report)) => {
                self.take_report(
                    report,
                    Fault::ListenerFailed,
                    Fault::ListenerDisconnected,
                    Request::WorkerReport,
                );
            },
            (Request::WorkerReport, Reply::Report(report)) => {
                match report {
                    ThreadReport::Failed => {
                        self.request = Request::Exit(Outcome::Fatal(Fault::WorkerFailed));
                    },
                    ThreadReport::Disconnected => {
                        self.request = Request::Exit(Outcome::Fatal(Fault::WorkerDisconnected));
                    },
                    _ => {
                        if self.may_act() {
                            self.request = Request::Foreground;
                        } else {
                            self.publish(false);
                        }
                    },
                }
            },
            (Request::Foreground, Reply::Foreground(foreground)) => {
                let act = should_act(
                    self.armed,
                    self.shared.window,
                    self.shared.props,
                    foreground,
                );
                self.publish(act);
            },
            _ => {},
        }
    }

    /// Whether everything but the focus allows the worker to act.
    fn may_act(&self) -> (may: bool)
        ensures
            may == (self.armed == ArmedState::Armed && self.shared.window is Some
                && self.shared.props is Some),
    {
        match self.armed {
            ArmedState::Armed => self.shared.window.is_some() && self.shared.props.is_some(),
            ArmedState::Disarmed => false,
        }
    }

    /// Goes on with `request` if the step succeeded, ends with `fault` if not.
    fn proceed(&mut self, ok: bool, request: Request, fault: Fault)
        ensures
            *final(self) == if ok {
                old(self).asking(request)
            } else {
                old(self).ended(Outcome::Fatal(fault))
            },
    {
        if ok {
            self.request = request;
        } else {
            self.request = Request::Exit(Outcome::Fatal(fault));
        }
    }

    /// Looks at the report of a background thread.
    fn take_report(
        &mut self,
        report: ThreadReport,
        failed: Fault,
        disconnected: Fault,
        request: Request,
    )
        ensures
            *final(self) == old(self).after_report(report, failed, disconnected, request),
    {
        match report {
            ThreadReport::Nothing => {
                self.request = request;
            },
            ThreadReport::Alive => {
                self.request = request;
            },
            ThreadReport::Failed => {
                self.request = Request::Exit(Outcome::Fatal(failed));
            },
            ThreadReport::Disconnected => {
                self.request = Request::Exit(Outcome::Fatal(disconnected));
            },
        }
    }

    /// Takes the outcome of a refresh as the new target.
    fn refresh(&mut self, shared: SharedState)
        ensures
            *final(self) == old(self).refreshed(shared),
    {
        self.shared = shared;
        if self.booting {
            self.booting = false;
            self.request = Request::Publish(shared);
        } else {
            self.request = Request::ListenerReport;
        }
    }

    /// Sets the flag and asks for the shared state to be published.
    fn publish(&mut self, send_message: bool)
        ensures
            *final(self) == old(self).publishing(
                SharedState { send_message, ..old(self).shared },
            ),
    {
        self.shared.send_message = send_message;
        self.booting = false;
        self.request = Request::Publish(self.shared);
    }
}

/// Arming and disarming follow the table: arming arms, disarming disarms,
/// whatever the state was, so that a signal given twice does what it did
/// the first time and no more.
pub proof fn lemma_arming_is_idempotent(state: ArmedState, trigger: Trigger)
    requires
        trigger == Trigger::Arm || trigger == Trigger::Disarm,
    ensures
        state.after(Trigger::Arm) == ArmedState::Armed,
        state.after(Trigger::Disarm) == ArmedState::Disarmed,
        state.after(trigger).after(trigger) == state.after(trigger),
{
}

/// The orchestrator keeps the table too: on a key event it takes the armed
/// state that the table gives and goes on to look at the reports, and the
/// same key once more leaves the armed state as it is.
pub proof fn lemma_keys_follow_the_table(app: App, key: u32)
    requires
        app.request == Request::NextEvent,
        key == KEY_RUN || key == KEY_PAUSE,
    ensures
        app.on_key(key).request == Request::ListenerReport,
        key == KEY_RUN ==> app.on_key(key).armed == ArmedState::Armed,
        key == KEY_PAUSE ==> app.on_key(key).armed == ArmedState::Disarmed,
        app.on_key(key).asking(Request::NextEvent).on_key(key).armed == app.on_key(key).armed,
{
}

/// The worker is never told to act while the automation is disarmed, while
/// no target is resolved, while the geometry is missing, or while another
/// window has the focus.
pub proof fn lemma_should_act_needs_all(
    armed: ArmedState,
    window: Option<Window>,
    props: Option<WindowProps>,
    foreground: Option<usize>,
)
    ensures
        armed == ArmedState::Disarmed ==> !should_act_of(armed, window, props, foreground),
        window is None ==> !should_act_of(armed, window, props, foreground),
        props is None ==> !should_act_of(armed, window, props, foreground),
        foreground is None ==> !should_act_of(armed, window, props, foreground),
        window is Some && foreground != Some(window->0.handle()) ==> !should_act_of(
            armed,
            window,
            props,
            foreground,
        ),
{
}

/// What the orchestrator publishes is what it computed: a published flag is
/// set only if the orchestrator was armed, held a target with its geometry,
/// and had just been told that this target is the foreground window.
pub proof fn lemma_published_flag_is_earned(app: App, reply: Reply)
    requires
        app.next(reply).request matches Request::Publish(shared) && shared.send_message,
        !(app.request is Publish),
        !(app.request is Exit),
    ensures
        app.armed == ArmedState::Armed,
        app.shared.window is Some,
        app.shared.props is Some,
        reply == Reply::Foreground(Some(app.shared.window->0.handle())),
{
}

impl App {
    /// What the orchestrator holds fits together: the flag is set only with
    /// a target, geometry comes only with a target, and a pending
    /// publication publishes the state that is held.
    pub open spec fn consistent(self) -> bool {
        &&& self.shared.send_message ==> self.shared.window is Some && self.shared.props is Some
        &&& self.shared.props is Some ==> self.shared.window is Some
        &&& self.request matches Request::Publish(shared) ==> shared == self.shared
    }

    /// The state after the event that the key `key` went down was taken.
    pub open spec fn on_key(self, key: u32) -> App {
        self.next(Reply::Event(Some(EventType::KeyPress(key))))
    }

    /// The state after one event that asks for a refresh was processed:
    /// the event taken, the lookup answered with `hwnd`, and, if a window
    /// was found, its size answered with `size`.
    pub open spec fn after_refresh_event(
        self,
        event: EventType,
        hwnd: usize,
        size: Option<(i32, i32)>,
    ) -> App {
        let looked_up = self.next(Reply::Event(Some(event))).next(Reply::Found(hwnd));
        if looked_up.request is WindowSize {
            looked_up.next(Reply::Size(size))
        } else {
            looked_up
        }
    }
}

/// The orchestrator starts consistent and every step keeps it so.
pub proof fn lemma_consistency_is_kept(app: App, reply: Reply)
    requires
        app.consistent(),
    ensures
        App::initial().consistent(),
        app.next(reply).consistent(),
{
}

/// Once a foreground change or a window destruction has been processed, the
/// target is what the lookup just found, with the geometry for the size
/// just read, or it is unresolved, geometry included. Nothing of the target
/// held before is left: two orchestrators that differ in it agree
/// afterwards.
pub proof fn lemma_refresh_leaves_no_stale_target(
    app: App,
    other: App,
    event: EventType,
    hwnd: usize,
    size: Option<(i32, i32)>,
)
    requires
        app.request == Request::NextEvent,
        other.request == Request::NextEvent,
        !app.booting,
        !other.booting,
        event == EventType::ChangeForegroundWindow || event == EventType::DestroyWindow,
    ensures
        hwnd == 0 ==> app.after_refresh_event(event, hwnd, size).shared
            == SharedState::unresolved(),
        hwnd != 0 && size is Some ==> app.after_refresh_event(event, hwnd, size).shared
            == SharedState::resolved(Window::with_handle(hwnd), (size->0).0, (size->0).1),
        hwnd != 0 && size is None ==> app.after_refresh_event(event, hwnd, size).request
            == Request::Exit(Outcome::Fatal(Fault::WindowSize)),
        !(hwnd != 0 && size is None) ==> app.after_refresh_event(event, hwnd, size).shared
            == other.after_refresh_event(event, hwnd, size).shared,
{
}

/// A shutdown request ends the loop in the step that takes it, whatever the
/// orchestrator held, and the end is clean. The exit key does the same.
pub proof fn lemma_shutdown_ends_the_loop(app: App)
    requires
        app.request == Request::NextEvent,
    ensures
        app.next(Reply::Event(Some(EventType::Shutdown))).request == Request::Exit(
            Outcome::Clean,
        ),
        app.next(Reply::Event(Some(EventType::KeyPress(KEY_EXIT)))).request == Request::Exit(
            Outcome::Clean,
        ),
{
}

/// A background thread that is gone without a report is fatal: the
/// orchestrator ends at the poll that finds it so, with the fault that names
/// the thread.
pub proof fn lemma_lost_thread_is_fatal(app: App)
    ensures
        app.request == Request::ListenerReport || app.request == Request::AwaitListener
            ==> app.next(Reply::Report(ThreadReport::Disconnected)).request == Request::Exit(
            Outcome::Fatal(Fault::ListenerDisconnected),
        ),
        app.request == Request::WorkerReport ==> app.next(
            Reply::Report(ThreadReport::Disconnected),
        ).request == Request::Exit(Outcome::Fatal(Fault::WorkerDisconnected)),
{
}

/// An end is final: whatever is answered, the orchestrator stays ended with
/// the same outcome.
pub proof fn lemma_exit_is_final(app: App, reply: Reply)
    requires
        app.request is Exit,
    ensures
        app.next(reply) == app,
{
}

} // verus!
