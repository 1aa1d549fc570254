use crate::app::SharedState;
use crate::genshin::{
    click_gesture, playing_marker, probe, probe_start, probe_step, space_gesture, DialogState,
    Gesture, ProbePoint, ProbeStep, Window, WindowProps, DEFAULT_DURATION_MILLIS,
};
use crate::winapi_bindings::bindings::{click_message_of, Rgb};
use vstd::prelude::*;

verus! {

/// The conditions that end the worker. Each is reported to the orchestrator.
#[derive(Clone, Copy, Debug, PartialEq, Eq, Structural)]
pub enum WorkerFault {
    /// A pixel of the target window could not be read.
    PixelRead,
    /// A synthetic input could not be delivered.
    Input,
    /// A click was due, and the rectangle to click in holds no point.
    EmptyDialogueArea,
    /// The shared state could not be read: its lock is poisoned.
    SharedState,
}

impl WorkerFault {
    /// The message that heads the error report.
    pub fn describe(&self) -> (text: &'static str)
        ensures
            text@ == match *self {
                WorkerFault::PixelRead => "Error reading a pixel of the target window"@,
                WorkerFault::Input => "Error sending input to the target window"@,
                WorkerFault::EmptyDialogueArea => "The dialogue area of the target window is empty"@,
                WorkerFault::SharedState => "Error when locking mutex"@,
            },
    {
        match self {
            WorkerFault::PixelRead => "Error reading a pixel of the target window",
            WorkerFault::Input => "Error sending input to the target window",
            WorkerFault::EmptyDialogueArea => "The dialogue area of the target window is empty",
            WorkerFault::SharedState => "Error when locking mutex",
        }
    }
}

/// What the worker asks its driver to do next.
#[derive(Clone, Copy, Debug, PartialEq, Eq, Structural)]
pub enum WorkerRequest {
    /// Copy the shared state out of its critical section. Answer: `Shared`.
    ReadShared,
    /// Pause for this many milliseconds. Answer: `Slept`.
    Sleep(u64),
    /// Read the colour of one pixel of the window `hwnd`. Answer: `Pixel`.
    ReadPixel { hwnd: usize, x: i32, y: i32 },
    /// Perform the gesture: pointer, press, hold, release. Answer:
    /// `Performed`.
    Perform(Gesture),
    /// Report the fault and stop. Nothing is asked after this.
    Exit(WorkerFault),
}

/// What the driver answers.
#[derive(Clone, Copy, Debug, PartialEq, Eq, Structural)]
pub enum WorkerReply {
    /// The shared state as it was read, or `None` if its lock is poisoned.
    Shared(Option<SharedState>),
    /// The pause is over.
    Slept,
    /// The colour of the pixel, or `None` if it could not be read.
    Pixel(Option<Rgb>),
    /// Whether every part of the gesture was delivered.
    Performed(bool),
}

/// Where the worker stands.
#[derive(Clone, Copy, Debug, PartialEq, Eq, Structural)]
pub enum Worker {
    /// About to read the shared state.
    Polling,
    /// Pausing before the next poll.
    Sleeping,
    /// Probing the window: the pixel at `point` is being read.
    Sampling { window: Window, props: WindowProps, point: ProbePoint },
    /// A gesture is being performed.
    Acting(Gesture),
    /// Ended by a fault.
    Failed(WorkerFault),
}

impl Worker {
    /// The request that is pending in this state.
    pub open spec fn request_of(self) -> WorkerRequest {
        match self {
            Worker::Polling => WorkerRequest::ReadShared,
            Worker::Sleeping => WorkerRequest::Sleep(50),
            Worker::Sampling { window, props, point } => WorkerRequest::ReadPixel {
                hwnd: window.handle(),
                x: props.point_of(point).x,
                y: props.point_of(point).y,
            },
            Worker::Acting(gesture) => WorkerRequest::Perform(gesture),
            Worker::Failed(fault) => WorkerRequest::Exit(fault),
        }
    }

    /// The target in which the answer `reply` makes this worker click at a
    /// random position, if it does: the probe ends on a dialog that waits for
    /// a choice, and the rectangle to click in holds a point.
    pub open spec fn clicks_in(self, reply: WorkerReply) -> Option<(Window, WindowProps)> {
        match (self, reply) {
            (Worker::Sampling { window, props, point }, WorkerReply::Pixel(Some(color))) => {
                if probe_step(point, color) == ProbeStep::Decided(DialogState::ChoicePlaying)
                    && props.has_dialogue_area() {
                    Some((window, props))
                } else {
                    None
                }
            },
            _ => None,
        }
    }

    /// The state that follows this one on the answer `reply`, wherever no
    /// position is drawn (where one is, `follows` says what may come). An
    /// answer that does not match the pending request changes nothing.
    pub open spec fn next(self, reply: WorkerReply) -> Worker {
        match (self, reply) {
            (Worker::Polling, WorkerReply::Shared(read)) => match read {
                None => Worker::Failed(WorkerFault::SharedState),
                Some(shared) => if !shared.send_message {
                    Worker::Sleeping
                } else {
                    match (shared.window, shared.props) {
                        (Some(window), Some(props)) => Worker::Sampling {
                            window,
                            props,
                            point: ProbePoint::PlayingIcon,
                        },
                        _ => Worker::Polling,
                    }
                },
            },
            (Worker::Sleeping, WorkerReply::Slept) => Worker::Polling,
            (Worker::Sampling { window, props, point }, WorkerReply::Pixel(pixel)) => match pixel {
                None => Worker::Failed(WorkerFault::PixelRead),
                Some(color) => match probe_step(point, color) {
                    ProbeStep::Sample(next) => Worker::Sampling { window, props, point: next },
                    ProbeStep::Decided(DialogState::NotPlaying) => Worker::Sleeping,
                    ProbeStep::Decided(DialogState::ChoicelessPlaying) => Worker::Acting(
                        space_gesture(window.handle()),
                    ),
                    ProbeStep::Decided(DialogState::ChoicePlaying) => Worker::Failed(
                        WorkerFault::EmptyDialogueArea,
                    ),
                },
            },
            (Worker::Acting(_), WorkerReply::Performed(done)) => if done {
                Worker::Polling
            } else {
                Worker::Failed(WorkerFault::Input)
            },
            _ => self,
        }
    }

    /// Whether `after` may follow this state on the answer `reply`. Where a
    /// click is due, every position of the rectangle may have been drawn;
    /// everywhere else there is one successor.
    pub open spec fn follows(self, reply: WorkerReply, after: Worker) -> bool {
        match self.clicks_in(reply) {
            Some((window, props)) => {
                &&& after matches Worker::Acting(gesture)
                &&& gesture.pointer matches Some(p)
                &&& props.in_dialogue_area(p.x as int, p.y as int)
                &&& gesture == click_gesture(window.handle(), p.x, p.y)
            },
            None => after == self.next(reply),
        }
    }

    /// The worker at its start: about to read the shared state.
    pub fn new() -> (worker: Worker)
        ensures
            worker == Worker::Polling,
    {
        Worker::Polling
    }

    /// The request that is pending.
    pub fn request(&self) -> (request: WorkerRequest)
        ensures
            request == self.request_of(),
    {
        match self {
            Worker::Polling => WorkerRequest::ReadShared,
            Worker::Sleeping => WorkerRequest::Sleep(DEFAULT_DURATION_MILLIS),
            Worker::Sampling { window, props, point } => {
                let p = props.point(*point);
                WorkerRequest::ReadPixel { hwnd: window.hwnd(), x: p.x, y: p.y }
            },
            Worker::Acting(gesture) => WorkerRequest::Perform(*gesture),
            Worker::Failed(fault) => WorkerRequest::Exit(*fault),
        }
    }

    /// Takes the driver's answer to the pending request and moves on. Where
    /// the probe ends on a dialog that waits for a choice, the position of
    /// the click is drawn here, so two calls on the same values may differ in
    /// it.
    pub fn step(&mut self, reply: WorkerReply)
        ensures
            old(self).follows(reply, *final(self)),
    {
        match (*self, reply) {
            (Worker::Polling, WorkerReply::Shared(read)) => {
                match read {
                    None => {
                        *self = Worker::Failed(WorkerFault::SharedState);
                    },
                    Some(shared) => {
                        if !shared.send_message {
                            *self = Worker::Sleeping;
                        } else {
                            match (shared.window, shared.props) {
                                (Some(window), Some(props)) => {
                                    *self = Worker::Sampling {
                                        window,
                                        props,
                                        point: probe_start(),
                                    };
                                },
                                _ => {},
                            }
                        }
                    },
                }
            },
            (Worker::Sleeping, WorkerReply::Slept) => {
                *self = Worker::Polling;
            },
            (Worker::Sampling { window, props, point }, WorkerReply::Pixel(pixel)) => {
                match pixel {
                    None => {
                        *self = Worker::Failed(WorkerFault::PixelRead);
                    },
                    Some(color) => {
                        *self = Self::after_pixel(window, props, probe(point, color));
                    },
                }
            },
            (Worker::Acting(_), WorkerReply::Performed(done)) => {
                if done {
                    *self = Worker::Polling;
                } else {
                    *self = Worker::Failed(WorkerFault::Input);
                }
            },
            _ => {},
        }
    }

    /// The state after the probe of `window` took `step`: the next pixel, a
    /// pause, or the gesture that the dialog calls for.
    fn after_pixel(window: Window, props: WindowProps, step: ProbeStep) -> (after: Worker)
        ensures
            match step {
                ProbeStep::Sample(next) => after == (Worker::Sampling {
                    window,
                    props,
                    point: next,
                }),
                ProbeStep::Decided(DialogState::NotPlaying) => after == Worker::Sleeping,
                ProbeStep::Decided(DialogState::ChoicelessPlaying) => after == Worker::Acting(
                    space_gesture(window.handle()),
                ),
                ProbeStep::Decided(DialogState::ChoicePlaying) => if props.has_dialogue_area() {
                    &&& after matches Worker::Acting(gesture)
                    &&& gesture.pointer matches Some(p)
                    &&& props.in_dialogue_area(p.x as int, p.y as int)
                    &&& gesture == click_gesture(window.handle(), p.x, p.y)
                } else {
                    after == Worker::Failed(WorkerFault::EmptyDialogueArea)
                },
            },
    {
        match step {
            ProbeStep::Sample(next) => Worker::Sampling { window, props, point: next },
            ProbeStep::Decided(DialogState::NotPlaying) => Worker::Sleeping,
            ProbeStep::Decided(DialogState::ChoicelessPlaying) => Worker::Acting(
                window.click_space(),
            ),
            ProbeStep::Decided(DialogState::ChoicePlaying) => {
                if props.bottom_dialogue_min_x <= props.bottom_dialogue_max_x
                    && props.bottom_dialogue_min_y <= props.bottom_dialogue_max_y {
                    Worker::Acting(window.click_left_m_button_random_pos(&props))
                } else {
                    Worker::Failed(WorkerFault::EmptyDialogueArea)
                }
            },
        }
    }
}

/// While the flag is down the worker reads no pixel and performs nothing:
/// it pauses and polls again, whatever the window shows.
pub proof fn lemma_held_back_worker_pauses(shared: SharedState, after: Worker)
    requires
        !shared.send_message,
        Worker::Polling.follows(WorkerReply::Shared(Some(shared)), after),
    ensures
        after == Worker::Sleeping,
        after.request_of() == WorkerRequest::Sleep(50),
{
}

/// A playing icon in the marker colour gets one stroke of the space bar,
/// held for the default duration, and once it is delivered the worker polls
/// again.
pub proof fn lemma_choiceless_dialog_gets_one_space(
    window: Window,
    props: WindowProps,
    after: Worker,
)
    requires
        (Worker::Sampling { window, props, point: ProbePoint::PlayingIcon }).follows(
            WorkerReply::Pixel(Some(playing_marker())),
            after,
        ),
    ensures
        after == Worker::Acting(space_gesture(window.handle())),
        after.request_of() == WorkerRequest::Perform(space_gesture(window.handle())),
        space_gesture(window.handle()).hold_millis >= 50,
        after.next(WorkerReply::Performed(true)) == Worker::Polling,
{
}

/// Where a click is due and the rectangle holds a point, the worker clicks
/// once at a position inside the rectangle, the pointer moved there first,
/// and once the click is delivered the worker polls again.
pub proof fn lemma_choice_dialog_gets_one_click_inside(
    worker: Worker,
    reply: WorkerReply,
    after: Worker,
)
    requires
        worker.clicks_in(reply) is Some,
        worker.follows(reply, after),
    ensures
        after matches Worker::Acting(gesture) && gesture.pointer matches Some(p) && (
        worker.clicks_in(reply)->0).1.in_dialogue_area(p.x as int, p.y as int) && gesture.press
            == click_message_of((worker.clicks_in(reply)->0).0.handle(), true, p.x, p.y)
            && gesture.release == click_message_of(
            (worker.clicks_in(reply)->0).0.handle(),
            false,
            p.x,
            p.y,
        ),
        after.follows(WorkerReply::Performed(true), Worker::Polling),
{
}

/// A fault is final: whatever is answered, the worker stays failed.
pub proof fn lemma_fault_is_final(fault: WorkerFault, reply: WorkerReply, after: Worker)
    requires
        Worker::Failed(fault).follows(reply, after),
    ensures
        after == Worker::Failed(fault),
{
}

} // verus!
