//! The per-frame presentation loop as a state machine.
//!
//! The host performs the driver calls.  It hands each outcome to
//! [`FramePresenter::step`] as an [`Event`] and receives the next [`Action`]:
//! wait for the slot's fence, acquire an image, submit, present, recreate the
//! swapchain when the surface went stale or the window was resized.

use vstd::prelude::*;
use crate::setup::frame_sync::{
    create, idle_slot, lemma_unsignaled_fences_bounded, lemma_unsignaled_fences_none,
    lemma_unsignaled_fences_update, unsignaled_fences, FrameSlot, FrameSyncData, Signal,
};
use crate::setup::swapchain::Extent2D;

verus! {

/// Number of frames that may have work outstanding on the device at once.
pub const MAX_FRAMES_IN_FLIGHT: usize = 2;

/// Result code with which acquisition and presentation report that the
/// surface no longer matches the swapchain.
pub const ERROR_OUT_OF_DATE_KHR: i32 = -1000001004;

/// The timeout of a wait that lasts until the device is done.
pub const NO_TIMEOUT: u64 = u64::MAX;

/// Why the presenter gave up.  Nothing is retried after any of these.
#[derive(Clone, Copy, Debug, PartialEq, Eq, Structural)]
pub enum FatalError {
    /// A driver call failed with a result code that is not handled.
    Vulkan { code: i32 },
    /// Acquisition returned an index for which no command buffer exists.
    ImageIndexOutOfRange { image_index: u32 },
    /// The host reported an outcome that the presenter was not waiting for.
    UnexpectedEvent,
}

/// What the presenter is waiting for.
#[derive(Clone, Copy, Debug, PartialEq, Eq, Structural)]
pub enum Phase {
    /// Between two ticks.
    Idle,
    /// The wait on the current slot's fence is outstanding.
    WaitingForFence,
    /// Image acquisition is outstanding.
    Acquiring,
    /// Fence reset and queue submission are outstanding.
    Submitting { image_index: u32 },
    /// Presentation is outstanding.
    Presenting { image_index: u32 },
    /// The swapchain is being recreated.
    Rebuilding,
    /// A fatal error was reported; the presenter does nothing further.
    Failed { error: FatalError },
}

/// What the host reports to the presenter.
#[derive(Clone, Copy, Debug, PartialEq, Eq, Structural)]
pub enum Event {
    /// The event loop asks for a frame.
    Tick,
    /// The window was resized to the given size.
    Resized { width: u32, height: u32 },
    /// The user asked to close the window.
    CloseRequested,
    /// Any other window or device event.
    OtherWindowEvent,
    /// The wait on the slot's fence returned.
    FenceSignaled,
    /// An image was acquired.
    ImageAcquired { image_index: u32, suboptimal: bool },
    /// Acquisition failed with the given result code.
    AcquireFailed { code: i32 },
    /// The fence was reset and the command buffer submitted.
    Submitted,
    /// The image was queued for presentation.
    Presented { suboptimal: bool },
    /// Presentation failed with the given result code.
    PresentFailed { code: i32 },
    /// The swapchain and what depends on it were recreated.
    SwapchainRecreated { image_count: u32 },
    /// Waiting, resetting, submitting or recreating failed.
    CallFailed { code: i32 },
}

/// What the host does next.
#[derive(Clone, Copy, Debug, PartialEq, Eq, Structural)]
pub enum Action {
    /// Keep polling for window events.
    Poll,
    /// Block until the next window event.
    Wait,
    /// Leave the event loop.
    Exit,
    /// Presentation is suspended; nothing is drawn on this tick.
    Suspended,
    /// Wait on the in-flight fence of `slot` for at most `timeout`
    /// nanoseconds.
    WaitForFence { slot: usize, timeout: u64 },
    /// Acquire the next image within `timeout` nanoseconds, signalling the
    /// image-available semaphore of `slot`.
    AcquireImage { slot: usize, timeout: u64 },
    /// Reset the fence of `slot` and submit the command buffer recorded for
    /// `image_index`: it waits on the slot's image-available semaphore and
    /// signals its render-finished semaphore and its fence.
    Submit { slot: usize, image_index: u32 },
    /// Present `image_index`, waiting on the render-finished semaphore of
    /// `slot`.
    Present { slot: usize, image_index: u32 },
    /// Wait for the device to idle, then tear down and recreate the swapchain
    /// and what depends on it for a window of the given size.
    RecreateSwapchain { width: u32, height: u32 },
    /// The tick is complete.
    FrameDone,
    /// Give up with `error`.
    Abort { error: FatalError },
}

/// The presenter's state as contracts speak of it.
pub struct PresenterState {
    /// One entry per frame in flight.
    pub slots: Seq<FrameSlot>,
    /// The slot of the current tick.
    pub current_frame: usize,
    pub phase: Phase,
    /// A resize was reported since the swapchain was last recreated after a
    /// presentation.
    pub framebuffer_resized: bool,
    /// The window size last reported.
    pub window: Extent2D,
    /// Number of images, and command buffers, of the current swapchain.
    pub image_count: u32,
    /// Frames submitted since the start.
    pub submitted: nat,
    /// Submitted frames whose fence a wait has since found signaled.
    pub retired: nat,
}

impl PresenterState {
    /// Presentation is suspended while the window has no area.
    pub open spec fn suspended(self) -> bool {
        self.window.zero_area()
    }

    /// Submitted frames whose completion has not been observed.
    pub open spec fn frames_in_flight(self) -> int {
        self.submitted - self.retired
    }

    /// The state before the first tick.
    pub open spec fn initial(image_count: u32, window: Extent2D) -> PresenterState {
        PresenterState {
            slots: Seq::new(MAX_FRAMES_IN_FLIGHT as nat, |i: int| idle_slot()),
            current_frame: 0,
            phase: Phase::Idle,
            framebuffer_resized: false,
            window,
            image_count,
            submitted: 0,
            retired: 0,
        }
    }

    /// The invariant of every state the presenter reaches.
    pub open spec fn valid(self) -> bool {
        &&& self.slots.len() == MAX_FRAMES_IN_FLIGHT
        &&& self.current_frame < self.slots.len()
        &&& self.retired <= self.submitted
        &&& self.frames_in_flight() == unsignaled_fences(self.slots)
        &&& self.phase is Failed || {
            &&& forall|i: int|
                0 <= i < self.slots.len() ==> ((#[trigger] self.slots[i]).image_available
                    is Signaled <==> i == self.current_frame && self.phase is Submitting)
            &&& forall|i: int|
                0 <= i < self.slots.len() ==> ((#[trigger] self.slots[i]).render_finished
                    is Signaled <==> i == self.current_frame && self.phase is Presenting)
            &&& self.phase is Acquiring || self.phase is Submitting
                ==> self.slots[self.current_frame as int].in_flight is Signaled
            &&& self.phase is Presenting
                ==> self.slots[self.current_frame as int].in_flight is Unsignaled
            &&& self.phase matches Phase::Submitting { image_index } ==> image_index
                < self.image_count
            &&& self.phase matches Phase::Presenting { image_index } ==> image_index
                < self.image_count
            &&& !(self.phase is Idle) ==> !self.suspended()
        }
    }

    /// The state with the current slot replaced.
    pub open spec fn with_slot(self, slot: FrameSlot) -> PresenterState {
        PresenterState { slots: self.slots.update(self.current_frame as int, slot), ..self }
    }

    /// The current slot.
    pub open spec fn slot(self) -> FrameSlot {
        self.slots[self.current_frame as int]
    }

    /// Giving up: the error is kept and reported again on every later event.
    pub open spec fn fail(self, error: FatalError) -> (PresenterState, Action) {
        (PresenterState { phase: Phase::Failed { error }, ..self }, Action::Abort { error })
    }

    /// The end of a tick: the frame index moves on to the next slot.
    pub open spec fn finish_frame(self) -> (PresenterState, Action) {
        (
            PresenterState {
                phase: Phase::Idle,
                current_frame: ((self.current_frame + 1) % (MAX_FRAMES_IN_FLIGHT as int)) as usize,
                ..self
            },
            Action::FrameDone,
        )
    }

    /// Asking the host to recreate the swapchain for the current window.
    pub open spec fn rebuild(self) -> (PresenterState, Action) {
        (
            PresenterState { phase: Phase::Rebuilding, ..self },
            Action::RecreateSwapchain { width: self.window.width, height: self.window.height },
        )
    }

    /// A window event or a tick arriving between two frames.
    pub open spec fn next_idle(self, event: Event) -> (PresenterState, Action) {
        match event {
            Event::Tick => if self.suspended() {
                (self, Action::Suspended)
            } else {
                (
                    PresenterState { phase: Phase::WaitingForFence, ..self },
                    Action::WaitForFence { slot: self.current_frame, timeout: NO_TIMEOUT },
                )
            },
            Event::Resized { width, height } => {
                let window = Extent2D { width, height };
                (
                    PresenterState { window, framebuffer_resized: true, ..self },
                    if window.zero_area() {
                        Action::Wait
                    } else {
                        Action::Poll
                    },
                )
            },
            Event::CloseRequested => (self, Action::Exit),
            Event::OtherWindowEvent => (self, Action::Poll),
            _ => self.fail(FatalError::UnexpectedEvent),
        }
    }

    /// The outcome of the wait on the current slot's fence.
    pub open spec fn next_waiting(self, event: Event) -> (PresenterState, Action) {
        match event {
            Event::FenceSignaled => (
                PresenterState {
                    phase: Phase::Acquiring,
                    retired: if self.slot().in_flight is Unsignaled {
                        self.retired + 1
                    } else {
                        self.retired
                    },
                    ..self.with_slot(FrameSlot { in_flight: Signal::Signaled, ..self.slot() })
                },
                Action::AcquireImage { slot: self.current_frame, timeout: NO_TIMEOUT },
            ),
            Event::CallFailed { code } => self.fail(FatalError::Vulkan { code }),
            _ => self.fail(FatalError::UnexpectedEvent),
        }
    }

    /// The outcome of image acquisition.
    pub open spec fn next_acquiring(self, event: Event) -> (PresenterState, Action) {
        match event {
            Event::ImageAcquired { image_index, suboptimal } => if image_index < self.image_count {
                (
                    PresenterState {
                        phase: Phase::Submitting { image_index },
                        ..self.with_slot(
                            FrameSlot { image_available: Signal::Signaled, ..self.slot() },
                        )
                    },
                    Action::Submit { slot: self.current_frame, image_index },
                )
            } else {
                self.fail(FatalError::ImageIndexOutOfRange { image_index })
            },
            Event::AcquireFailed { code } => if code == ERROR_OUT_OF_DATE_KHR {
                self.rebuild()
            } else {
                self.fail(FatalError::Vulkan { code })
            },
            _ => self.fail(FatalError::UnexpectedEvent),
        }
    }

    /// The outcome of the submission for `image_index`.
    pub open spec fn next_submitting(self, image_index: u32, event: Event) -> (
        PresenterState,
        Action,
    ) {
        match event {
            Event::Submitted => (
                PresenterState {
                    phase: Phase::Presenting { image_index },
                    submitted: self.submitted + 1,
                    ..self.with_slot(
                        FrameSlot {
                            image_available: Signal::Unsignaled,
                            render_finished: Signal::Signaled,
                            in_flight: Signal::Unsignaled,
                        },
                    )
                },
                Action::Present { slot: self.current_frame, image_index },
            ),
            Event::CallFailed { code } => self.fail(FatalError::Vulkan { code }),
            _ => self.fail(FatalError::UnexpectedEvent),
        }
    }

    /// The state once presentation has consumed the render-finished signal.
    pub open spec fn presented(self) -> PresenterState {
        self.with_slot(FrameSlot { render_finished: Signal::Unsignaled, ..self.slot() })
    }

    /// The outcome of presentation.
    pub open spec fn next_presenting(self, event: Event) -> (PresenterState, Action) {
        match event {
            Event::Presented { suboptimal } => if suboptimal || self.framebuffer_resized {
                PresenterState { framebuffer_resized: false, ..self.presented() }.rebuild()
            } else {
                self.presented().finish_frame()
            },
            Event::PresentFailed { code } => if code == ERROR_OUT_OF_DATE_KHR {
                PresenterState { framebuffer_resized: false, ..self.presented() }.rebuild()
            } else {
                self.fail(FatalError::Vulkan { code })
            },
            _ => self.fail(FatalError::UnexpectedEvent),
        }
    }

    /// The outcome of recreating the swapchain.
    pub open spec fn next_rebuilding(self, event: Event) -> (PresenterState, Action) {
        match event {
            Event::SwapchainRecreated { image_count } => PresenterState {
                image_count,
                ..self
            }.finish_frame(),
            Event::CallFailed { code } => self.fail(FatalError::Vulkan { code }),
            _ => self.fail(FatalError::UnexpectedEvent),
        }
    }

    /// The transition relation: the state after `event` and what the host is
    /// told to do.
    pub open spec fn next(self, event: Event) -> (PresenterState, Action) {
        match self.phase {
            Phase::Idle => self.next_idle(event),
            Phase::WaitingForFence => self.next_waiting(event),
            Phase::Acquiring => self.next_acquiring(event),
            Phase::Submitting { image_index } => self.next_submitting(image_index, event),
            Phase::Presenting { image_index } => self.next_presenting(event),
            Phase::Rebuilding => self.next_rebuilding(event),
            Phase::Failed { error } => (self, Action::Abort { error }),
        }
    }

    /// The state after a sequence of events, each taken in turn.
    pub open spec fn run(self, events: Seq<Event>) -> PresenterState
        decreases events.len(),
    {
        if events.len() == 0 {
            self
        } else {
            self.run(events.drop_last()).next(events.last()).0
        }
    }
}

/// The presentation loop's decisions.  Created once at startup; every
/// outcome the host reports goes through [`FramePresenter::step`].
pub struct FramePresenter {
    frame_sync_data: FrameSyncData,
    current_frame: usize,
    phase: Phase,
    framebuffer_resized: bool,
    window: Extent2D,
    image_count: u32,
    submitted: Ghost<nat>,
    retired: Ghost<nat>,
}

impl View for FramePresenter {
    type V = PresenterState;

    closed spec fn view(&self) -> PresenterState {
        PresenterState {
            slots: self.frame_sync_data.slots@,
            current_frame: self.current_frame,
            phase: self.phase,
            framebuffer_resized: self.framebuffer_resized,
            window: self.window,
            image_count: self.image_count,
            submitted: self.submitted@,
            retired: self.retired@,
        }
    }
}

/// An owned copy of the slots.
fn copy_slots(slots: &Vec<FrameSlot>) -> (copy: Vec<FrameSlot>)
    ensures
        copy@ == slots@,
{
    let mut copy: Vec<FrameSlot> = Vec::new();
    let mut i: usize = 0;
    while i < slots.len()
        invariant
            i <= slots@.len(),
            copy@ == slots@.take(i as int),
        decreases slots@.len() - i,
    {
        copy.push(slots[i]);
        assert(copy@ =~= slots@.take(i + 1));
        i = i + 1;
    }
    assert(slots@.take(slots@.len() as int) =~= slots@);
    copy
}

impl FramePresenter {
    #[verifier::type_invariant]
    spec fn inv(&self) -> bool {
        self@.valid()
    }

    /// A presenter for a swapchain of `image_count` images on a window of
    /// the given size, before the first tick.
    pub fn new(image_count: u32, width: u32, height: u32) -> (presenter: FramePresenter)
        ensures
            presenter@ == PresenterState::initial(image_count, Extent2D { width, height }),
            presenter@.valid(),
    {
        proof {
            lemma_initial_valid(image_count, Extent2D { width, height });
        }
        FramePresenter {
            frame_sync_data: create(MAX_FRAMES_IN_FLIGHT),
            current_frame: 0,
            phase: Phase::Idle,
            framebuffer_resized: false,
            window: Extent2D { width, height },
            image_count,
            submitted: Ghost(0),
            retired: Ghost(0),
        }
    }

    /// Takes what the host reports and says what it does next.
    pub fn step(&mut self, event: Event) -> (action: Action)
        ensures
            final(self)@ == old(self)@.next(event).0,
            action == old(self)@.next(event).1,
            old(self)@.valid(),
            final(self)@.valid(),
    {
        proof {
            use_type_invariant(&*self);
            lemma_next_preserves_valid(self@, event);
        }
        let mut slots = copy_slots(&self.frame_sync_data.slots);
        let current = self.current_frame;
        let count = slots.len();
        let mut slot = slots[current];
        let mut next_frame = current;
        let mut phase = self.phase;
        let mut framebuffer_resized = self.framebuffer_resized;
        let mut window = self.window;
        let mut image_count = self.image_count;
        let ghost mut submitted = self.submitted@;
        let ghost mut retired = self.retired@;
        let mut action = Action::Abort { error: FatalError::UnexpectedEvent };
        let mut failure: Option<FatalError> = None;
        let mut rebuild = false;
        let mut finish = false;
        match self.phase {
            Phase::Idle => match event {
                Event::Tick => {
                    if window.is_zero_area() {
                        action = Action::Suspended;
                    } else {
                        phase = Phase::WaitingForFence;
                        action = Action::WaitForFence { slot: current, timeout: NO_TIMEOUT };
                    }
                },
                Event::Resized { width, height } => {
                    window = Extent2D { width, height };
                    framebuffer_resized = true;
                    action = if window.is_zero_area() {
                        Action::Wait
                    } else {
                        Action::Poll
                    };
                },
                Event::CloseRequested => {
                    action = Action::Exit;
                },
                Event::OtherWindowEvent => {
                    action = Action::Poll;
                },
                _ => {
                    failure = Some(FatalError::UnexpectedEvent);
                },
            },
            Phase::WaitingForFence => match event {
                Event::FenceSignaled => {
                    proof {
                        if slot.in_flight is Unsignaled {
                            retired = retired + 1;
                        }
                    }
                    slot.in_flight = Signal::Signaled;
                    phase = Phase::Acquiring;
                    action = Action::AcquireImage { slot: current, timeout: NO_TIMEOUT };
                },
                Event::CallFailed { code } => {
                    failure = Some(FatalError::Vulkan { code });
                },
                _ => {
                    failure = Some(FatalError::UnexpectedEvent);
                },
            },
            Phase::Acquiring => match event {
                Event::ImageAcquired { image_index, suboptimal } => {
                    if image_index < image_count {
                        slot.image_available = Signal::Signaled;
                        phase = Phase::Submitting { image_index };
                        action = Action::Submit { slot: current, image_index };
                    } else {
                        failure = Some(FatalError::ImageIndexOutOfRange { image_index });
                    }
                },
                Event::AcquireFailed { code } => {
                    if code == ERROR_OUT_OF_DATE_KHR {
                        rebuild = true;
                    } else {
                        failure = Some(FatalError::Vulkan { code });
                    }
                },
                _ => {
                    failure = Some(FatalError::UnexpectedEvent);
                },
            },
            Phase::Submitting { image_index } => match event {
                Event::Submitted => {
                    proof {
                        submitted = submitted + 1;
                    }
                    slot = FrameSlot {
                        image_available: Signal::Unsignaled,
                        render_finished: Signal::Signaled,
                        in_flight: Signal::Unsignaled,
                    };
                    phase = Phase::Presenting { image_index };
                    action = Action::Present { slot: current, image_index };
                },
                Event::CallFailed { code } => {
                    failure = Some(FatalError::Vulkan { code });
                },
                _ => {
                    failure = Some(FatalError::UnexpectedEvent);
                },
            },
            Phase::Presenting { image_index } => match event {
                Event::Presented { suboptimal } => {
                    slot.render_finished = Signal::Unsignaled;
                    if suboptimal || framebuffer_resized {
                        framebuffer_resized = false;
                        rebuild = true;
                    } else {
                        finish = true;
                    }
                },
                Event::PresentFailed { code } => {
                    if code == ERROR_OUT_OF_DATE_KHR {
                        slot.render_finished = Signal::Unsignaled;
                        framebuffer_resized = false;
                        rebuild = true;
                    } else {
                        failure = Some(FatalError::Vulkan { code });
                    }
                },
                _ => {
                    failure = Some(FatalError::UnexpectedEvent);
                },
            },
            Phase::Rebuilding => match event {
                Event::SwapchainRecreated { image_count: recreated } => {
                    image_count = recreated;
                    finish = true;
                },
                Event::CallFailed { code } => {
                    failure = Some(FatalError::Vulkan { code });
                },
                _ => {
                    failure = Some(FatalError::UnexpectedEvent);
                },
            },
            Phase::Failed { error } => {
                action = Action::Abort { error };
            },
        }
        if let Some(error) = failure {
            phase = Phase::Failed { error };
            action = Action::Abort { error };
        } else if rebuild {
            phase = Phase::Rebuilding;
            action = Action::RecreateSwapchain { width: window.width, height: window.height };
        } else if finish {
            phase = Phase::Idle;
            next_frame = if current + 1 == count {
                0
            } else {
                current + 1
            };
            action = Action::FrameDone;
        }
        slots.set(current, slot);
        assert(slots@ =~= old(self)@.next(event).0.slots);
        *self = FramePresenter {
            frame_sync_data: FrameSyncData { slots },
            current_frame: next_frame,
            phase,
            framebuffer_resized,
            window,
            image_count,
            submitted: Ghost(submitted),
            retired: Ghost(retired),
        };
        action
    }

    /// The slot of the current tick.
    pub fn current_frame(&self) -> (frame: usize)
        ensures
            frame == self@.current_frame,
            frame < MAX_FRAMES_IN_FLIGHT,
    {
        proof {
            use_type_invariant(self);
        }
        self.current_frame
    }

    /// What the presenter is waiting for.
    pub fn phase(&self) -> (phase: Phase)
        ensures
            phase == self@.phase,
    {
        self.phase
    }

    /// Presentation is suspended because the window has no area.
    pub fn is_suspended(&self) -> (suspended: bool)
        ensures
            suspended == self@.suspended(),
    {
        self.window.is_zero_area()
    }

    /// A resize is waiting to be answered by a recreated swapchain.
    pub fn framebuffer_resized(&self) -> (resized: bool)
        ensures
            resized == self@.framebuffer_resized,
    {
        self.framebuffer_resized
    }

    /// The window size last reported.
    pub fn window(&self) -> (window: Extent2D)
        ensures
            window == self@.window,
    {
        self.window
    }

    /// Number of images of the current swapchain.
    pub fn image_count(&self) -> (count: u32)
        ensures
            count == self@.image_count,
    {
        self.image_count
    }

    /// The synchronisation state of slot `index`, if there is such a slot.
    pub fn slot(&self, index: usize) -> (slot: Option<FrameSlot>)
        ensures
            slot == if index < self@.slots.len() {
                Some(self@.slots[index as int])
            } else {
                None
            },
    {
        if index < self.frame_sync_data.slots.len() {
            Some(self.frame_sync_data.slots[index])
        } else {
            None
        }
    }

    /// Number of submitted frames whose completion has not been observed.
    pub fn frames_in_flight(&self) -> (count: usize)
        ensures
            count == self@.frames_in_flight(),
            count == unsignaled_fences(self@.slots),
            count <= MAX_FRAMES_IN_FLIGHT,
    {
        proof {
            use_type_invariant(self);
            lemma_frames_in_flight_bounded(self@);
        }
        let mut count: usize = 0;
        let mut i: usize = 0;
        while i < self.frame_sync_data.slots.len()
            invariant
                i <= self.frame_sync_data.slots@.len(),
                count == unsignaled_fences(self.frame_sync_data.slots@.take(i as int)),
                count <= i,
            decreases self.frame_sync_data.slots@.len() - i,
        {
            assert(self.frame_sync_data.slots@.take(i + 1).drop_last()
                =~= self.frame_sync_data.slots@.take(i as int));
            if let Signal::Unsignaled = self.frame_sync_data.slots[i].in_flight {
                count = count + 1;
            }
            i = i + 1;
        }
        assert(self.frame_sync_data.slots@.take(i as int) =~= self.frame_sync_data.slots@);
        count
    }
}

/// The action makes the device acquire, render or present, or waits on it.
pub open spec fn is_device_work(action: Action) -> bool {
    action is WaitForFence || action is AcquireImage || action is Submit || action is Present
        || action is RecreateSwapchain
}

/// The event reports a window size that covers at least one pixel.
pub open spec fn is_nonzero_resize(event: Event) -> bool {
    event matches Event::Resized { width, height } && width != 0 && height != 0
}

/// The state before the first tick is valid.
pub proof fn lemma_initial_valid(image_count: u32, window: Extent2D)
    ensures
        PresenterState::initial(image_count, window).valid(),
        PresenterState::initial(image_count, window).frames_in_flight() == 0,
{
    let s = PresenterState::initial(image_count, window);
    lemma_unsignaled_fences_none(s.slots);
}

/// Every transition keeps the state valid.
pub proof fn lemma_next_preserves_valid(s: PresenterState, event: Event)
    requires
        s.valid(),
    ensures
        s.next(event).0.valid(),
{
    let t = s.next(event).0;
    let cur = s.current_frame as int;
    if t.slots != s.slots {
        lemma_unsignaled_fences_update(s.slots, cur, t.slots[cur]);
        assert(t.slots =~= s.slots.update(cur, t.slots[cur]));
    }
}

/// Every state reached from a valid one is valid.
pub proof fn lemma_run_preserves_valid(s: PresenterState, events: Seq<Event>)
    requires
        s.valid(),
    ensures
        s.run(events).valid(),
    decreases events.len(),
{
    if events.len() > 0 {
        lemma_run_preserves_valid(s, events.drop_last());
        lemma_next_preserves_valid(s.run(events.drop_last()), events.last());
    }
}

/// In a valid state the submitted frames whose completion has not been
/// observed are exactly the slots with an unsignaled fence, and there are at
/// most `MAX_FRAMES_IN_FLIGHT` of them.
pub proof fn lemma_frames_in_flight_bounded(s: PresenterState)
    requires
        s.valid(),
    ensures
        s.frames_in_flight() == unsignaled_fences(s.slots),
        0 <= s.frames_in_flight() <= MAX_FRAMES_IN_FLIGHT,
{
    lemma_unsignaled_fences_bounded(s.slots);
}

/// However many frames are submitted, and whatever the host reports in
/// between, at most `MAX_FRAMES_IN_FLIGHT` fences are unsignaled at any
/// instant.
pub proof fn lemma_unsignaled_fences_never_exceed_limit(
    image_count: u32,
    window: Extent2D,
    events: Seq<Event>,
)
    ensures
        unsignaled_fences(PresenterState::initial(image_count, window).run(events).slots)
            <= MAX_FRAMES_IN_FLIGHT,
        PresenterState::initial(image_count, window).run(events).frames_in_flight()
            <= MAX_FRAMES_IN_FLIGHT,
{
    let s = PresenterState::initial(image_count, window);
    lemma_initial_valid(image_count, window);
    lemma_run_preserves_valid(s, events);
    lemma_frames_in_flight_bounded(s.run(events));
}

/// A frame is counted as submitted exactly when a submission is reported
/// while one is outstanding, and the presenter asks for a submission only on
/// the current slot and only after a wait has found that slot's fence
/// signaled.
pub proof fn lemma_submit_reuses_only_completed_slots(s: PresenterState, event: Event)
    requires
        s.valid(),
    ensures
        s.next(event).0.submitted == s.submitted + (if s.phase is Submitting && event
            is Submitted {
            1nat
        } else {
            0nat
        }),
        s.next(event).1 matches Action::Submit { slot, image_index } ==> {
            &&& slot == s.current_frame
            &&& s.slots[slot as int].in_flight is Signaled
            &&& image_index < s.image_count
        },
{
}

/// The semaphores order acquisition, submission and presentation: an image
/// is acquired only into a slot whose image-available semaphore is free, a
/// submission is asked for only where acquisition has signaled it, and a
/// presentation only where the submission signals the render-finished
/// semaphore.
pub proof fn lemma_semaphores_order_the_frame(s: PresenterState, event: Event)
    requires
        s.valid(),
    ensures
        s.next(event).1 matches Action::AcquireImage { slot, timeout } ==> {
            &&& slot == s.current_frame
            &&& s.slots[slot as int].image_available is Unsignaled
            &&& s.slots[slot as int].render_finished is Unsignaled
        },
        s.next(event).1 matches Action::Submit { slot, image_index } ==> {
            &&& s.next(event).0.slots[slot as int].image_available is Signaled
            &&& s.next(event).0.slots[slot as int].render_finished is Unsignaled
        },
        s.next(event).1 matches Action::Present { slot, image_index } ==> {
            &&& slot == s.current_frame
            &&& s.next(event).0.slots[slot as int].image_available is Unsignaled
            &&& s.next(event).0.slots[slot as int].render_finished is Signaled
            &&& s.next(event).0.slots[slot as int].in_flight is Unsignaled
        },
{
}

/// While the window has no area, no event but a resize to a size with area
/// makes the presenter ask for device work, and the presenter stays
/// suspended with its slots untouched.
pub proof fn lemma_suspended_does_no_device_work(s: PresenterState, event: Event)
    requires
        s.valid(),
        s.suspended(),
        !is_nonzero_resize(event),
    ensures
        !is_device_work(s.next(event).1),
        s.next(event).0.suspended(),
        s.next(event).0.slots == s.slots,
        s.next(event).0.current_frame == s.current_frame,
{
}

/// The same over any sequence of events none of which is a resize to a size
/// with area: no event of the sequence is answered with device work.
pub proof fn lemma_suspended_until_nonzero_resize(s: PresenterState, events: Seq<Event>)
    requires
        s.valid(),
        s.suspended(),
        forall|k: int| 0 <= k < events.len() ==> !is_nonzero_resize(#[trigger] events[k]),
    ensures
        s.run(events).valid(),
        s.run(events).suspended(),
        s.run(events).slots == s.slots,
        forall|k: int|
            0 <= k < events.len() ==> !is_device_work(
                #[trigger] s.run(events.take(k)).next(events[k]).1,
            ),
    decreases events.len(),
{
    if events.len() > 0 {
        let front = events.drop_last();
        lemma_suspended_until_nonzero_resize(s, front);
        lemma_suspended_does_no_device_work(s.run(front), events.last());
        lemma_next_preserves_valid(s.run(front), events.last());
        assert forall|k: int| 0 <= k < events.len() implies !is_device_work(
            #[trigger] s.run(events.take(k)).next(events[k]).1,
        ) by {
            if k < front.len() {
                assert(events.take(k) =~= front.take(k));
                assert(events[k] == front[k]);
            } else {
                assert(events.take(k) =~= front);
            }
        }
    }
}

/// Unless the presenter has given up, a resize to a size with area ends the
/// suspension: the host is told to poll, and the next tick starts a frame.
pub proof fn lemma_nonzero_resize_resumes(s: PresenterState, width: u32, height: u32)
    requires
        s.valid(),
        s.suspended(),
        !(s.phase is Failed),
        width != 0,
        height != 0,
    ensures
        s.next(Event::Resized { width, height }).1 == Action::Poll,
        !s.next(Event::Resized { width, height }).0.suspended(),
        s.next(Event::Resized { width, height }).0.next(Event::Tick).1
            == (Action::WaitForFence { slot: s.current_frame, timeout: NO_TIMEOUT }),
{
}

/// The swapchain is never recreated for a window without area.
pub proof fn lemma_rebuild_has_area(s: PresenterState, event: Event)
    requires
        s.valid(),
    ensures
        s.next(event).1 matches Action::RecreateSwapchain { width, height } ==> width != 0
            && height != 0,
{
}

} // verus!
