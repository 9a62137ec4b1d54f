//! The print orchestrator: the state machine that sequences motion, exposure
//! and display for each layer, and answers the operator's commands.
//!
//! The machine does no input or output itself. Each call of
//! [`Printer::step`] takes the outcome of what was asked for last and says
//! what to do next; whoever drives the machine carries that out and comes
//! back with the outcome.

use vstd::prelude::*;
use crate::api_objects::{DisplayTest, FileMetadata, PhysicalState, PrintMetadata, PrinterState};
use crate::configuration::PrinterConfig;
use crate::gcode::{pose_after, requests_as, waits_as, Command, Request, RequestView};
use crate::sl1::Sl1;
use crate::template::TemplateError;
use crate::text::string_of;
use crate::units::{decimal_digits, format_thousandths, push_decimal, thousandths_text};

verus! {

/// What the operator can ask of the printer.
#[derive(Clone, Debug)]
pub enum Operation {
    StartPrint { file_data: FileMetadata },
    StopPrint,
    PausePrint,
    ResumePrint,
    ManualMove { z: u32 },
    ManualCure { cure: bool },
    ManualHome,
    ManualCommand { command: String },
    ManualDisplayLayer { file_data: FileMetadata, layer: usize },
    ManualDisplayTest { test: DisplayTest },
    QueryState,
    Shutdown,
}

/// A job as it comes out of its file: what it says of itself, and the motion
/// settings it brings, if any.
#[derive(Clone, Debug)]
pub struct Job {
    pub metadata: PrintMetadata,
    /// Lift between layers, in microns.
    pub lift: Option<u32>,
    /// Speed of the lift, in microns per second.
    pub up_speed: Option<u32>,
    /// Speed of the move back down, in microns per second.
    pub down_speed: Option<u32>,
    /// Rest before each exposure, in milliseconds.
    pub wait_before_exposure: Option<u64>,
    /// Rest after each exposure, in milliseconds.
    pub wait_after_exposure: Option<u64>,
}

/// The motion settings of a running job: those of the job where it brings
/// them, the configured defaults elsewhere.
#[derive(Clone, Copy, Debug, PartialEq, Eq, Structural)]
pub struct Motion {
    pub lift: u32,
    pub up_speed: u32,
    pub down_speed: u32,
    pub wait_before_exposure: u64,
    pub wait_after_exposure: u64,
}

/// What a controller of the machine's hardware offers, and what the
/// orchestrator relies on. A controller has a model, its view, and what it
/// does is said over that model: `issue_of` gives the controller after a
/// command and the request to hand to the hardware, or the name that the
/// command's template asks for in vain. Each operation does what `issue_of`
/// says of its command.
///
/// Whatever the controller, a move sets the height, the cure commands set
/// the light, and nothing else changes the pose; a move discards pending
/// answers and waits for one, the probe waits for one in a single poll, and
/// no other command waits.
pub trait HardwareControl: View + Sized {
    /// The pose that the controller keeps.
    spec fn pose_of(model: Self::V) -> PhysicalState;

    /// The substitutions that are set.
    spec fn variables_of(model: Self::V) -> Map<Seq<char>, Seq<char>>;

    /// The controller after `command`, and the request for it or the name
    /// that its template asks for in vain.
    spec fn issue_of(model: Self::V, command: Command) -> (
        Self::V,
        Result<RequestView, Seq<char>>,
    );

    /// The controller with the substitution `name` given the value `value`.
    spec fn with_variable(model: Self::V, name: Seq<char>, value: Seq<char>) -> Self::V;

    /// The controller with the substitution `name` taken away.
    spec fn without_variable(model: Self::V, name: Seq<char>) -> Self::V;

    /// The controller with every substitution taken away.
    spec fn without_variables(model: Self::V) -> Self::V;

    /// What holds of every controller: how commands change the pose, what
    /// they wait for, and what setting and taking away a substitution does.
    proof fn lemma_controller(model: Self::V, command: Command, name: Seq<char>, value: Seq<char>)
        ensures
            Self::pose_of(Self::issue_of(model, command).0) == pose_after(
                Self::pose_of(model),
                command,
            ),
            Self::issue_of(model, command).1 matches Ok(request) ==> waits_as(request, command),
            Self::pose_of(Self::with_variable(model, name, value)) == Self::pose_of(model),
            Self::variables_of(Self::with_variable(model, name, value)) == Self::variables_of(
                model,
            ).insert(name, value),
            Self::pose_of(Self::without_variable(model, name)) == Self::pose_of(model),
            Self::variables_of(Self::without_variable(model, name)) == Self::variables_of(
                model,
            ).remove(name),
            Self::pose_of(Self::without_variables(model)) == Self::pose_of(model),
            Self::variables_of(Self::without_variables(model)) == Map::<
                Seq<char>,
                Seq<char>,
            >::empty(),
    ;

    /// Carries out `command` and makes the request for it.
    fn issue(&mut self, command: &Command) -> (result: Result<Request, TemplateError>)
        ensures
            final(self)@ == Self::issue_of(old(self)@, *command).0,
            requests_as(result, Self::issue_of(old(self)@, *command).1),
    ;

    /// The status probe: the request looks for the ready answer in one poll.
    fn is_ready(&mut self) -> (result: Result<Request, TemplateError>)
        ensures
            final(self)@ == Self::issue_of(old(self)@, Command::Probe).0,
            requests_as(result, Self::issue_of(old(self)@, Command::Probe).1),
    ;

    /// Prepares the controller for its first command.
    fn initialize(&mut self)
        ensures
            final(self)@ == old(self)@,
    ;

    fn home(&mut self) -> (result: Result<Request, TemplateError>)
        ensures
            final(self)@ == Self::issue_of(old(self)@, Command::Home).0,
            requests_as(result, Self::issue_of(old(self)@, Command::Home).1),
    ;

    /// A line of the operator's.
    fn manual_command(&mut self, command: String) -> (result: Result<Request, TemplateError>)
        ensures
            final(self)@ == Self::issue_of(old(self)@, Command::Manual(command)).0,
            requests_as(result, Self::issue_of(old(self)@, Command::Manual(command)).1),
    ;

    fn start_print(&mut self) -> (result: Result<Request, TemplateError>)
        ensures
            final(self)@ == Self::issue_of(old(self)@, Command::StartPrint).0,
            requests_as(result, Self::issue_of(old(self)@, Command::StartPrint).1),
    ;

    fn end_print(&mut self) -> (result: Result<Request, TemplateError>)
        ensures
            final(self)@ == Self::issue_of(old(self)@, Command::EndPrint).0,
            requests_as(result, Self::issue_of(old(self)@, Command::EndPrint).1),
    ;

    /// Moves the plate to `z` microns at `speed` microns per second. The
    /// request discards pending answers and waits for the move to be
    /// reported complete.
    fn move_z(&mut self, z: u32, speed: u32) -> (result: Result<Request, TemplateError>)
        ensures
            final(self)@ == Self::issue_of(old(self)@, Command::MoveZ { z, speed }).0,
            requests_as(result, Self::issue_of(old(self)@, Command::MoveZ { z, speed }).1),
    ;

    fn start_layer(&mut self, layer: usize) -> (result: Result<Request, TemplateError>)
        ensures
            final(self)@ == Self::issue_of(old(self)@, Command::StartLayer(layer)).0,
            requests_as(result, Self::issue_of(old(self)@, Command::StartLayer(layer)).1),
    ;

    fn start_curing(&mut self) -> (result: Result<Request, TemplateError>)
        ensures
            final(self)@ == Self::issue_of(old(self)@, Command::StartCure).0,
            requests_as(result, Self::issue_of(old(self)@, Command::StartCure).1),
    ;

    fn stop_curing(&mut self) -> (result: Result<Request, TemplateError>)
        ensures
            final(self)@ == Self::issue_of(old(self)@, Command::StopCure).0,
            requests_as(result, Self::issue_of(old(self)@, Command::StopCure).1),
    ;

    fn boot(&mut self) -> (result: Result<Request, TemplateError>)
        ensures
            final(self)@ == Self::issue_of(old(self)@, Command::Boot).0,
            requests_as(result, Self::issue_of(old(self)@, Command::Boot).1),
    ;

    fn shutdown(&mut self) -> (result: Result<Request, TemplateError>)
        ensures
            final(self)@ == Self::issue_of(old(self)@, Command::Shutdown).0,
            requests_as(result, Self::issue_of(old(self)@, Command::Shutdown).1),
    ;

    fn get_physical_state(&self) -> (state: PhysicalState)
        ensures
            state == Self::pose_of(self@),
    ;

    /// Gives the substitution `variable` the value `value`, in place of the
    /// one it had.
    fn add_print_variable(&mut self, variable: String, value: String)
        ensures
            final(self)@ == Self::with_variable(old(self)@, variable@, value@),
    ;

    /// Takes the substitution `variable` away, if it is set.
    fn remove_print_variable(&mut self, variable: String)
        ensures
            final(self)@ == Self::without_variable(old(self)@, variable@),
    ;

    /// Takes every substitution away.
    fn clear_variables(&mut self)
        ensures
            final(self)@ == Self::without_variables(old(self)@),
    ;
}

/// The outcome of what the machine asked for last.
#[derive(Debug)]
pub enum Event {
    /// The operation queue was polled: the operation found, or `None` when
    /// the queue was empty.
    Operation(Option<Operation>),
    /// The host wants the process to end.
    Cancelled,
    /// A request to the controller was carried out. `true`: the line was
    /// sent and, where an answer was awaited, it came. `false`: the line
    /// could not be sent, or the answer did not come in time.
    Completed(bool),
    /// A sleep is over, a frame is on the display, or a fetch has begun.
    Done,
    /// A job file was read; `None` when it could not be.
    JobLoaded(Option<Job>),
    /// A frame was fetched: its exposure in milliseconds, or `None` when
    /// there is no such layer or it could not be decoded.
    FrameLoaded(Option<u64>),
}

/// The steps of one layer, in their order.
#[derive(Clone, Copy, Debug, PartialEq, Eq, Structural)]
pub enum Stage {
    /// The fetch of the next layer's frame begins.
    Prefetch,
    StartLayer,
    /// The plate lifts above the layer's height.
    Lift,
    /// The plate comes down to the layer's height.
    Seat,
    WaitBefore,
    Display,
    StartCure,
    Expose,
    StopCure,
    WaitAfter,
    /// The frame of the next layer is waited for.
    Collect,
}

/// What the machine is waiting for.
#[derive(Clone, Copy, Debug, PartialEq, Eq, Structural)]
pub enum Phase {
    /// The operation queue is being polled.
    Polling,
    /// A sleep between polls.
    Resting,
    /// A command of the operator's, or the lift of a pause, is under way.
    Commanding,
    /// A test pattern or a layer is being put on the display.
    Showing,
    /// A job file is being read.
    Loading,
    /// While shut down: the controller is being asked whether it is ready.
    Probing,
    Booting,
    /// The start-of-print command is under way.
    Starting,
    /// The frame of the first layer is being fetched.
    Opening,
    /// A step of the current layer is under way.
    Layer(Stage),
    /// The end-of-print command is under way.
    Ending,
    /// On the way to shutdown: the shutdown command is under way. With
    /// `exit`, the machine ends afterwards.
    Stopping { exit: bool },
    /// The machine has ended.
    Finished,
}

/// What the machine asks for.
#[derive(Debug)]
pub enum Directive {
    /// Poll the operation queue without waiting, and the cancellation signal
    /// with it. Answered by `Event::Operation` or `Event::Cancelled`.
    Poll,
    /// Hand `request` to the controller. Answered by `Event::Completed`.
    Send { command: Command, request: Request },
    /// Sleep for so many milliseconds. Answered by `Event::Done`.
    Sleep(u64),
    /// Read the job in this file. Answered by `Event::JobLoaded`.
    LoadJob(FileMetadata),
    /// Fetch and decode the frame of this layer of the running job.
    /// Answered by `Event::FrameLoaded`.
    Fetch(usize),
    /// Begin to fetch and decode the frame of this layer in the background.
    /// Answered by `Event::Done`, at once.
    Prefetch(usize),
    /// Wait for the frame whose fetch was begun. Answered by
    /// `Event::FrameLoaded`.
    Collect,
    /// Put the frame of the current layer on the display. Answered by
    /// `Event::Done`.
    Display,
    /// Put a test pattern on the display. Answered by `Event::Done`.
    DisplayTest(DisplayTest),
    /// Put a layer of a file on the display, if it has that layer. Answered
    /// by `Event::Done`.
    DisplayLayer { file_data: FileMetadata, layer: usize },
    /// A template of the configuration asks for a name that has no value:
    /// the process cannot go on.
    Fail(TemplateError),
    /// End the process.
    Exit,
    /// The event was not the one awaited: nothing changes, go on waiting.
    Wait,
}

/// A `Directive` as plain values.
pub enum Action {
    Poll,
    Send { command: Command, request: RequestView },
    Sleep(u64),
    LoadJob(FileMetadata),
    Fetch(usize),
    Prefetch(usize),
    Collect,
    Display,
    DisplayTest(DisplayTest),
    DisplayLayer { file_data: FileMetadata, layer: usize },
    Fail(Seq<char>),
    Exit,
    Wait,
}

impl View for Directive {
    type V = Action;

    open spec fn view(&self) -> Action {
        match *self {
            Directive::Poll => Action::Poll,
            Directive::Send { command, request } => Action::Send { command, request: request@ },
            Directive::Sleep(ms) => Action::Sleep(ms),
            Directive::LoadJob(file_data) => Action::LoadJob(file_data),
            Directive::Fetch(layer) => Action::Fetch(layer),
            Directive::Prefetch(layer) => Action::Prefetch(layer),
            Directive::Collect => Action::Collect,
            Directive::Display => Action::Display,
            Directive::DisplayTest(test) => Action::DisplayTest(test),
            Directive::DisplayLayer { file_data, layer } => Action::DisplayLayer {
                file_data,
                layer,
            },
            Directive::Fail(e) => Action::Fail(e.name@),
            Directive::Exit => Action::Exit,
            Directive::Wait => Action::Wait,
        }
    }
}

/// The answer of the machine to an event.
#[derive(Debug)]
pub struct Step {
    /// Whether the state, as it is after this step, is to be published.
    pub publish: bool,
    /// What to do next.
    pub directive: Directive,
}

/// A step of the machine as plain values: the machine afterwards, whether
/// its state is published, and what it asks for.
#[verifier::reject_recursive_types(T)]
pub struct Outcome<T: HardwareControl> {
    pub next: PrinterView<T>,
    pub publish: bool,
    pub action: Action,
}

/// The print orchestrator.
pub struct Printer<T: HardwareControl> {
    pub config: PrinterConfig,
    pub hardware_controller: T,
    pub state: PrinterState,
    /// What the machine is waiting for.
    pub phase: Phase,
    /// The motion settings of the running job.
    pub motion: Motion,
    /// The exposure of the frame that is ready for the current layer, in
    /// milliseconds.
    pub exposure: Option<u64>,
}

/// A `Printer` as plain values.
#[verifier::reject_recursive_types(T)]
pub struct PrinterView<T: HardwareControl> {
    pub config: PrinterConfig,
    pub hardware: T::V,
    pub state: PrinterState,
    pub phase: Phase,
    pub motion: Motion,
    /// The exposure of the frame that is ready for the current layer, in
    /// milliseconds; `None` when there is no frame.
    pub exposure: Option<u64>,
}

impl<T: HardwareControl> View for Printer<T> {
    type V = PrinterView<T>;

    open spec fn view(&self) -> PrinterView<T> {
        PrinterView {
            config: self.config,
            hardware: self.hardware_controller@,
            state: self.state,
            phase: self.phase,
            motion: self.motion,
            exposure: self.exposure,
        }
    }
}

/// The time between two polls of an idle printer, in milliseconds.
pub const IDLE_TICK: u64 = 1000;

/// The time between two polls of a paused job, in milliseconds.
pub const PAUSE_TICK: u64 = 100;

/// The time between two probes of a controller that is not ready, in
/// milliseconds.
pub const PROBE_TICK: u64 = 10000;

/// The height of layer `layer` of a job with layers of `height` microns: the
/// top of that layer.
pub open spec fn layer_top(layer: usize, height: u32) -> int {
    (layer + 1) * height
}

/// The height below which a paused job's plate is not sent: the top of the
/// current layer, as far as a `u32` can hold it.
pub open spec fn layer_floor(layer: usize, height: u32) -> u32 {
    if layer_top(layer, height) <= u32::MAX {
        layer_top(layer, height) as u32
    } else {
        u32::MAX
    }
}

/// The height a pause lifts the plate to: `lift` above `z`, but not above
/// `max_z`.
pub open spec fn pause_height(z: u32, lift: u32, max_z: u32) -> u32 {
    if z + lift <= max_z {
        (z + lift) as u32
    } else {
        max_z
    }
}

/// The height a move of the operator's goes to: the height asked for, but
/// not above `max_z`.
pub open spec fn capped(z: u32, max_z: u32) -> u32 {
    if z <= max_z {
        z
    } else {
        max_z
    }
}

/// The height a jog of a paused job goes to: the height asked for, but not
/// below `floor`, and in no case above `max_z`.
pub open spec fn jog_height(z: u32, floor: u32, max_z: u32) -> u32 {
    capped(
        if z >= floor {
            z
        } else {
            floor
        },
        max_z,
    )
}

impl Job {
    /// The motion settings that the job runs with under `config`.
    pub open spec fn motion(self, config: PrinterConfig) -> Motion {
        Motion {
            lift: match self.lift {
                Some(lift) => lift,
                None => config.default_lift,
            },
            up_speed: match self.up_speed {
                Some(speed) => speed,
                None => config.default_up_speed,
            },
            down_speed: match self.down_speed {
                Some(speed) => speed,
                None => config.default_down_speed,
            },
            wait_before_exposure: match self.wait_before_exposure {
                Some(wait) => wait,
                None => config.default_wait_before_exposure,
            },
            wait_after_exposure: match self.wait_after_exposure {
                Some(wait) => wait,
                None => config.default_wait_after_exposure,
            },
        }
    }

    /// No height that the job sends the plate to lies above the greatest
    /// height: not the top of its last layer, nor the lift above it.
    pub open spec fn fits(self, config: PrinterConfig) -> bool {
        self.metadata.layer_count * self.metadata.layer_height_microns + self.motion(config).lift
            <= config.max_z
    }
}

impl PrinterState {
    /// This state with the pose `physical`; a shutdown has no pose.
    pub open spec fn with_physical(self, physical: PhysicalState) -> PrinterState {
        match self {
            PrinterState::Shutdown => PrinterState::Shutdown,
            PrinterState::Idle { .. } => PrinterState::Idle { physical },
            PrinterState::Printing { job, layer, paused, .. } => PrinterState::Printing {
                job,
                layer,
                paused,
                physical,
            },
        }
    }

    /// This state paused or not, where a job runs.
    pub open spec fn with_paused(self, paused: bool) -> PrinterState {
        match self {
            PrinterState::Printing { job, layer, physical, .. } => PrinterState::Printing {
                job,
                layer,
                paused,
                physical,
            },
            other => other,
        }
    }

    /// This state at layer `layer`, where a job runs.
    pub open spec fn with_layer(self, layer: usize) -> PrinterState {
        match self {
            PrinterState::Printing { job, paused, physical, .. } => PrinterState::Printing {
                job,
                layer,
                paused,
                physical,
            },
            other => other,
        }
    }
}

impl<T: HardwareControl> PrinterView<T> {
    /// The pose that the controller keeps.
    pub open spec fn pose(self) -> PhysicalState {
        T::pose_of(self.hardware)
    }

    /// What holds of every machine: a running job fits and is at one of its
    /// layers or just past the last, a frame is ready only for a layer of
    /// the job, and each phase belongs to its state.
    pub open spec fn wf(self) -> bool {
        &&& self.state matches PrinterState::Printing { job, layer, .. } ==> {
            &&& layer <= job.layer_count
            &&& job.layer_count * job.layer_height_microns + self.motion.lift <= self.config.max_z
            &&& self.exposure is Some ==> layer < job.layer_count
        }
        &&& self.phase is Layer ==> self.state is Printing && self.exposure is Some
        &&& self.phase is Starting || self.phase is Opening ==> (self.state matches PrinterState::Printing {
            layer,
            ..
        } && layer == 0)
        &&& self.phase is Ending ==> self.state is Printing
        &&& self.phase is Loading ==> self.state is Idle
        &&& self.phase is Probing || self.phase is Booting ==> self.state is Shutdown
    }

    /// The machine in phase `phase`.
    pub open spec fn in_phase(self, phase: Phase) -> PrinterView<T> {
        PrinterView { phase, ..self }
    }

    /// The machine with the pose of the controller taken into its state.
    pub open spec fn synced(self) -> PrinterView<T> {
        PrinterView { state: self.state.with_physical(self.pose()), ..self }
    }

    /// The machine asks for `action` and waits in `phase`.
    pub open spec fn ask(self, phase: Phase, publish: bool, action: Action) -> Outcome<T> {
        Outcome { next: self.in_phase(phase), publish, action }
    }

    /// The machine goes back to polling.
    pub open spec fn poll(self, publish: bool) -> Outcome<T> {
        self.ask(Phase::Polling, publish, Action::Poll)
    }

    /// The event was not the one awaited.
    pub open spec fn ignore(self) -> Outcome<T> {
        Outcome { next: self, publish: false, action: Action::Wait }
    }

    /// The machine issues `command` to the controller and waits for it in
    /// `phase`. Where the command's template cannot be rendered the machine
    /// ends.
    #[verifier::opaque]
    pub open spec fn command(self, command: Command, phase: Phase, publish: bool) -> Outcome<T> {
        let (hardware, result) = T::issue_of(self.hardware, command);
        let issued = PrinterView { hardware, ..self };
        match result {
            Ok(request) => issued.ask(phase, publish, Action::Send { command, request }),
            Err(name) => issued.ask(Phase::Finished, publish, Action::Fail(name)),
        }
    }

    /// The machine sets out for shutdown: it tells the controller to shut
    /// down, whether or not the controller is still there to hear it.
    pub open spec fn halt(self, exit: bool) -> Outcome<T> {
        self.command(Command::Shutdown, Phase::Stopping { exit }, false)
    }

    /// The machine is shut down; its state is published, and with `exit` it
    /// ends.
    pub open spec fn shut(self, exit: bool) -> Outcome<T> {
        let down = PrinterView { state: PrinterState::Shutdown, exposure: None, ..self };
        if exit {
            down.ask(Phase::Finished, true, Action::Exit)
        } else {
            down.poll(true)
        }
    }

    /// The host wants the process to end: a machine that is shut down ends
    /// at once, any other shuts down first.
    pub open spec fn cancel(self) -> Outcome<T> {
        if self.state is Shutdown {
            self.ask(Phase::Finished, false, Action::Exit)
        } else {
            self.halt(true)
        }
    }

    /// A poll while shut down: the state is published on request and every
    /// other operation is dropped; when the queue is empty the controller
    /// is probed.
    pub open spec fn poll_shutdown(self, operation: Option<Operation>) -> Outcome<T> {
        match operation {
            Some(Operation::QueryState) => self.poll(true),
            Some(_) => self.poll(false),
            None => self.command(Command::Probe, Phase::Probing, false),
        }
    }

    /// A poll while idle.
    #[verifier::opaque]
    pub open spec fn poll_idle(self, operation: Option<Operation>) -> Outcome<T> {
        match operation {
            Some(Operation::QueryState) => self.poll(true),
            Some(Operation::StartPrint { file_data }) => self.ask(
                Phase::Loading,
                false,
                Action::LoadJob(file_data),
            ),
            Some(Operation::ManualCommand { command }) => self.command(
                Command::Manual(command),
                Phase::Commanding,
                false,
            ),
            Some(Operation::ManualHome) => self.command(Command::Home, Phase::Commanding, false),
            Some(Operation::ManualMove { z }) => self.command(
                Command::MoveZ {
                    z: capped(z, self.config.max_z),
                    speed: self.config.default_up_speed,
                },
                Phase::Commanding,
                false,
            ),
            Some(Operation::ManualCure { cure }) => self.command(
                if cure {
                    Command::StartCure
                } else {
                    Command::StopCure
                },
                Phase::Commanding,
                false,
            ),
            Some(Operation::ManualDisplayTest { test }) => self.ask(
                Phase::Showing,
                false,
                Action::DisplayTest(test),
            ),
            Some(Operation::ManualDisplayLayer { file_data, layer }) => self.ask(
                Phase::Showing,
                false,
                Action::DisplayLayer { file_data, layer },
            ),
            Some(Operation::Shutdown) => self.halt(false),
            Some(_) => self.poll(false),
            None => self.ask(Phase::Resting, false, Action::Sleep(IDLE_TICK)),
        }
    }

    /// A poll while a job runs.
    #[verifier::opaque]
    pub open spec fn poll_printing(self, operation: Option<Operation>) -> Outcome<T> {
        match self.state {
            PrinterState::Printing { job, layer, paused, physical } => match operation {
                Some(Operation::PausePrint) => PrinterView {
                    state: self.state.with_paused(true),
                    ..self
                }.command(
                    Command::MoveZ {
                        z: pause_height(
                            physical.z_microns,
                            self.config.pause_lift,
                            self.config.max_z,
                        ),
                        speed: self.config.default_up_speed,
                    },
                    Phase::Commanding,
                    true,
                ),
                Some(Operation::ResumePrint) => PrinterView {
                    state: self.state.with_paused(false),
                    ..self
                }.poll(true),
                Some(Operation::StopPrint) => PrinterView {
                    state: PrinterState::Idle { physical },
                    exposure: None,
                    ..self
                }.poll(true),
                Some(Operation::QueryState) => self.poll(true),
                Some(Operation::Shutdown) => self.halt(false),
                Some(Operation::ManualMove { z }) => if paused {
                    self.command(
                        Command::MoveZ {
                            z: jog_height(
                                z,
                                layer_floor(layer, job.layer_height_microns),
                                self.config.max_z,
                            ),
                            speed: self.config.default_up_speed,
                        },
                        Phase::Commanding,
                        false,
                    )
                } else {
                    self.poll(false)
                },
                Some(_) => self.poll(false),
                None => if paused {
                    self.ask(Phase::Resting, false, Action::Sleep(PAUSE_TICK))
                } else if self.exposure is Some {
                    PrinterView {
                        hardware: T::with_variable(
                            self.hardware,
                            "layer"@,
                            decimal_digits(layer as nat),
                        ),
                        ..self
                    }.ask(
                        Phase::Layer(Stage::Prefetch),
                        false,
                        Action::Prefetch((layer + 1) as usize),
                    )
                } else {
                    self.command(Command::EndPrint, Phase::Ending, false)
                },
            },
            _ => self.ignore(),
        }
    }

    /// A job file was read. A job that fits is started: the state becomes
    /// printing at layer zero, `total_layers` is set and the start-of-print
    /// command is issued. A file that could not be read, or a job that does
    /// not fit, leaves the printer idle.
    #[verifier::opaque]
    pub open spec fn load(self, job: Option<Job>) -> Outcome<T> {
        match (job, self.state) {
            (Some(job), PrinterState::Idle { physical }) => if job.fits(self.config) {
                PrinterView {
                    state: PrinterState::Printing {
                        job: job.metadata,
                        layer: 0,
                        paused: false,
                        physical,
                    },
                    motion: job.motion(self.config),
                    exposure: None,
                    hardware: T::with_variable(
                        self.hardware,
                        "total_layers"@,
                        decimal_digits(job.metadata.layer_count as nat),
                    ),
                    ..self
                }.command(Command::StartPrint, Phase::Starting, false)
            } else {
                self.poll(false)
            },
            _ => self.poll(false),
        }
    }

    /// A frame arrived for layer `layer`: it is kept where the job has that
    /// layer.
    pub open spec fn frame_for(self, layer: int, exposure: Option<u64>) -> Option<u64> {
        match self.state {
            PrinterState::Printing { job, .. } => if layer < job.layer_count {
                exposure
            } else {
                None
            },
            _ => None,
        }
    }

    /// The step of the current layer that follows `stage`, on the event that
    /// `stage` waits for.
    #[verifier::opaque]
    pub open spec fn layer_step(self, stage: Stage, event: Event) -> Outcome<T> {
        match self.state {
            PrinterState::Printing { job, layer, .. } => {
                let top = layer_top(layer, job.layer_height_microns);
                match (stage, event) {
                    (Stage::Prefetch, Event::Done) => self.command(
                        Command::StartLayer(layer),
                        Phase::Layer(Stage::StartLayer),
                        false,
                    ),
                    (Stage::StartLayer, Event::Completed(true)) => self.synced().command(
                        Command::MoveZ {
                            z: (top + self.motion.lift) as u32,
                            speed: self.motion.up_speed,
                        },
                        Phase::Layer(Stage::Lift),
                        true,
                    ),
                    (Stage::Lift, Event::Completed(true)) => self.synced().command(
                        Command::MoveZ { z: top as u32, speed: self.motion.down_speed },
                        Phase::Layer(Stage::Seat),
                        true,
                    ),
                    (Stage::Seat, Event::Completed(true)) => self.synced().ask(
                        Phase::Layer(Stage::WaitBefore),
                        true,
                        Action::Sleep(self.motion.wait_before_exposure),
                    ),
                    (Stage::WaitBefore, Event::Done) => self.ask(
                        Phase::Layer(Stage::Display),
                        false,
                        Action::Display,
                    ),
                    (Stage::Display, Event::Done) => self.command(
                        Command::StartCure,
                        Phase::Layer(Stage::StartCure),
                        false,
                    ),
                    (Stage::StartCure, Event::Completed(true)) => self.synced().ask(
                        Phase::Layer(Stage::Expose),
                        true,
                        Action::Sleep(
                            match self.exposure {
                                Some(exposure) => exposure,
                                None => 0,
                            },
                        ),
                    ),
                    (Stage::Expose, Event::Done) => self.command(
                        Command::StopCure,
                        Phase::Layer(Stage::StopCure),
                        false,
                    ),
                    (Stage::StopCure, Event::Completed(true)) => self.synced().ask(
                        Phase::Layer(Stage::WaitAfter),
                        true,
                        Action::Sleep(self.motion.wait_after_exposure),
                    ),
                    (Stage::WaitAfter, Event::Done) => self.ask(
                        Phase::Layer(Stage::Collect),
                        false,
                        Action::Collect,
                    ),
                    (Stage::Collect, Event::FrameLoaded(exposure)) => PrinterView {
                        state: self.state.with_layer((layer + 1) as usize),
                        exposure: self.frame_for(layer + 1, exposure),
                        ..self
                    }.poll(true),
                    (Stage::StartLayer, Event::Completed(false)) => self.halt(false),
                    (Stage::Lift, Event::Completed(false)) => self.halt(false),
                    (Stage::Seat, Event::Completed(false)) => self.halt(false),
                    (Stage::StartCure, Event::Completed(false)) => self.halt(false),
                    (Stage::StopCure, Event::Completed(false)) => self.halt(false),
                    _ => self.ignore(),
                }
            },
            _ => self.ignore(),
        }
    }

    /// The job has ended: its substitutions are taken away and the printer
    /// is idle at the pose of the controller.
    pub open spec fn ended(self) -> Outcome<T> {
        PrinterView {
            state: PrinterState::Idle { physical: self.pose() },
            exposure: None,
            hardware: T::without_variable(
                T::without_variable(self.hardware, "total_layers"@),
                "layer"@,
            ),
            ..self
        }.poll(true)
    }

    /// The controller has booted: the printer is idle at the pose of the
    /// controller.
    pub open spec fn booted(self) -> Outcome<T> {
        PrinterView {
            state: PrinterState::Idle { physical: self.pose() },
            ..self
        }.poll(true)
    }

    /// The machine polled the queue, or rests between polls.
    pub open spec fn polled(self, event: Event) -> Outcome<T> {
        match event {
            Event::Cancelled => self.cancel(),
            Event::Operation(operation) => if self.phase == Phase::Polling {
                match self.state {
                    PrinterState::Shutdown => self.poll_shutdown(operation),
                    PrinterState::Idle { .. } => self.poll_idle(operation),
                    PrinterState::Printing { .. } => self.poll_printing(operation),
                }
            } else {
                self.ignore()
            },
            Event::Done => if self.phase == Phase::Resting {
                self.poll(false)
            } else {
                self.ignore()
            },
            _ => self.ignore(),
        }
    }

    /// A command is under way whose success is followed by `success`; its
    /// failure sets the machine out for shutdown.
    pub open spec fn completed(self, event: Event, success: Outcome<T>) -> Outcome<T> {
        match event {
            Event::Completed(true) => success,
            Event::Completed(false) => self.halt(false),
            _ => self.ignore(),
        }
    }

    /// While shut down, the controller answered the probe: when it is ready
    /// it is booted, else the machine rests before it polls again.
    pub open spec fn probed(self, event: Event) -> Outcome<T> {
        match event {
            Event::Completed(true) => self.command(Command::Boot, Phase::Booting, false),
            Event::Completed(false) => self.ask(
                Phase::Resting,
                false,
                Action::Sleep(PROBE_TICK),
            ),
            _ => self.ignore(),
        }
    }

    /// The machine after the events `events`, first to last.
    pub open spec fn run(self, events: Seq<Event>) -> PrinterView<T>
        decreases events.len(),
    {
        if events.len() == 0 {
            self
        } else {
            self.run(events.drop_last()).step(events.last()).next
        }
    }

    /// What the machine does on `event`.
    #[verifier::opaque]
    pub open spec fn step(self, event: Event) -> Outcome<T> {
        match self.phase {
            Phase::Finished => Outcome { next: self, publish: false, action: Action::Exit },
            Phase::Polling => self.polled(event),
            Phase::Resting => self.polled(event),
            Phase::Commanding => self.completed(event, self.synced().poll(true)),
            Phase::Showing => match event {
                Event::Done => self.poll(false),
                _ => self.ignore(),
            },
            Phase::Loading => match event {
                Event::JobLoaded(job) => self.load(job),
                _ => self.ignore(),
            },
            Phase::Probing => self.probed(event),
            Phase::Booting => self.completed(event, self.booted()),
            Phase::Starting => self.completed(
                event,
                self.synced().ask(Phase::Opening, true, Action::Fetch(0)),
            ),
            Phase::Opening => match event {
                Event::FrameLoaded(exposure) => PrinterView {
                    exposure: self.frame_for(0, exposure),
                    ..self
                }.poll(false),
                _ => self.ignore(),
            },
            Phase::Layer(stage) => self.layer_step(stage, event),
            Phase::Ending => self.completed(event, self.ended()),
            Phase::Stopping { exit } => match event {
                Event::Completed(_) => self.shut(exit),
                _ => self.ignore(),
            },
        }
    }
}

/// `step` is what `outcome` asks for, and `printer` the machine it leaves.
pub open spec fn is_outcome<T: HardwareControl>(
    printer: Printer<T>,
    step: Step,
    outcome: Outcome<T>,
) -> bool {
    &&& printer@ == outcome.next
    &&& step.publish == outcome.publish
    &&& step.directive@ == outcome.action
}

impl<T: HardwareControl> PrinterView<T> {
    /// The machine as it starts: shut down and polling, with the greatest
    /// height and the default lift among the substitutions, in millimetres.
    pub open spec fn started(config: PrinterConfig, hardware: T::V) -> PrinterView<T> {
        PrinterView {
            config,
            hardware: T::with_variable(
                T::with_variable(hardware, "max_z"@, thousandths_text(config.max_z as nat)),
                "z_lift"@,
                thousandths_text(config.default_lift as nat),
            ),
            state: PrinterState::Shutdown,
            phase: Phase::Polling,
            motion: Motion {
                lift: config.default_lift,
                up_speed: config.default_up_speed,
                down_speed: config.default_down_speed,
                wait_before_exposure: config.default_wait_before_exposure,
                wait_after_exposure: config.default_wait_after_exposure,
            },
            exposure: None,
        }
    }
}

proof fn lemma_product_bound(a: int, b: int, x: int, y: int)
    by (nonlinear_arith)
    requires
        0 <= a <= x,
        0 <= b <= y,
    ensures
        0 <= a * b <= x * y,
{
}

fn decimal_string(n: usize) -> (text: String)
    ensures
        text@ == decimal_digits(n as nat),
{
    let mut digits: Vec<char> = Vec::new();
    push_decimal(&mut digits, n as u64);
    string_of(digits.as_slice())
}

fn thousandths_string(n: u32) -> (text: String)
    ensures
        text@ == thousandths_text(n as nat),
{
    let digits = format_thousandths(n as u64);
    string_of(digits.as_slice())
}

fn pause_target(z: u32, lift: u32, max_z: u32) -> (target: u32)
    ensures
        target == pause_height(z, lift, max_z),
{
    if lift <= max_z && z <= max_z - lift {
        z + lift
    } else {
        max_z
    }
}

fn floor_of(layer: usize, height: u32) -> (floor: u32)
    ensures
        floor == layer_floor(layer, height),
{
    proof {
        lemma_product_bound(
            layer + 1,
            height as int,
            0x1_0000_0000_0000_0000,
            0x1_0000_0000,
        );
    }
    let top: u128 = (layer as u128 + 1) * (height as u128);
    if top <= u32::MAX as u128 {
        top as u32
    } else {
        u32::MAX
    }
}

impl Job {
    /// The motion settings that the job runs with under `config`.
    pub fn resolve(&self, config: &PrinterConfig) -> (motion: Motion)
        ensures
            motion == self.motion(*config),
    {
        Motion {
            lift: match self.lift {
                Some(lift) => lift,
                None => config.default_lift,
            },
            up_speed: match self.up_speed {
                Some(speed) => speed,
                None => config.default_up_speed,
            },
            down_speed: match self.down_speed {
                Some(speed) => speed,
                None => config.default_down_speed,
            },
            wait_before_exposure: match self.wait_before_exposure {
                Some(wait) => wait,
                None => config.default_wait_before_exposure,
            },
            wait_after_exposure: match self.wait_after_exposure {
                Some(wait) => wait,
                None => config.default_wait_after_exposure,
            },
        }
    }

    /// The job that a print file holds: what the file says of itself, and
    /// the motion settings it brings.
    pub fn from_file(file: &Sl1) -> (job: Job)
        ensures
            job == (Job {
                metadata: file.metadata,
                lift: None,
                up_speed: None,
                down_speed: None,
                wait_before_exposure: None,
                wait_after_exposure: None,
            }),
    {
        Job {
            metadata: file.get_metadata(),
            lift: file.get_lift(),
            up_speed: file.get_up_speed(),
            down_speed: file.get_down_speed(),
            wait_before_exposure: file.get_wait_before_exposure(),
            wait_after_exposure: file.get_wait_after_exposure(),
        }
    }

    /// Whether no height that the job sends the plate to lies above the
    /// greatest height.
    pub fn is_valid(&self, config: &PrinterConfig) -> (valid: bool)
        ensures
            valid == self.fits(*config),
    {
        let motion = self.resolve(config);
        proof {
            lemma_product_bound(
                self.metadata.layer_count as int,
                self.metadata.layer_height_microns as int,
                0x1_0000_0000_0000_0000,
                0x1_0000_0000,
            );
        }
        let tops: u128 = (self.metadata.layer_count as u128) * (
        self.metadata.layer_height_microns as u128);
        tops + (motion.lift as u128) <= config.max_z as u128
    }
}

/// Issuing a command changes neither the state nor the job's settings, and
/// leaves the machine waiting in the phase named or, where the template
/// could not be rendered, finished.
pub proof fn lemma_command_keeps<T: HardwareControl>()
    ensures
        forall|view: PrinterView<T>, command: Command, phase: Phase, publish: bool|
            {
                let issued = #[trigger] view.command(command, phase, publish);
                &&& issued.next.state == view.state
                &&& issued.next.motion == view.motion
                &&& issued.next.exposure == view.exposure
                &&& issued.next.config == view.config
                &&& issued.publish == publish
                &&& issued.action is Send ==> issued.action->Send_command == command
                    && issued.next.phase == phase
                &&& issued.action is Fail ==> issued.next.phase == Phase::Finished
                &&& issued.action is Send || issued.action is Fail
            },
{
    reveal(PrinterView::command);
}

/// Issuing a command leaves the controller with the pose that the command
/// gives it, whether or not its template could be rendered; setting a
/// substitution or taking one away leaves the pose as it is.
pub proof fn lemma_command_pose<T: HardwareControl>()
    ensures
        forall|view: PrinterView<T>, command: Command, phase: Phase, publish: bool|
            (#[trigger] view.command(command, phase, publish)).next.pose() == pose_after(
                view.pose(),
                command,
            ),
        forall|model: T::V, name: Seq<char>, value: Seq<char>|
            T::pose_of(#[trigger] T::with_variable(model, name, value)) == T::pose_of(model),
        forall|model: T::V, name: Seq<char>|
            T::pose_of(#[trigger] T::without_variable(model, name)) == T::pose_of(model),
{
    reveal(PrinterView::command);
    assert forall|view: PrinterView<T>, command: Command, phase: Phase, publish: bool|
        (#[trigger] view.command(command, phase, publish)).next.pose() == pose_after(
            view.pose(),
            command,
        ) by {
        T::lemma_controller(view.hardware, command, Seq::empty(), Seq::empty());
    }
    assert forall|model: T::V, name: Seq<char>, value: Seq<char>|
        T::pose_of(#[trigger] T::with_variable(model, name, value)) == T::pose_of(model) by {
        T::lemma_controller(model, Command::Home, name, value);
    }
    assert forall|model: T::V, name: Seq<char>|
        T::pose_of(#[trigger] T::without_variable(model, name)) == T::pose_of(model) by {
        T::lemma_controller(model, Command::Home, name, Seq::empty());
    }
}

proof fn lemma_polled_well_formed<T: HardwareControl>(view: PrinterView<T>, event: Event)
    requires
        view.wf(),
        view.phase == Phase::Polling || view.phase == Phase::Resting,
    ensures
        view.polled(event).next.wf(),
{
    reveal(PrinterView::poll_idle);
    reveal(PrinterView::poll_printing);
    lemma_command_keeps::<T>();
}

proof fn lemma_layer_well_formed<T: HardwareControl>(view: PrinterView<T>, stage: Stage, event: Event)
    requires
        view.wf(),
        view.phase == Phase::Layer(stage),
    ensures
        view.layer_step(stage, event).next.wf(),
{
    reveal(PrinterView::layer_step);
    lemma_command_keeps::<T>();
}

proof fn lemma_completed_well_formed<T: HardwareControl>(view: PrinterView<T>, event: Event, success: Outcome<T>)
    requires
        view.wf(),
        success.next.wf(),
    ensures
        view.completed(event, success).next.wf(),
{
    lemma_command_keeps::<T>();
}

proof fn lemma_load_well_formed<T: HardwareControl>(view: PrinterView<T>, job: Option<Job>)
    requires
        view.wf(),
        view.phase == Phase::Loading,
    ensures
        view.load(job).next.wf(),
{
    reveal(PrinterView::load);
    lemma_command_keeps::<T>();
}

/// Every step leaves the machine well formed.
pub proof fn lemma_step_well_formed<T: HardwareControl>(view: PrinterView<T>, event: Event)
    requires
        view.wf(),
    ensures
        view.step(event).next.wf(),
{
    reveal(PrinterView::step);
    lemma_command_keeps::<T>();
    match view.phase {
        Phase::Finished => {},
        Phase::Polling => {
            lemma_polled_well_formed(view, event);
        },
        Phase::Resting => {
            lemma_polled_well_formed(view, event);
        },
        Phase::Commanding => {
            lemma_completed_well_formed(view, event, view.synced().poll(true));
        },
        Phase::Showing => {},
        Phase::Loading => {
            match event {
                Event::JobLoaded(job) => {
                    lemma_load_well_formed(view, job);
                },
                _ => {},
            }
        },
        Phase::Probing => {},
        Phase::Booting => {
            lemma_completed_well_formed(view, event, view.booted());
        },
        Phase::Starting => {
            lemma_completed_well_formed(
                view,
                event,
                view.synced().ask(Phase::Opening, true, Action::Fetch(0)),
            );
        },
        Phase::Opening => {},
        Phase::Layer(stage) => {
            lemma_layer_well_formed(view, stage, event);
        },
        Phase::Ending => {
            lemma_completed_well_formed(view, event, view.ended());
        },
        Phase::Stopping { exit } => {},
    }
}

impl<T: HardwareControl> Printer<T> {
    /// The orchestrator as it starts: shut down, with the greatest height
    /// and the default lift made known to the controller's templates.
    pub fn start_printer(config: PrinterConfig, hardware_controller: T) -> (printer: Printer<T>)
        ensures
            printer@ == PrinterView::<T>::started(config, hardware_controller@),
            printer@.wf(),
    {
        let mut hardware_controller = hardware_controller;
        hardware_controller.add_print_variable(
            String::from_str("max_z"),
            thousandths_string(config.max_z),
        );
        hardware_controller.add_print_variable(
            String::from_str("z_lift"),
            thousandths_string(config.default_lift),
        );
        let motion = Motion {
            lift: config.default_lift,
            up_speed: config.default_up_speed,
            down_speed: config.default_down_speed,
            wait_before_exposure: config.default_wait_before_exposure,
            wait_after_exposure: config.default_wait_after_exposure,
        };
        Printer {
            config,
            hardware_controller,
            state: PrinterState::Shutdown,
            phase: Phase::Polling,
            motion,
            exposure: None,
        }
    }

    /// Begins the run of the machine: the first thing to do is to poll.
    pub fn start_statemachine(&mut self) -> (step: Step)
        ensures
            is_outcome(*final(self), step, old(self)@.poll(false)),
    {
        self.poll(false)
    }

    fn ask(&mut self, phase: Phase, publish: bool, directive: Directive) -> (step: Step)
        ensures
            is_outcome(*final(self), step, old(self)@.ask(phase, publish, directive@)),
    {
        self.phase = phase;
        Step { publish, directive }
    }

    fn poll(&mut self, publish: bool) -> (step: Step)
        ensures
            is_outcome(*final(self), step, old(self)@.poll(publish)),
    {
        self.ask(Phase::Polling, publish, Directive::Poll)
    }

    fn ignore(&mut self) -> (step: Step)
        ensures
            is_outcome(*final(self), step, old(self)@.ignore()),
    {
        Step { publish: false, directive: Directive::Wait }
    }

    fn command(&mut self, command: Command, phase: Phase, publish: bool) -> (step: Step)
        ensures
            is_outcome(*final(self), step, old(self)@.command(command, phase, publish)),
    {
        proof {
            reveal(PrinterView::command);
        }
        match self.hardware_controller.issue(&command) {
            Ok(request) => self.ask(phase, publish, Directive::Send { command, request }),
            Err(e) => self.ask(Phase::Finished, publish, Directive::Fail(e)),
        }
    }

    /// Takes the pose of the controller into the state.
    fn update_physical_state(&mut self)
        ensures
            final(self)@ == old(self)@.synced(),
    {
        let physical = self.hardware_controller.get_physical_state();
        let mut state = PrinterState::Shutdown;
        core::mem::swap(&mut self.state, &mut state);
        self.state = match state {
            PrinterState::Shutdown => PrinterState::Shutdown,
            PrinterState::Idle { .. } => PrinterState::Idle { physical },
            PrinterState::Printing { job, layer, paused, .. } => PrinterState::Printing {
                job,
                layer,
                paused,
                physical,
            },
        };
    }

    /// Pauses or resumes the running job.
    fn update_paused(&mut self, new_pause: bool)
        ensures
            final(self)@ == (PrinterView {
                state: old(self)@.state.with_paused(new_pause),
                ..old(self)@
            }),
    {
        let mut state = PrinterState::Shutdown;
        core::mem::swap(&mut self.state, &mut state);
        self.state = match state {
            PrinterState::Printing { job, layer, physical, .. } => PrinterState::Printing {
                job,
                layer,
                paused: new_pause,
                physical,
            },
            other => other,
        };
    }

    /// Moves the running job to layer `new_layer`.
    fn update_layer(&mut self, new_layer: usize)
        ensures
            final(self)@ == (PrinterView {
                state: old(self)@.state.with_layer(new_layer),
                ..old(self)@
            }),
    {
        let mut state = PrinterState::Shutdown;
        core::mem::swap(&mut self.state, &mut state);
        self.state = match state {
            PrinterState::Printing { job, paused, physical, .. } => PrinterState::Printing {
                job,
                layer: new_layer,
                paused,
                physical,
            },
            other => other,
        };
    }

    /// Makes the printer idle at the pose `physical`.
    fn update_idle_state(&mut self, physical: PhysicalState)
        ensures
            final(self)@ == (PrinterView {
                state: PrinterState::Idle { physical },
                ..old(self)@
            }),
    {
        self.state = PrinterState::Idle { physical };
    }

    /// Sets out for shutdown: the controller is told to shut down, and
    /// whatever becomes of that command the printer is shut down after it.
    /// With `exit` the machine ends once it is shut down.
    pub fn shutdown(&mut self, exit: bool) -> (step: Step)
        ensures
            is_outcome(*final(self), step, old(self)@.halt(exit)),
    {
        self.command(Command::Shutdown, Phase::Stopping { exit }, false)
    }

    fn shut(&mut self, exit: bool) -> (step: Step)
        ensures
            is_outcome(*final(self), step, old(self)@.shut(exit)),
    {
        self.state = PrinterState::Shutdown;
        self.exposure = None;
        if exit {
            self.ask(Phase::Finished, true, Directive::Exit)
        } else {
            self.poll(true)
        }
    }

    fn cancel(&mut self) -> (step: Step)
        ensures
            is_outcome(*final(self), step, old(self)@.cancel()),
    {
        match self.state {
            PrinterState::Shutdown => self.ask(Phase::Finished, false, Directive::Exit),
            _ => self.shutdown(true),
        }
    }

    /// Boots the controller; once it has booted the printer is idle.
    pub fn boot(&mut self) -> (step: Step)
        ensures
            is_outcome(
                *final(self),
                step,
                old(self)@.command(Command::Boot, Phase::Booting, false),
            ),
    {
        self.command(Command::Boot, Phase::Booting, false)
    }

    /// An operation that arrives while the printer is shut down.
    pub fn shutdown_operation_handler(&mut self, operation: Option<Operation>) -> (step: Step)
        ensures
            is_outcome(*final(self), step, old(self)@.poll_shutdown(operation)),
    {
        match operation {
            Some(Operation::QueryState) => self.poll(true),
            Some(_) => self.poll(false),
            None => self.command(Command::Probe, Phase::Probing, false),
        }
    }

    /// An operation that arrives while the printer is idle.
    pub fn idle_operation_handler(&mut self, operation: Option<Operation>) -> (step: Step)
        ensures
            is_outcome(*final(self), step, old(self)@.poll_idle(operation)),
    {
        proof {
            reveal(PrinterView::poll_idle);
        }
        match operation {
            Some(Operation::QueryState) => self.poll(true),
            Some(Operation::StartPrint { file_data }) => self.ask(
                Phase::Loading,
                false,
                Directive::LoadJob(file_data),
            ),
            Some(Operation::ManualCommand { command }) => self.command(
                Command::Manual(command),
                Phase::Commanding,
                false,
            ),
            Some(Operation::ManualHome) => self.command(Command::Home, Phase::Commanding, false),
            Some(Operation::ManualMove { z }) => {
                let target = if z <= self.config.max_z {
                    z
                } else {
                    self.config.max_z
                };
                let speed = self.config.default_up_speed;
                self.command(Command::MoveZ { z: target, speed }, Phase::Commanding, false)
            },
            Some(Operation::ManualCure { cure }) => {
                if cure {
                    self.command(Command::StartCure, Phase::Commanding, false)
                } else {
                    self.command(Command::StopCure, Phase::Commanding, false)
                }
            },
            Some(Operation::ManualDisplayTest { test }) => self.ask(
                Phase::Showing,
                false,
                Directive::DisplayTest(test),
            ),
            Some(Operation::ManualDisplayLayer { file_data, layer }) => self.ask(
                Phase::Showing,
                false,
                Directive::DisplayLayer { file_data, layer },
            ),
            Some(Operation::Shutdown) => self.shutdown(false),
            Some(_) => self.poll(false),
            None => self.ask(Phase::Resting, false, Directive::Sleep(IDLE_TICK)),
        }
    }

    /// Pauses the job and lifts the plate so that the print can be looked
    /// at: by the configured lift above where the state has it, but not
    /// above the greatest height.
    pub fn pause_print(&mut self) -> (step: Step)
        ensures
            is_outcome(
                *final(self),
                step,
                (PrinterView { state: old(self)@.state.with_paused(true), ..old(self)@ }).command(
                    Command::MoveZ {
                        z: pause_height(
                            old(self).state.spec_physical().z_microns,
                            old(self).config.pause_lift,
                            old(self).config.max_z,
                        ),
                        speed: old(self).config.default_up_speed,
                    },
                    Phase::Commanding,
                    true,
                ),
            ),
    {
        let z = self.state.physical().z_microns;
        self.update_paused(true);
        let target = pause_target(z, self.config.pause_lift, self.config.max_z);
        let speed = self.config.default_up_speed;
        self.command(Command::MoveZ { z: target, speed }, Phase::Commanding, true)
    }

    /// Moves the plate of a paused job to `z`, but never below the top of
    /// the current layer and never above the greatest height. A job that is
    /// not paused is not moved.
    pub fn paused_move(&mut self, z: u32) -> (step: Step)
        ensures
            is_outcome(
                *final(self),
                step,
                match old(self).state {
                    PrinterState::Printing { job, layer, paused, .. } => if paused {
                        old(self)@.command(
                            Command::MoveZ {
                                z: jog_height(
                                    z,
                                    layer_floor(layer, job.layer_height_microns),
                                    old(self).config.max_z,
                                ),
                                speed: old(self).config.default_up_speed,
                            },
                            Phase::Commanding,
                            false,
                        )
                    } else {
                        old(self)@.poll(false)
                    },
                    _ => old(self)@.poll(false),
                },
            ),
    {
        let (layer, height) = match &self.state {
            PrinterState::Printing { job, layer, paused, .. } => {
                if !*paused {
                    return self.poll(false);
                }
                (*layer, job.layer_height_microns)
            },
            _ => {
                return self.poll(false);
            },
        };
        let floor = floor_of(layer, height);
        let raised = if z >= floor {
            z
        } else {
            floor
        };
        let target = if raised <= self.config.max_z {
            raised
        } else {
            self.config.max_z
        };
        let speed = self.config.default_up_speed;
        self.command(Command::MoveZ { z: target, speed }, Phase::Commanding, false)
    }

    /// Ends the job at the operator's word: the printer is idle where it
    /// stands.
    fn set_idle(&mut self, physical: PhysicalState) -> (step: Step)
        ensures
            is_outcome(
                *final(self),
                step,
                (PrinterView {
                    state: PrinterState::Idle { physical },
                    exposure: None,
                    ..old(self)@
                }).poll(true),
            ),
    {
        self.update_idle_state(physical);
        self.exposure = None;
        self.poll(true)
    }

    /// An operation that arrives while a job runs.
    pub fn printing_operation_handler(&mut self, operation: Option<Operation>) -> (step: Step)
        requires
            old(self)@.wf(),
        ensures
            is_outcome(*final(self), step, old(self)@.poll_printing(operation)),
    {
        proof {
            reveal(PrinterView::poll_printing);
        }
        let (layer, paused, physical, height) = match &self.state {
            PrinterState::Printing { job, layer, paused, physical } => (
                *layer,
                *paused,
                *physical,
                job.layer_height_microns,
            ),
            _ => {
                return self.ignore();
            },
        };
        match operation {
            Some(Operation::PausePrint) => self.pause_print(),
            Some(Operation::ResumePrint) => {
                self.update_paused(false);
                self.poll(true)
            },
            Some(Operation::StopPrint) => self.set_idle(physical),
            Some(Operation::QueryState) => self.poll(true),
            Some(Operation::Shutdown) => self.shutdown(false),
            Some(Operation::ManualMove { z }) => self.paused_move(z),
            Some(_) => self.poll(false),
            None => {
                if paused {
                    self.ask(Phase::Resting, false, Directive::Sleep(PAUSE_TICK))
                } else if self.exposure.is_some() {
                    self.hardware_controller.add_print_variable(
                        String::from_str("layer"),
                        decimal_string(layer),
                    );
                    self.ask(Phase::Layer(Stage::Prefetch), false, Directive::Prefetch(layer + 1))
                } else {
                    self.end_print()
                }
            },
        }
    }

    /// Issues the end-of-print command.
    fn end_print(&mut self) -> (step: Step)
        ensures
            is_outcome(
                *final(self),
                step,
                old(self)@.command(Command::EndPrint, Phase::Ending, false),
            ),
    {
        self.command(Command::EndPrint, Phase::Ending, false)
    }

    /// Starts the job that was read from its file, or leaves the printer
    /// idle when there is none or it does not fit.
    pub fn start_print(&mut self, job: Option<Job>) -> (step: Step)
        ensures
            is_outcome(*final(self), step, old(self)@.load(job)),
    {
        proof {
            reveal(PrinterView::load);
        }
        let physical = match &self.state {
            PrinterState::Idle { physical } => *physical,
            _ => {
                return self.poll(false);
            },
        };
        match job {
            Some(job) => {
                if job.is_valid(&self.config) {
                    self.enter_printing_state(job, physical)
                } else {
                    self.poll(false)
                }
            },
            None => self.poll(false),
        }
    }

    /// Enters the printing state at layer zero and issues the
    /// start-of-print command.
    fn enter_printing_state(&mut self, job: Job, physical: PhysicalState) -> (step: Step)
        ensures
            is_outcome(
                *final(self),
                step,
                (PrinterView {
                    state: PrinterState::Printing {
                        job: job.metadata,
                        layer: 0,
                        paused: false,
                        physical,
                    },
                    motion: job.motion(old(self).config),
                    exposure: None,
                    hardware: T::with_variable(
                        old(self)@.hardware,
                        "total_layers"@,
                        decimal_digits(job.metadata.layer_count as nat),
                    ),
                    ..old(self)@
                }).command(Command::StartPrint, Phase::Starting, false),
            ),
    {
        self.motion = job.resolve(&self.config);
        self.exposure = None;
        self.hardware_controller.add_print_variable(
            String::from_str("total_layers"),
            decimal_string(job.metadata.layer_count),
        );
        self.state = PrinterState::Printing {
            job: job.metadata,
            layer: 0,
            paused: false,
            physical,
        };
        self.command(Command::StartPrint, Phase::Starting, false)
    }

    /// Keeps the frame that arrived for layer `layer`, where the job has
    /// that layer.
    fn keep_frame(&mut self, layer: usize, count: usize, exposure: Option<u64>)
        ensures
            final(self)@ == (PrinterView {
                exposure: if layer < count {
                    exposure
                } else {
                    None
                },
                ..old(self)@
            }),
    {
        self.exposure = if layer < count {
            exposure
        } else {
            None
        };
    }

    /// One step of the current layer: start of layer, lift, seat, rest,
    /// display, cure on, exposure, cure off, rest, and the next frame.
    pub fn print_frame(&mut self, stage: Stage, event: Event) -> (step: Step)
        requires
            old(self)@.wf(),
            old(self).phase == Phase::Layer(stage),
        ensures
            is_outcome(*final(self), step, old(self)@.layer_step(stage, event)),
    {
        proof {
            reveal(PrinterView::layer_step);
        }
        let (layer, height, count) = match &self.state {
            PrinterState::Printing { job, layer, .. } => (
                *layer,
                job.layer_height_microns,
                job.layer_count,
            ),
            _ => {
                return self.ignore();
            },
        };
        let lift = self.motion.lift;
        proof {
            lemma_product_bound(layer + 1, height as int, count as int, height as int);
        }
        let top: u32 = ((layer as u64 + 1) * (height as u64)) as u32;
        match (stage, event) {
            (Stage::Prefetch, Event::Done) => self.command(
                Command::StartLayer(layer),
                Phase::Layer(Stage::StartLayer),
                false,
            ),
            (Stage::StartLayer, Event::Completed(true)) => {
                self.update_physical_state();
                let speed = self.motion.up_speed;
                self.command(
                    Command::MoveZ { z: top + lift, speed },
                    Phase::Layer(Stage::Lift),
                    true,
                )
            },
            (Stage::Lift, Event::Completed(true)) => {
                self.update_physical_state();
                let speed = self.motion.down_speed;
                self.command(Command::MoveZ { z: top, speed }, Phase::Layer(Stage::Seat), true)
            },
            (Stage::Seat, Event::Completed(true)) => {
                self.update_physical_state();
                let wait = self.motion.wait_before_exposure;
                self.ask(Phase::Layer(Stage::WaitBefore), true, Directive::Sleep(wait))
            },
            (Stage::WaitBefore, Event::Done) => self.ask(
                Phase::Layer(Stage::Display),
                false,
                Directive::Display,
            ),
            (Stage::Display, Event::Done) => self.command(
                Command::StartCure,
                Phase::Layer(Stage::StartCure),
                false,
            ),
            (Stage::StartCure, Event::Completed(true)) => {
                self.update_physical_state();
                let exposure = match self.exposure {
                    Some(exposure) => exposure,
                    None => 0,
                };
                self.ask(Phase::Layer(Stage::Expose), true, Directive::Sleep(exposure))
            },
            (Stage::Expose, Event::Done) => self.command(
                Command::StopCure,
                Phase::Layer(Stage::StopCure),
                false,
            ),
            (Stage::StopCure, Event::Completed(true)) => {
                self.update_physical_state();
                let wait = self.motion.wait_after_exposure;
                self.ask(Phase::Layer(Stage::WaitAfter), true, Directive::Sleep(wait))
            },
            (Stage::WaitAfter, Event::Done) => self.ask(
                Phase::Layer(Stage::Collect),
                false,
                Directive::Collect,
            ),
            (Stage::Collect, Event::FrameLoaded(exposure)) => {
                self.update_layer(layer + 1);
                self.keep_frame(layer + 1, count, exposure);
                self.poll(true)
            },
            (Stage::StartLayer, Event::Completed(false)) => self.shutdown(false),
            (Stage::Lift, Event::Completed(false)) => self.shutdown(false),
            (Stage::Seat, Event::Completed(false)) => self.shutdown(false),
            (Stage::StartCure, Event::Completed(false)) => self.shutdown(false),
            (Stage::StopCure, Event::Completed(false)) => self.shutdown(false),
            _ => self.ignore(),
        }
    }

    /// The job has ended: its substitutions are taken away and the printer
    /// is idle.
    fn finish_print(&mut self) -> (step: Step)
        ensures
            is_outcome(*final(self), step, old(self)@.ended()),
    {
        proof {
            lemma_command_pose::<T>();
        }
        self.hardware_controller.remove_print_variable(String::from_str("total_layers"));
        self.hardware_controller.remove_print_variable(String::from_str("layer"));
        let physical = self.hardware_controller.get_physical_state();
        self.update_idle_state(physical);
        self.exposure = None;
        self.poll(true)
    }

    /// An event that arrives while a job runs.
    pub fn print_event_loop(&mut self, event: Event) -> (step: Step)
        requires
            old(self)@.wf(),
            old(self).state is Printing,
        ensures
            is_outcome(*final(self), step, old(self)@.step(event)),
            final(self)@.wf(),
    {
        self.step(event)
    }

    /// Takes the outcome of what was asked for last and says what to do
    /// next.
    pub fn step(&mut self, event: Event) -> (step: Step)
        requires
            old(self)@.wf(),
        ensures
            is_outcome(*final(self), step, old(self)@.step(event)),
            final(self)@.wf(),
    {
        proof {
            lemma_step_well_formed(self@, event);
        }
        self.advance(event)
    }

    fn advance(&mut self, event: Event) -> (step: Step)
        requires
            old(self)@.wf(),
        ensures
            is_outcome(*final(self), step, old(self)@.step(event)),
    {
        proof {
            reveal(PrinterView::step);
        }
        match self.phase {
            Phase::Finished => Step { publish: false, directive: Directive::Exit },
            Phase::Polling => self.polled(event),
            Phase::Resting => self.polled(event),
            Phase::Commanding => match event {
                Event::Completed(true) => {
                    self.update_physical_state();
                    self.poll(true)
                },
                Event::Completed(false) => self.shutdown(false),
                _ => self.ignore(),
            },
            Phase::Showing => match event {
                Event::Done => self.poll(false),
                _ => self.ignore(),
            },
            Phase::Loading => match event {
                Event::JobLoaded(job) => self.start_print(job),
                _ => self.ignore(),
            },
            Phase::Probing => match event {
                Event::Completed(true) => self.boot(),
                Event::Completed(false) => self.ask(
                    Phase::Resting,
                    false,
                    Directive::Sleep(PROBE_TICK),
                ),
                _ => self.ignore(),
            },
            Phase::Booting => match event {
                Event::Completed(true) => {
                    let physical = self.hardware_controller.get_physical_state();
                    self.update_idle_state(physical);
                    self.poll(true)
                },
                Event::Completed(false) => self.shutdown(false),
                _ => self.ignore(),
            },
            Phase::Starting => match event {
                Event::Completed(true) => {
                    self.update_physical_state();
                    self.ask(Phase::Opening, true, Directive::Fetch(0))
                },
                Event::Completed(false) => self.shutdown(false),
                _ => self.ignore(),
            },
            Phase::Opening => match event {
                Event::FrameLoaded(exposure) => {
                    let count = match &self.state {
                        PrinterState::Printing { job, .. } => job.layer_count,
                        _ => 0,
                    };
                    self.keep_frame(0, count, exposure);
                    self.poll(false)
                },
                _ => self.ignore(),
            },
            Phase::Layer(stage) => self.print_frame(stage, event),
            Phase::Ending => match event {
                Event::Completed(true) => self.finish_print(),
                Event::Completed(false) => self.shutdown(false),
                _ => self.ignore(),
            },
            Phase::Stopping { exit } => match event {
                Event::Completed(_) => self.shut(exit),
                _ => self.ignore(),
            },
        }
    }

    /// An event that arrives while the machine polls or rests.
    fn polled(&mut self, event: Event) -> (step: Step)
        requires
            old(self)@.wf(),
        ensures
            is_outcome(*final(self), step, old(self)@.polled(event)),
    {
        match event {
            Event::Cancelled => self.cancel(),
            Event::Operation(operation) => {
                if self.phase == Phase::Polling {
                    match self.state {
                        PrinterState::Shutdown => self.shutdown_operation_handler(operation),
                        PrinterState::Idle { .. } => self.idle_operation_handler(operation),
                        PrinterState::Printing { .. } => self.printing_operation_handler(
                            operation,
                        ),
                    }
                } else {
                    self.ignore()
                }
            },
            Event::Done => {
                if self.phase == Phase::Resting {
                    self.poll(false)
                } else {
                    self.ignore()
                }
            },
            _ => self.ignore(),
        }
    }
}

} // verus!
