//! What holds of every run of the print orchestrator.

use vstd::prelude::*;
use crate::api_objects::{PhysicalState, PrinterState};
use crate::configuration::PrinterConfig;
use crate::gcode::{moves_or_cures, pose_after, Command};
use crate::printer::{
    layer_top, lemma_command_keeps, lemma_command_pose, lemma_step_well_formed, pause_height,
    Action, Event, HardwareControl, Operation, Outcome, Phase, PrinterView, Stage,
};

verus! {

/// A request to the controller is under way, or the machine is on its way to
/// shutdown or has ended: the pose in the state may lag behind the
/// controller's.
pub open spec fn in_flight(phase: Phase) -> bool {
    match phase {
        Phase::Commanding => true,
        Phase::Probing => true,
        Phase::Booting => true,
        Phase::Starting => true,
        Phase::Ending => true,
        Phase::Layer(Stage::StartLayer) => true,
        Phase::Layer(Stage::Lift) => true,
        Phase::Layer(Stage::Seat) => true,
        Phase::Layer(Stage::StartCure) => true,
        Phase::Layer(Stage::StopCure) => true,
        Phase::Stopping { .. } => true,
        Phase::Finished => true,
        _ => false,
    }
}

/// Between requests, the pose in the state is the controller's.
pub open spec fn in_step<T: HardwareControl>(view: PrinterView<T>) -> bool {
    ||| view.state is Shutdown
    ||| in_flight(view.phase)
    ||| view.state.spec_physical() == view.pose()
}

/// The command that `action` sends to the controller, if it sends one.
pub open spec fn command_sent(action: Action) -> Option<Command> {
    match action {
        Action::Send { command, .. } => Some(command),
        _ => None,
    }
}

/// The light follows the cure commands, and every published state shows it.
///
/// A step that sends the cure-on command leaves the controller's light on,
/// one that sends the cure-off command leaves it off, and a step that sends
/// anything else or nothing leaves it as it was: so the light is on exactly
/// between a cure-on and the next cure-off. Every state that is published,
/// but for the shutdown state which has no pose, shows the light as the
/// controller has it then.
pub proof fn lemma_published_light<T: HardwareControl>(view: PrinterView<T>, event: Event)
    requires
        view.wf(),
        in_step(view),
    ensures
        in_step(view.step(event).next),
        view.step(event).publish && !(view.step(event).next.state is Shutdown) ==> view.step(
            event,
        ).next.state.spec_physical().curing == view.step(event).next.pose().curing,
        command_sent(view.step(event).action) == Some(Command::StartCure) ==> view.step(
            event,
        ).next.pose().curing,
        command_sent(view.step(event).action) == Some(Command::StopCure) ==> !view.step(
            event,
        ).next.pose().curing,
        !(view.step(event).action is Fail) && command_sent(view.step(event).action) != Some(
            Command::StartCure,
        ) && command_sent(view.step(event).action) != Some(Command::StopCure) ==> view.step(
            event,
        ).next.pose().curing == view.pose().curing,
{
    reveal(PrinterView::step);
    lemma_command_keeps::<T>();
    lemma_command_pose::<T>();
    reveal(PrinterView::poll_idle);
    reveal(PrinterView::poll_printing);
    reveal(PrinterView::load);
    reveal(PrinterView::layer_step);
}

/// The pause is quiet: the job is paused and the machine polls or rests.
pub open spec fn quiet<T: HardwareControl>(view: PrinterView<T>) -> bool {
    &&& view.state matches PrinterState::Printing { paused, .. } && paused
    &&& view.phase == Phase::Polling || view.phase == Phase::Resting
}

/// The operator asks for a move: a pause, which lifts the plate, or a jog.
pub open spec fn asks_for_move(event: Event) -> bool {
    event matches Event::Operation(Some(operation)) && (operation is PausePrint
        || operation is ManualMove)
}

/// The event ends the pause: the operator resumes or stops the job or shuts
/// the printer down, or the host ends the process.
pub open spec fn ends_pause(event: Event) -> bool {
    ||| event is Cancelled
    ||| event matches Event::Operation(Some(operation)) && (operation is ResumePrint
        || operation is StopPrint || operation is Shutdown)
}

/// While a job is paused and its lift is done, the machine sends no command
/// that moves the plate, switches the light or opens a layer, unless the
/// operator asks for a move; and the pause lasts until an event ends it.
pub proof fn lemma_pause_is_quiet<T: HardwareControl>(view: PrinterView<T>, event: Event)
    requires
        view.wf(),
        quiet(view),
        !asks_for_move(event),
    ensures
        match command_sent(view.step(event).action) {
            Some(command) => !moves_or_cures(command),
            None => true,
        },
        quiet(view.step(event).next) || ends_pause(event),
{
    reveal(PrinterView::step);
    lemma_command_keeps::<T>();
    reveal(PrinterView::poll_printing);
}

/// A command of the operator's or of the job is under way.
pub open spec fn awaits_command(phase: Phase) -> bool {
    match phase {
        Phase::Commanding => true,
        Phase::Booting => true,
        Phase::Starting => true,
        Phase::Ending => true,
        Phase::Layer(stage) => confirms(stage),
        _ => false,
    }
}

/// Every command is answered by one publication. When a command that is
/// under way is confirmed, the state is published with the pose of the
/// controller in it. When it fails, the machine sends the shutdown command
/// and nothing else, publishing nothing, and whatever becomes of that
/// command it then publishes the shutdown state.
pub proof fn lemma_commands_are_answered<T: HardwareControl>(view: PrinterView<T>, stopped: bool)
    requires
        view.wf(),
        awaits_command(view.phase),
    ensures
        view.step(Event::Completed(true)).publish,
        !(view.state is Shutdown) ==> view.step(
            Event::Completed(true),
        ).next.state.spec_physical() == view.pose(),
        ({
            let failed = view.step(Event::Completed(false));
            let ended = failed.next.step(Event::Completed(stopped));
            &&& !failed.publish
            &&& failed.action is Fail || command_sent(failed.action) == Some(Command::Shutdown)
            &&& !(failed.action is Fail) ==> ended.publish && ended.next.state is Shutdown
                && ended.action == Action::Poll
        }),
{
    reveal(PrinterView::step);
    reveal(PrinterView::layer_step);
    lemma_command_keeps::<T>();
    lemma_command_pose::<T>();
}

/// A query publishes the state and changes nothing: whatever the state, the
/// machine goes on polling and sends nothing.
pub proof fn lemma_query_only_publishes<T: HardwareControl>(view: PrinterView<T>)
    requires
        view.wf(),
        view.phase == Phase::Polling,
    ensures
        view.step(Event::Operation(Some(Operation::QueryState))).next == view,
        view.step(Event::Operation(Some(Operation::QueryState))).publish,
        view.step(Event::Operation(Some(Operation::QueryState))).action == Action::Poll,
{
    reveal(PrinterView::step);
    reveal(PrinterView::poll_idle);
    reveal(PrinterView::poll_printing);
}

/// A pause lifts the plate once. When a job is paused, the state is
/// published as paused and the one command sent is a move at the default
/// upward speed to the pause lift above where the plate stands, or to the
/// greatest height where that lies lower; once the move is confirmed the
/// plate stands there.
pub proof fn lemma_pause_lifts<T: HardwareControl>(view: PrinterView<T>)
    requires
        view.wf(),
        view.phase == Phase::Polling,
        view.state is Printing,
    ensures
        ({
            let paused = view.step(Event::Operation(Some(Operation::PausePrint)));
            let target = pause_height(
                view.state.spec_physical().z_microns,
                view.config.pause_lift,
                view.config.max_z,
            );
            &&& paused.publish
            &&& paused.next.state == view.state.with_paused(true)
            &&& paused.action is Fail || command_sent(paused.action) == Some(
                Command::MoveZ { z: target, speed: view.config.default_up_speed },
            )
            &&& target <= view.config.max_z
            &&& view.state.spec_physical().z_microns <= view.config.max_z
                ==> view.state.spec_physical().z_microns <= target
            &&& !(paused.action is Fail) ==> paused.next.step(
                Event::Completed(true),
            ).next.state.spec_physical().z_microns == target
        }),
{
    reveal(PrinterView::step);
    reveal(PrinterView::poll_printing);
    lemma_command_keeps::<T>();
    lemma_command_pose::<T>();
}

/// What cannot be done is turned down without a trace. A job is started
/// only by an idle printer: in any other state the operation is dropped. A
/// file that cannot be read, or a job that does not fit, leaves the printer
/// idle as it was. Either way the state stays what it is, nothing is
/// published and nothing is sent.
pub proof fn lemma_refusals_change_nothing<T: HardwareControl>(view: PrinterView<T>, event: Event)
    requires
        view.wf(),
        ({
            ||| view.phase == Phase::Polling && !(view.state is Idle) && (
            event matches Event::Operation(Some(Operation::StartPrint { .. })))
            ||| view.phase == Phase::Loading && (event matches Event::JobLoaded(None))
            ||| view.phase == Phase::Loading && (event matches Event::JobLoaded(Some(job))
                && !job.fits(view.config))
        }),
    ensures
        view.step(event).next == view.in_phase(Phase::Polling),
        view.step(event).action == Action::Poll,
        !view.step(event).publish,
{
    reveal(PrinterView::step);
    reveal(PrinterView::poll_printing);
    reveal(PrinterView::load);
}

/// The plate is within the greatest height, in the controller's record and
/// in the state.
pub open spec fn within_height<T: HardwareControl>(view: PrinterView<T>) -> bool {
    &&& view.pose().z_microns <= view.config.max_z
    &&& !(view.state is Shutdown) ==> view.state.spec_physical().z_microns <= view.config.max_z
}

proof fn lemma_layer_tops(layer: int, count: int, height: int)
    by (nonlinear_arith)
    requires
        0 <= layer <= count,
        0 <= height,
    ensures
        layer * height <= count * height,
        (layer + 1) * height <= (count + 1) * height,
{
}

/// No step sends the plate above the greatest height: a move of the
/// operator's is cut down to it, a pause lifts no further, and a job that
/// would go above it is not started.
pub proof fn lemma_step_within_height<T: HardwareControl>(view: PrinterView<T>, event: Event)
    requires
        view.wf(),
        within_height(view),
    ensures
        within_height(view.step(event).next),
        view.step(event).next.config == view.config,
        match command_sent(view.step(event).action) {
            Some(Command::MoveZ { z, .. }) => z <= view.config.max_z,
            _ => true,
        },
{
    reveal(PrinterView::step);
    lemma_command_keeps::<T>();
    lemma_command_pose::<T>();
    reveal(PrinterView::poll_idle);
    reveal(PrinterView::poll_printing);
    reveal(PrinterView::load);
    reveal(PrinterView::layer_step);
    match view.state {
        PrinterState::Printing { job, layer, .. } => {
            lemma_layer_tops(layer as int, job.layer_count as int, job.layer_height_microns as int);
            if layer < job.layer_count {
                lemma_layer_tops(
                    layer + 1,
                    job.layer_count as int,
                    job.layer_height_microns as int,
                );
            }
        },
        _ => {},
    }
}

/// Along any run, whatever the events, the plate never goes above the
/// greatest height: not in the controller's record, not in any state. The
/// run starts with a controller whose record is within that height, as a new
/// one is.
pub proof fn lemma_height_never_exceeded<T: HardwareControl>(
    config: PrinterConfig,
    hardware: T::V,
    events: Seq<Event>,
)
    requires
        T::pose_of(hardware).z_microns <= config.max_z,
    ensures
        within_height(PrinterView::<T>::started(config, hardware).run(events)),
        PrinterView::<T>::started(config, hardware).run(events).wf(),
        PrinterView::<T>::started(config, hardware).run(events).config == config,
    decreases events.len(),
{
    let start = PrinterView::<T>::started(config, hardware);
    lemma_command_pose::<T>();
    if events.len() > 0 {
        let earlier = events.drop_last();
        lemma_height_never_exceeded::<T>(config, hardware, earlier);
        lemma_step_well_formed(start.run(earlier), events.last());
        lemma_step_within_height(start.run(earlier), events.last());
    }
}

proof fn lemma_run_in_step<T: HardwareControl>(config: PrinterConfig, hardware: T::V, events: Seq<Event>)
    ensures
        in_step(PrinterView::<T>::started(config, hardware).run(events)),
        PrinterView::<T>::started(config, hardware).run(events).wf(),
    decreases events.len(),
{
    let start = PrinterView::<T>::started(config, hardware);
    if events.len() > 0 {
        let earlier = events.drop_last();
        lemma_run_in_step::<T>(config, hardware, earlier);
        lemma_step_well_formed(start.run(earlier), events.last());
        lemma_published_light(start.run(earlier), events.last());
    }
}

/// Along any run, every state that is published shows the light as the
/// controller has it: whatever the events before, when the step on `event`
/// publishes a state that has a pose, its light is the controller's.
pub proof fn lemma_light_along_run<T: HardwareControl>(
    config: PrinterConfig,
    hardware: T::V,
    events: Seq<Event>,
    event: Event,
)
    ensures
        ({
            let outcome = PrinterView::<T>::started(config, hardware).run(events).step(event);
            outcome.publish && !(outcome.next.state is Shutdown)
                ==> outcome.next.state.spec_physical().curing == outcome.next.pose().curing
        }),
{
    lemma_run_in_step::<T>(config, hardware, events);
    lemma_published_light(PrinterView::<T>::started(config, hardware).run(events), event);
}

/// The event that the step `stage` of a layer waits for when all goes well;
/// the last step waits for the next frame, whose exposure is `next`.
pub open spec fn awaited(stage: Stage, next: Option<u64>) -> Event {
    match stage {
        Stage::Prefetch => Event::Done,
        Stage::StartLayer => Event::Completed(true),
        Stage::Lift => Event::Completed(true),
        Stage::Seat => Event::Completed(true),
        Stage::WaitBefore => Event::Done,
        Stage::Display => Event::Done,
        Stage::StartCure => Event::Completed(true),
        Stage::Expose => Event::Done,
        Stage::StopCure => Event::Completed(true),
        Stage::WaitAfter => Event::Done,
        Stage::Collect => Event::FrameLoaded(next),
    }
}

/// The command that is sent when the step `stage` of a layer is done, if
/// one is sent then.
pub open spec fn command_after<T: HardwareControl>(view: PrinterView<T>, stage: Stage) -> Option<Command> {
    let layer = view.state->Printing_layer;
    let top = layer_top(layer, view.state->Printing_job.layer_height_microns);
    match stage {
        Stage::Prefetch => Some(Command::StartLayer(layer)),
        Stage::StartLayer => Some(
            Command::MoveZ { z: (top + view.motion.lift) as u32, speed: view.motion.up_speed },
        ),
        Stage::Lift => Some(Command::MoveZ { z: top as u32, speed: view.motion.down_speed }),
        Stage::Display => Some(Command::StartCure),
        Stage::Expose => Some(Command::StopCure),
        _ => None,
    }
}

/// What is asked for when the step `stage` of a layer is done, where no
/// command is sent then.
pub open spec fn action_after<T: HardwareControl>(view: PrinterView<T>, stage: Stage) -> Action {
    match stage {
        Stage::Seat => Action::Sleep(view.motion.wait_before_exposure),
        Stage::WaitBefore => Action::Display,
        Stage::StartCure => Action::Sleep(view.exposure->0),
        Stage::StopCure => Action::Sleep(view.motion.wait_after_exposure),
        Stage::WaitAfter => Action::Collect,
        _ => Action::Poll,
    }
}

/// The phase that follows the step `stage` of a layer.
pub open spec fn phase_after(stage: Stage) -> Phase {
    match stage {
        Stage::Prefetch => Phase::Layer(Stage::StartLayer),
        Stage::StartLayer => Phase::Layer(Stage::Lift),
        Stage::Lift => Phase::Layer(Stage::Seat),
        Stage::Seat => Phase::Layer(Stage::WaitBefore),
        Stage::WaitBefore => Phase::Layer(Stage::Display),
        Stage::Display => Phase::Layer(Stage::StartCure),
        Stage::StartCure => Phase::Layer(Stage::Expose),
        Stage::Expose => Phase::Layer(Stage::StopCure),
        Stage::StopCure => Phase::Layer(Stage::WaitAfter),
        Stage::WaitAfter => Phase::Layer(Stage::Collect),
        Stage::Collect => Phase::Polling,
    }
}

/// Whether the step `stage` of a layer ends with the confirmation of a
/// command, whose pose is then taken into the state and published.
pub open spec fn confirms(stage: Stage) -> bool {
    match stage {
        Stage::StartLayer => true,
        Stage::Lift => true,
        Stage::Seat => true,
        Stage::StartCure => true,
        Stage::StopCure => true,
        _ => false,
    }
}

/// One step of a layer when all goes well: unless a template cannot be
/// rendered, the machine sends the command of `command_after` or asks for
/// what `action_after` says, and waits in the phase that follows. A step
/// that ends with the confirmation of a command takes the pose of the
/// controller into the state and publishes it.
pub proof fn lemma_layer_stage<T: HardwareControl>(view: PrinterView<T>, stage: Stage, next: Option<u64>)
    requires
        view.wf(),
        view.phase == Phase::Layer(stage),
    ensures
        ({
            let outcome = view.step(awaited(stage, next));
            let layer = view.state->Printing_layer;
            let job = view.state->Printing_job;
            let state = if confirms(stage) {
                view.state.with_physical(view.pose())
            } else if stage == Stage::Collect {
                view.state.with_layer((layer + 1) as usize)
            } else {
                view.state
            };
            &&& layer < job.layer_count
            &&& layer_top(layer, job.layer_height_microns) + view.motion.lift <= u32::MAX
            &&& outcome.next.state == state
            &&& outcome.next.motion == view.motion
            &&& stage != Stage::Collect ==> outcome.next.exposure == view.exposure
            &&& outcome.publish == (confirms(stage) || stage == Stage::Collect)
            &&& match command_after(view, stage) {
                Some(command) => {
                    &&& outcome.next.pose() == pose_after(view.pose(), command)
                    &&& outcome.action is Fail || (command_sent(outcome.action) == Some(command)
                        && outcome.next.phase == phase_after(stage))
                },
                None => {
                    &&& outcome.next.pose() == view.pose()
                    &&& outcome.action == action_after(view, stage)
                    &&& outcome.next.phase == phase_after(stage)
                },
            }
        }),
{
    reveal(PrinterView::step);
    lemma_command_keeps::<T>();
    lemma_command_pose::<T>();
    reveal(PrinterView::layer_step);
    let layer = view.state->Printing_layer;
    let job = view.state->Printing_job;
    lemma_layer_tops(layer + 1, job.layer_count as int, job.layer_height_microns as int);
}

/// The steps of a layer in their order: step `k` of the eleven.
pub open spec fn stage_at(k: int) -> Stage {
    if k <= 0 {
        Stage::Prefetch
    } else if k == 1 {
        Stage::StartLayer
    } else if k == 2 {
        Stage::Lift
    } else if k == 3 {
        Stage::Seat
    } else if k == 4 {
        Stage::WaitBefore
    } else if k == 5 {
        Stage::Display
    } else if k == 6 {
        Stage::StartCure
    } else if k == 7 {
        Stage::Expose
    } else if k == 8 {
        Stage::StopCure
    } else if k == 9 {
        Stage::WaitAfter
    } else {
        Stage::Collect
    }
}

/// Outcome `k` of a layer in which every request succeeds: outcome zero is
/// that of the poll that starts the layer, and each further outcome that of
/// the event which the step before waits for. The frame that arrives at the
/// end has the exposure `next`.
pub open spec fn layer_outcome<T: HardwareControl>(view: PrinterView<T>, next: Option<u64>, k: nat) -> Outcome<T>
    decreases k,
{
    if k == 0 {
        view.step(Event::Operation(None))
    } else {
        layer_outcome(view, next, (k - 1) as nat).next.step(awaited(stage_at(k - 1), next))
    }
}

/// No template failed to render up to outcome `k` of the layer.
pub open spec fn rendered_through<T: HardwareControl>(view: PrinterView<T>, next: Option<u64>, k: nat) -> bool
    decreases k,
{
    &&& !(layer_outcome(view, next, k).action is Fail)
    &&& k > 0 ==> rendered_through(view, next, (k - 1) as nat)
}

/// A job that is not paused has a frame ready, and the machine polls.
pub open spec fn layer_ready<T: HardwareControl>(view: PrinterView<T>) -> bool {
    &&& view.wf()
    &&& view.phase == Phase::Polling
    &&& view.state matches PrinterState::Printing { paused, .. } && !paused
    &&& view.exposure is Some
}

/// Step `k` of a layer starts from a well-formed machine in the phase of
/// that step, with the job, its settings and the frame as they were.
proof fn lemma_layer_progress<T: HardwareControl>(view: PrinterView<T>, next: Option<u64>, k: nat)
    requires
        layer_ready(view),
        k <= 10,
        rendered_through(view, next, k),
    ensures
        ({
            let before = layer_outcome(view, next, k).next;
            &&& before.wf()
            &&& before.phase == Phase::Layer(stage_at(k as int))
            &&& before.state matches PrinterState::Printing { job, layer, paused, .. } && job
                == view.state->Printing_job && layer == view.state->Printing_layer && !paused
            &&& before.motion == view.motion
            &&& before.exposure == view.exposure
            &&& k >= 3 ==> before.pose().z_microns == layer_top(
                view.state->Printing_layer,
                view.state->Printing_job.layer_height_microns,
            )
            &&& k >= 8 ==> !before.pose().curing
            &&& k >= 9 ==> before.state.spec_physical() == before.pose()
        }),
    decreases k,
{
    if k == 0 {
        reveal(PrinterView::step);
        reveal(PrinterView::poll_printing);
        lemma_step_well_formed(view, Event::Operation(None));
    } else {
        let j = (k - 1) as nat;
        lemma_layer_progress(view, next, j);
        let before = layer_outcome(view, next, j).next;
        lemma_layer_stage(before, stage_at(j as int), next);
        lemma_step_well_formed(before, awaited(stage_at(j as int), next));
    }
}

/// The order of a layer. When a job that is not paused has a frame ready
/// and every request succeeds, the machine first asks to begin fetching the
/// next frame. Then, for each of the eleven steps in the order of
/// `stage_at`, it sends the command that `command_after` names, or where
/// none is named asks for what `action_after` says, and for nothing else:
/// start of layer; a move to the lift above the layer's top at the upward
/// speed; a move to the layer's top at the downward speed; a rest; the
/// frame on the display; light on; a sleep for the exposure; light off; a
/// rest; the wait for the next frame; and a poll. At the end the job is one
/// layer further, with the plate at the layer's top and the light off. The
/// layer's top is its index plus one, times the layer height.
pub proof fn lemma_layer_order<T: HardwareControl>(view: PrinterView<T>, next: Option<u64>, k: nat)
    requires
        layer_ready(view),
        k <= 10,
        rendered_through(view, next, k + 1),
    ensures
        layer_outcome(view, next, 0).action == Action::Prefetch(
            (view.state->Printing_layer + 1) as usize,
        ),
        layer_top(view.state->Printing_layer, view.state->Printing_job.layer_height_microns)
            + view.motion.lift <= u32::MAX,
        match command_after(view, stage_at(k as int)) {
            Some(command) => command_sent(layer_outcome(view, next, k + 1).action) == Some(
                command,
            ),
            None => layer_outcome(view, next, k + 1).action == action_after(
                view,
                stage_at(k as int),
            ),
        },
        k == 10 ==> layer_outcome(view, next, 11).next.phase == Phase::Polling && layer_outcome(
            view,
            next,
            11,
        ).next.state == (PrinterState::Printing {
            job: view.state->Printing_job,
            layer: (view.state->Printing_layer + 1) as usize,
            paused: false,
            physical: PhysicalState {
                z_microns: layer_top(
                    view.state->Printing_layer,
                    view.state->Printing_job.layer_height_microns,
                ) as u32,
                curing: false,
            },
        }),
{
    assert(layer_outcome(view, next, 0).action == Action::Prefetch(
        (view.state->Printing_layer + 1) as usize,
    )) by {
        reveal(PrinterView::step);
        reveal(PrinterView::poll_printing);
    }
    lemma_layer_progress(view, next, k);
    let before = layer_outcome(view, next, k).next;
    lemma_layer_stage(before, stage_at(k as int), next);
    assert(layer_outcome(view, next, k + 1) == before.step(awaited(stage_at(k as int), next)));
}

} // verus!
