//! The client of the motion controller: it keeps the pose of the machine and
//! turns each operation into the line to send and the answer to wait for.

use vstd::prelude::*;
use crate::api_objects::PhysicalState;
use crate::configuration::{Configuration, GcodeConfig};
use crate::printer::HardwareControl;
use crate::template::{render, rendered, Substitutions, TemplateError};
use crate::text::{chars_of, occurs_in, str_contains, string_of};
use crate::units::{format_thousandths, thousandths_text};

verus! {

/// An operation of the motion controller.
#[derive(Clone, Debug)]
pub enum Command {
    /// Ask whether the controller is ready.
    Probe,
    Boot,
    Shutdown,
    Home,
    /// A line given by the operator; it is rendered like a template.
    Manual(String),
    /// Move the plate to `z` microns at `speed` microns per second, and wait
    /// until the controller reports the move complete.
    MoveZ { z: u32, speed: u32 },
    StartPrint,
    EndPrint,
    StartLayer(usize),
    StartCure,
    StopCure,
}

/// What to hand to the serial line for one operation.
#[derive(Clone, Debug)]
pub struct Request {
    /// The line to send, line end included.
    pub line: String,
    /// The text to look for in the answers, where an answer is awaited.
    pub expect: Option<String>,
    /// How many times to poll for an answer before giving up.
    pub polls: usize,
    /// Whether the answers that are already pending are discarded before the
    /// line is sent.
    pub flush: bool,
}

/// A `Request` as plain values.
pub struct RequestView {
    pub line: Seq<char>,
    pub expect: Option<Seq<char>>,
    pub polls: usize,
    pub flush: bool,
}

impl View for Request {
    type V = RequestView;

    open spec fn view(&self) -> RequestView {
        RequestView {
            line: self.line@,
            expect: match self.expect {
                Some(text) => Some(text@),
                None => None,
            },
            polls: self.polls,
            flush: self.flush,
        }
    }
}

/// The client of the motion controller.
pub struct Gcode {
    pub config: GcodeConfig,
    pub state: PhysicalState,
    pub gcode_substitutions: Substitutions,
}

/// A `Gcode` as plain values.
pub struct GcodeView {
    pub config: GcodeConfig,
    pub state: PhysicalState,
    pub vars: Map<Seq<char>, Seq<char>>,
}

impl View for Gcode {
    type V = GcodeView;

    open spec fn view(&self) -> GcodeView {
        GcodeView { config: self.config, state: self.state, vars: self.gcode_substitutions@ }
    }
}

/// How a truth value is written in a command.
pub open spec fn bool_text(b: bool) -> Seq<char> {
    if b {
        "true"@
    } else {
        "false"@
    }
}

/// The pause after each line that is sent, in milliseconds: some
/// controllers drop commands that come back to back.
pub const COMMAND_DELAY: u64 = 100;

/// The time that one poll for an answer may take, in milliseconds.
pub const POLL_PERIOD: u64 = 100;

/// The polls that make up a wait of `timeout_seconds`: ten for each second,
/// as many as a `usize` can count.
pub open spec fn sync_polls(timeout_seconds: usize) -> usize {
    if 10 * timeout_seconds <= usize::MAX {
        (10 * timeout_seconds) as usize
    } else {
        usize::MAX
    }
}

/// The polls of a wait last as long as its timeout: `timeout_seconds` times
/// a thousand milliseconds, unless there are more polls than can be counted.
pub proof fn lemma_sync_window(timeout_seconds: usize)
    requires
        10 * timeout_seconds <= usize::MAX,
    ensures
        sync_polls(timeout_seconds) * POLL_PERIOD == timeout_seconds * 1000,
{
}

/// The outcome `expected` of an operation, value for value.
pub open spec fn requests_as(
    result: Result<Request, TemplateError>,
    expected: Result<RequestView, Seq<char>>,
) -> bool {
    match (result, expected) {
        (Ok(request), Ok(view)) => request@ == view,
        (Err(e), Err(name)) => e.name@ == name,
        _ => false,
    }
}

impl GcodeView {
    /// The substitutions with the pose written into them: `z` in millimetres
    /// and `curing` as a truth value.
    pub open spec fn state_vars(self) -> Map<Seq<char>, Seq<char>> {
        self.vars.insert("curing"@, bool_text(self.state.curing)).insert(
            "z"@,
            thousandths_text(self.state.z_microns as nat),
        )
    }

    /// Rendering `template`: the pose is written into the substitutions, and
    /// the line is the rendered template with a line end.
    pub open spec fn send(
        self,
        template: Seq<char>,
        expect: Option<Seq<char>>,
        polls: usize,
        flush: bool,
    ) -> (GcodeView, Result<RequestView, Seq<char>>) {
        let vars = self.state_vars();
        (
            GcodeView { vars, ..self },
            match rendered(template, vars) {
                Ok(text) => Ok(
                    RequestView { line: text.push('\r').push('\n'), expect, polls, flush },
                ),
                Err(name) => Err(name),
            },
        )
    }

    /// The client with the plate at `z` microns.
    pub open spec fn at(self, z: u32) -> GcodeView {
        GcodeView { state: PhysicalState { z_microns: z, ..self.state }, ..self }
    }

    /// The client with the light on or off.
    pub open spec fn lit(self, curing: bool) -> GcodeView {
        GcodeView { state: PhysicalState { curing, ..self.state }, ..self }
    }

    /// The client with `name` given the value `value`.
    pub open spec fn with_var(self, name: Seq<char>, value: Seq<char>) -> GcodeView {
        GcodeView { vars: self.vars.insert(name, value), ..self }
    }

    /// The client with the value of `name` taken away.
    pub open spec fn without_var(self, name: Seq<char>) -> GcodeView {
        GcodeView { vars: self.vars.remove(name), ..self }
    }

    /// What `command` does to the client, and the request it makes or the
    /// name that its template asks for in vain.
    ///
    /// The pose is changed before the line is rendered: a move sets the
    /// height, the cure commands set the light, nothing else touches either.
    /// A move is rendered with `speed` set to the speed in millimetres per
    /// minute, which is taken away again afterwards; it discards pending
    /// answers and waits for the move to be reported complete. The probe looks
    /// for the ready answer in one poll. Every other command waits for
    /// nothing.
    pub open spec fn issue(self, command: Command) -> (GcodeView, Result<RequestView, Seq<char>>) {
        match command {
            Command::Probe => self.send(
                self.config.status_check@,
                Some(self.config.status_desired@),
                1,
                false,
            ),
            Command::Boot => self.send(self.config.boot@, None, 0, false),
            Command::Shutdown => self.send(self.config.shutdown@, None, 0, false),
            Command::Home => self.send(self.config.home_command@, None, 0, false),
            Command::Manual(line) => self.send(line@, None, 0, false),
            Command::MoveZ { z, speed } => {
                let (sent, result) = self.at(z).with_var(
                    "speed"@,
                    thousandths_text((speed * 60) as nat),
                ).send(
                    self.config.move_command@,
                    Some(self.config.move_sync@),
                    sync_polls(self.config.move_timeout),
                    true,
                );
                (sent.without_var("speed"@), result)
            },
            Command::StartPrint => self.send(self.config.print_start@, None, 0, false),
            Command::EndPrint => self.send(self.config.print_end@, None, 0, false),
            Command::StartLayer(_) => self.send(self.config.layer_start@, None, 0, false),
            Command::StartCure => self.lit(true).send(self.config.cure_start@, None, 0, false),
            Command::StopCure => self.lit(false).send(self.config.cure_end@, None, 0, false),
        }
    }
}

/// The pose after `command`: a move sets the height, the cure commands set
/// the light, and no other command changes the pose.
pub open spec fn pose_after(state: PhysicalState, command: Command) -> PhysicalState {
    match command {
        Command::MoveZ { z, .. } => PhysicalState { z_microns: z, ..state },
        Command::StartCure => PhysicalState { curing: true, ..state },
        Command::StopCure => PhysicalState { curing: false, ..state },
        _ => state,
    }
}

/// What a request for `command` waits for: a move discards the answers that
/// are pending and waits for one, the probe waits for one in a single poll,
/// and no other command waits.
pub open spec fn waits_as(request: RequestView, command: Command) -> bool {
    match command {
        Command::MoveZ { .. } => request.expect is Some && request.flush,
        Command::Probe => request.expect is Some && request.polls == 1 && !request.flush,
        _ => request.expect is None && !request.flush,
    }
}

/// Whether `command` moves the plate, switches the light or opens a layer.
pub open spec fn moves_or_cures(command: Command) -> bool {
    ||| command is MoveZ
    ||| command is StartCure
    ||| command is StopCure
    ||| command is StartLayer
}

/// Whatever the templates hold, a command leaves the client with the pose
/// that `pose_after` gives and with its configuration unchanged.
pub proof fn lemma_issue_pose(client: GcodeView, command: Command)
    ensures
        client.issue(command).0.state == pose_after(client.state, command),
        client.issue(command).0.config == client.config,
{
}

impl Gcode {
    /// A client for the dialect in `config`, with the plate at zero, the
    /// light off and no substitutions.
    pub fn new(config: Configuration) -> (client: Gcode)
        ensures
            client.config == config.gcode,
            client.state == (PhysicalState { z_microns: 0, curing: false }),
            client.gcode_substitutions@ == Map::<Seq<char>, Seq<char>>::empty(),
    {
        Gcode {
            config: config.gcode,
            state: PhysicalState { z_microns: 0, curing: false },
            gcode_substitutions: Substitutions::new(),
        }
    }

    /// Sets the height that the client keeps. Every operation that moves the
    /// plate goes through here.
    fn set_position(&mut self, position: u32) -> (state: PhysicalState)
        ensures
            final(self)@ == old(self)@.at(position),
            state == final(self).state,
    {
        self.state.z_microns = position;
        self.state
    }

    /// Sets the light that the client keeps. Every operation that switches
    /// the light goes through here.
    fn set_curing(&mut self, curing: bool) -> (state: PhysicalState)
        ensures
            final(self)@ == old(self)@.lit(curing),
            state == final(self).state,
    {
        self.state.curing = curing;
        self.state
    }

    /// Writes the pose into the substitutions.
    fn add_state_variables(&mut self)
        ensures
            final(self)@ == (GcodeView { vars: old(self)@.state_vars(), ..old(self)@ }),
    {
        let curing = if self.state.curing {
            String::from_str("true")
        } else {
            String::from_str("false")
        };
        self.gcode_substitutions.insert(String::from_str("curing"), curing);
        let z = format_thousandths(self.state.z_microns as u64);
        self.gcode_substitutions.insert(String::from_str("z"), string_of(z.as_slice()));
    }

    /// Renders `code` with the substitutions, the pose among them.
    pub fn parse_gcode(&mut self, code: &str) -> (result: Result<String, TemplateError>)
        ensures
            final(self)@ == old(self)@.send(code@, None, 0, false).0,
            match (result, rendered(code@, old(self)@.state_vars())) {
                (Ok(text), Ok(expected)) => text@ == expected,
                (Err(e), Err(name)) => e.name@ == name,
                _ => false,
            },
    {
        self.add_state_variables();
        let template = chars_of(code);
        match render(template.as_slice(), &self.gcode_substitutions) {
            Ok(text) => Ok(string_of(text.as_slice())),
            Err(e) => Err(e),
        }
    }

    /// Renders `code` into a request: the line with its line end, and what to
    /// wait for.
    fn send_gcode(&mut self, code: &str, expect: Option<String>, polls: usize, flush: bool) -> (result:
        Result<Request, TemplateError>)
        ensures
            final(self)@ == old(self)@.send(code@, None, 0, false).0,
            requests_as(
                result,
                old(self)@.send(
                    code@,
                    match expect {
                        Some(text) => Some(text@),
                        None => None,
                    },
                    polls,
                    flush,
                ).1,
            ),
    {
        self.add_state_variables();
        let template = chars_of(code);
        match render(template.as_slice(), &self.gcode_substitutions) {
            Ok(text) => {
                let mut text = text;
                text.push('\r');
                text.push('\n');
                Ok(Request { line: string_of(text.as_slice()), expect, polls, flush })
            },
            Err(e) => Err(e),
        }
    }

    /// Carries out `command` on the client and makes the request for it.
    pub fn issue(&mut self, command: &Command) -> (result: Result<Request, TemplateError>)
        ensures
            final(self)@ == old(self)@.issue(*command).0,
            requests_as(result, old(self)@.issue(*command).1),
    {
        match command {
            Command::Probe => self.is_ready(),
            Command::Boot => self.boot(),
            Command::Shutdown => self.shutdown(),
            Command::Home => self.home(),
            Command::Manual(line) => self.manual_command(line.clone()),
            Command::MoveZ { z, speed } => self.move_z(*z, *speed),
            Command::StartPrint => self.start_print(),
            Command::EndPrint => self.end_print(),
            Command::StartLayer(layer) => self.start_layer(*layer),
            Command::StartCure => self.start_curing(),
            Command::StopCure => self.stop_curing(),
        }
    }

    /// The status probe: the controller is ready when its answer holds the
    /// configured text.
    pub fn is_ready(&mut self) -> (result: Result<Request, TemplateError>)
        ensures
            final(self)@ == old(self)@.issue(Command::Probe).0,
            requests_as(result, old(self)@.issue(Command::Probe).1),
    {
        let code = self.config.status_check.clone();
        let expect = self.config.status_desired.clone();
        self.send_gcode(code.as_str(), Some(expect), 1, false)
    }

    pub fn home(&mut self) -> (result: Result<Request, TemplateError>)
        ensures
            final(self)@ == old(self)@.issue(Command::Home).0,
            requests_as(result, old(self)@.issue(Command::Home).1),
    {
        let code = self.config.home_command.clone();
        self.send_gcode(code.as_str(), None, 0, false)
    }

    /// A line of the operator's, rendered like a template.
    pub fn manual_command(&mut self, command: String) -> (result: Result<Request, TemplateError>)
        ensures
            final(self)@ == old(self)@.issue(Command::Manual(command)).0,
            requests_as(result, old(self)@.issue(Command::Manual(command)).1),
    {
        self.send_gcode(command.as_str(), None, 0, false)
    }

    /// Moves the plate to `z` microns at `speed` microns per second. The
    /// template sees the speed in millimetres per minute.
    pub fn move_z(&mut self, z: u32, speed: u32) -> (result: Result<Request, TemplateError>)
        ensures
            final(self)@ == old(self)@.issue(Command::MoveZ { z, speed }).0,
            requests_as(result, old(self)@.issue(Command::MoveZ { z, speed }).1),
    {
        self.set_position(z);
        let per_minute = format_thousandths((speed as u64) * 60);
        self.add_print_variable(String::from_str("speed"), string_of(per_minute.as_slice()));
        let code = self.config.move_command.clone();
        let expect = self.config.move_sync.clone();
        let polls = match self.config.move_timeout.checked_mul(10) {
            Some(polls) => polls,
            None => usize::MAX,
        };
        let result = self.send_gcode(code.as_str(), Some(expect), polls, true);
        self.remove_print_variable(String::from_str("speed"));
        result
    }

    pub fn start_layer(&mut self, layer: usize) -> (result: Result<Request, TemplateError>)
        ensures
            final(self)@ == old(self)@.issue(Command::StartLayer(layer)).0,
            requests_as(result, old(self)@.issue(Command::StartLayer(layer)).1),
    {
        let code = self.config.layer_start.clone();
        self.send_gcode(code.as_str(), None, 0, false)
    }

    pub fn start_curing(&mut self) -> (result: Result<Request, TemplateError>)
        ensures
            final(self)@ == old(self)@.issue(Command::StartCure).0,
            requests_as(result, old(self)@.issue(Command::StartCure).1),
    {
        self.set_curing(true);
        let code = self.config.cure_start.clone();
        self.send_gcode(code.as_str(), None, 0, false)
    }

    pub fn stop_curing(&mut self) -> (result: Result<Request, TemplateError>)
        ensures
            final(self)@ == old(self)@.issue(Command::StopCure).0,
            requests_as(result, old(self)@.issue(Command::StopCure).1),
    {
        self.set_curing(false);
        let code = self.config.cure_end.clone();
        self.send_gcode(code.as_str(), None, 0, false)
    }

    pub fn start_print(&mut self) -> (result: Result<Request, TemplateError>)
        ensures
            final(self)@ == old(self)@.issue(Command::StartPrint).0,
            requests_as(result, old(self)@.issue(Command::StartPrint).1),
    {
        let code = self.config.print_start.clone();
        self.send_gcode(code.as_str(), None, 0, false)
    }

    pub fn end_print(&mut self) -> (result: Result<Request, TemplateError>)
        ensures
            final(self)@ == old(self)@.issue(Command::EndPrint).0,
            requests_as(result, old(self)@.issue(Command::EndPrint).1),
    {
        let code = self.config.print_end.clone();
        self.send_gcode(code.as_str(), None, 0, false)
    }

    pub fn boot(&mut self) -> (result: Result<Request, TemplateError>)
        ensures
            final(self)@ == old(self)@.issue(Command::Boot).0,
            requests_as(result, old(self)@.issue(Command::Boot).1),
    {
        let code = self.config.boot.clone();
        self.send_gcode(code.as_str(), None, 0, false)
    }

    pub fn shutdown(&mut self) -> (result: Result<Request, TemplateError>)
        ensures
            final(self)@ == old(self)@.issue(Command::Shutdown).0,
            requests_as(result, old(self)@.issue(Command::Shutdown).1),
    {
        let code = self.config.shutdown.clone();
        self.send_gcode(code.as_str(), None, 0, false)
    }

    /// The pose that the client keeps.
    pub fn get_physical_state(&self) -> (state: PhysicalState)
        ensures
            state == self.state,
    {
        self.state
    }

    /// Gives the substitution `variable` the value `value`.
    pub fn add_print_variable(&mut self, variable: String, value: String)
        ensures
            final(self)@ == old(self)@.with_var(variable@, value@),
    {
        self.gcode_substitutions.insert(variable, value);
    }

    /// Takes the substitution `variable` away.
    pub fn remove_print_variable(&mut self, variable: String)
        ensures
            final(self)@ == old(self)@.without_var(variable@),
    {
        self.gcode_substitutions.remove(&variable);
    }

    /// Takes every substitution away.
    pub fn clear_variables(&mut self)
        ensures
            final(self)@ == (GcodeView {
                vars: Map::<Seq<char>, Seq<char>>::empty(),
                ..old(self)@
            }),
    {
        self.gcode_substitutions.clear();
    }
}

impl HardwareControl for Gcode {
    open spec fn pose_of(model: GcodeView) -> PhysicalState {
        model.state
    }

    open spec fn variables_of(model: GcodeView) -> Map<Seq<char>, Seq<char>> {
        model.vars
    }

    open spec fn issue_of(model: GcodeView, command: Command) -> (
        GcodeView,
        Result<RequestView, Seq<char>>,
    ) {
        model.issue(command)
    }

    open spec fn with_variable(model: GcodeView, name: Seq<char>, value: Seq<char>) -> GcodeView {
        model.with_var(name, value)
    }

    open spec fn without_variable(model: GcodeView, name: Seq<char>) -> GcodeView {
        model.without_var(name)
    }

    open spec fn without_variables(model: GcodeView) -> GcodeView {
        GcodeView { vars: Map::<Seq<char>, Seq<char>>::empty(), ..model }
    }

    proof fn lemma_controller(model: GcodeView, command: Command, name: Seq<char>, value: Seq<char>) {
        lemma_issue_pose(model, command);
    }

    fn issue(&mut self, command: &Command) -> (result: Result<Request, TemplateError>) {
        Gcode::issue(self, command)
    }

    fn is_ready(&mut self) -> (result: Result<Request, TemplateError>)
        ensures
            final(self)@ == old(self)@.issue(Command::Probe).0,
            requests_as(result, old(self)@.issue(Command::Probe).1),
    {
        Gcode::is_ready(self)
    }

    fn initialize(&mut self) {
    }

    fn home(&mut self) -> (result: Result<Request, TemplateError>)
        ensures
            final(self)@ == old(self)@.issue(Command::Home).0,
            requests_as(result, old(self)@.issue(Command::Home).1),
    {
        Gcode::home(self)
    }

    fn manual_command(&mut self, command: String) -> (result: Result<Request, TemplateError>)
        ensures
            final(self)@ == old(self)@.issue(Command::Manual(command)).0,
            requests_as(result, old(self)@.issue(Command::Manual(command)).1),
    {
        Gcode::manual_command(self, command)
    }

    fn start_print(&mut self) -> (result: Result<Request, TemplateError>)
        ensures
            final(self)@ == old(self)@.issue(Command::StartPrint).0,
            requests_as(result, old(self)@.issue(Command::StartPrint).1),
    {
        Gcode::start_print(self)
    }

    fn end_print(&mut self) -> (result: Result<Request, TemplateError>)
        ensures
            final(self)@ == old(self)@.issue(Command::EndPrint).0,
            requests_as(result, old(self)@.issue(Command::EndPrint).1),
    {
        Gcode::end_print(self)
    }

    fn move_z(&mut self, z: u32, speed: u32) -> (result: Result<Request, TemplateError>)
        ensures
            final(self)@ == old(self)@.issue(Command::MoveZ { z, speed }).0,
            requests_as(result, old(self)@.issue(Command::MoveZ { z, speed }).1),
    {
        Gcode::move_z(self, z, speed)
    }

    fn start_layer(&mut self, layer: usize) -> (result: Result<Request, TemplateError>)
        ensures
            final(self)@ == old(self)@.issue(Command::StartLayer(layer)).0,
            requests_as(result, old(self)@.issue(Command::StartLayer(layer)).1),
    {
        Gcode::start_layer(self, layer)
    }

    fn start_curing(&mut self) -> (result: Result<Request, TemplateError>)
        ensures
            final(self)@ == old(self)@.issue(Command::StartCure).0,
            requests_as(result, old(self)@.issue(Command::StartCure).1),
    {
        Gcode::start_curing(self)
    }

    fn stop_curing(&mut self) -> (result: Result<Request, TemplateError>)
        ensures
            final(self)@ == old(self)@.issue(Command::StopCure).0,
            requests_as(result, old(self)@.issue(Command::StopCure).1),
    {
        Gcode::stop_curing(self)
    }

    fn boot(&mut self) -> (result: Result<Request, TemplateError>)
        ensures
            final(self)@ == old(self)@.issue(Command::Boot).0,
            requests_as(result, old(self)@.issue(Command::Boot).1),
    {
        Gcode::boot(self)
    }

    fn shutdown(&mut self) -> (result: Result<Request, TemplateError>)
        ensures
            final(self)@ == old(self)@.issue(Command::Shutdown).0,
            requests_as(result, old(self)@.issue(Command::Shutdown).1),
    {
        Gcode::shutdown(self)
    }

    fn get_physical_state(&self) -> (state: PhysicalState) {
        Gcode::get_physical_state(self)
    }

    fn add_print_variable(&mut self, variable: String, value: String)
        ensures
            final(self)@ == old(self)@.with_var(variable@, value@),
    {
        Gcode::add_print_variable(self, variable, value)
    }

    fn remove_print_variable(&mut self, variable: String)
        ensures
            final(self)@ == old(self)@.without_var(variable@),
    {
        Gcode::remove_print_variable(self, variable)
    }

    fn clear_variables(&mut self)
        ensures
            final(self)@ == (GcodeView {
                vars: Map::<Seq<char>, Seq<char>>::empty(),
                ..old(self)@
            }),
    {
        Gcode::clear_variables(self)
    }
}

/// Whether the answer `line` of the controller holds the awaited text. The
/// text may stand anywhere in the line, so that a controller may add a prefix
/// or echo the command.
pub fn check_response(line: &str, expect: &str) -> (found: bool)
    ensures
        found == occurs_in(line@, expect@),
{
    str_contains(line, expect)
}

/// How a wait for an answer stands.
#[derive(Clone, Copy, Debug, PartialEq, Eq, Structural)]
pub enum Verdict {
    /// An answer held the awaited text.
    Matched,
    /// No answer held it yet, and polls are left.
    Pending,
    /// No answer held it and no poll is left.
    TimedOut,
}

/// A wait for an answer of the controller, poll by poll.
#[derive(Debug)]
pub struct ResponseWait {
    /// The text that is awaited.
    pub expect: String,
    /// The polls that may still be made.
    pub polls_left: usize,
    /// Whether an answer held the text.
    pub matched: bool,
}

impl ResponseWait {
    /// The wait before its first poll.
    pub open spec fn begun(expect: String, polls: usize) -> ResponseWait {
        ResponseWait { expect, polls_left: polls, matched: false }
    }

    /// How the wait stands.
    pub open spec fn verdict_of(self) -> Verdict {
        if self.matched {
            Verdict::Matched
        } else if self.polls_left == 0 {
            Verdict::TimedOut
        } else {
            Verdict::Pending
        }
    }

    /// The wait after one more poll, which brought the line `answer` or, when
    /// the poll ran out, nothing. A wait that is over stays as it is.
    pub open spec fn observed(self, answer: Option<Seq<char>>) -> ResponseWait {
        if self.verdict_of() != Verdict::Pending {
            self
        } else {
            ResponseWait {
                polls_left: (self.polls_left - 1) as usize,
                matched: answer is Some && occurs_in(answer->0, self.expect@),
                ..self
            }
        }
    }

    /// The wait after the polls `answers`, first to last.
    pub open spec fn after_polls(self, answers: Seq<Option<Seq<char>>>) -> ResponseWait
        decreases answers.len(),
    {
        if answers.len() == 0 {
            self
        } else {
            self.after_polls(answers.drop_last()).observed(answers.last())
        }
    }

    /// Begins a wait for `expect` that gives up after `polls` polls.
    pub fn new(expect: String, polls: usize) -> (wait: ResponseWait)
        ensures
            wait == ResponseWait::begun(expect, polls),
    {
        ResponseWait { expect, polls_left: polls, matched: false }
    }

    pub fn verdict(&self) -> (verdict: Verdict)
        ensures
            verdict == self.verdict_of(),
    {
        if self.matched {
            Verdict::Matched
        } else if self.polls_left == 0 {
            Verdict::TimedOut
        } else {
            Verdict::Pending
        }
    }

    /// Takes one poll into account: the line it brought, or nothing when it
    /// ran out.
    pub fn await_response(&mut self, answer: Option<&str>) -> (verdict: Verdict)
        ensures
            *final(self) == old(self).observed(
                match answer {
                    Some(line) => Some(line@),
                    None => None,
                },
            ),
            verdict == final(self).verdict_of(),
    {
        if !self.matched && self.polls_left > 0 {
            self.polls_left = self.polls_left - 1;
            self.matched = match answer {
                Some(line) => check_response(line, self.expect.as_str()),
                None => false,
            };
        }
        self.verdict()
    }
}

/// `answers[i]` is a line that holds `expect` and comes within the first
/// `polls` polls.
pub open spec fn answers_at(
    answers: Seq<Option<Seq<char>>>,
    expect: Seq<char>,
    polls: usize,
    i: int,
) -> bool {
    &&& 0 <= i < answers.len()
    &&& i < polls
    &&& answers[i] is Some
    &&& occurs_in(answers[i]->0, expect)
}

/// A wait ends matched exactly when one of the answers that came within its
/// polls holds the awaited text; answers that come later count for nothing.
pub proof fn lemma_wait_matches_iff_answered(
    expect: String,
    polls: usize,
    answers: Seq<Option<Seq<char>>>,
)
    ensures
        ResponseWait::begun(expect, polls).after_polls(answers).matched <==> exists|i: int|
            answers_at(answers, expect@, polls, i),
        ResponseWait::begun(expect, polls).after_polls(answers).expect == expect,
        !ResponseWait::begun(expect, polls).after_polls(answers).matched
            ==> ResponseWait::begun(expect, polls).after_polls(answers).polls_left == if polls
            >= answers.len() {
            polls - answers.len()
        } else {
            0
        },
    decreases answers.len(),
{
    let start = ResponseWait::begun(expect, polls);
    if answers.len() > 0 {
        let earlier = answers.drop_last();
        let last = answers.len() - 1;
        lemma_wait_matches_iff_answered(expect, polls, earlier);
        let before = start.after_polls(earlier);
        if before.matched {
            let i = choose|i: int| answers_at(earlier, expect@, polls, i);
            assert(answers_at(answers, expect@, polls, i));
        } else {
            assert forall|i: int| answers_at(answers, expect@, polls, i) implies i == last by {
                if i != last {
                    assert(answers_at(earlier, expect@, polls, i));
                }
            }
            if before.observed(answers.last()).matched {
                assert(answers_at(answers, expect@, polls, last));
            }
        }
    }
}

} // verus!
