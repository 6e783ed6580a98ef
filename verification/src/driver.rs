//! The driver loop as a state machine.
//!
//! The machine decides; its caller acts. The caller performs the action that a
//! step returns and hands back what happened as the next event:
//!
//! * after [`Action::Read`] and [`Action::Report`] it reads one line and answers
//!   [`Event::Line`] (the line without its terminator), [`Event::EndOfInput`] or
//!   [`Event::InputFailed`];
//! * after [`Action::Send`] it sends the request, waits for the whole response
//!   and answers [`Event::Response`] or [`Event::TransportFailed`];
//! * after [`Action::Emit`] it writes the line to standard output and answers
//!   [`Event::Written`] or [`Event::OutputFailed`];
//! * after [`Action::Finish`] and [`Action::Abort`] the run is over.
//!
//! Records are handled strictly one after the other, each exactly once.

use vstd::prelude::*;
use crate::address::BaseUrl;
use crate::extract::{extract_line, request_for_line, Convention, Request, RequestView};
use crate::json::json_parse;
use crate::response::{interpret, interpretation, output_line, ResponseError};

verus! {

/// What becomes of the run when one record cannot be processed: its line is not
/// JSON, or the store's response holds no result.
#[derive(Clone, Copy, Debug, PartialEq, Eq, Structural)]
pub enum Policy {
    /// The run stops at the first such record.
    Abort,
    /// The record is reported and the run goes on with the next line.
    SkipAndReport,
}

/// What a run is set up with. None of it changes during the run.
#[derive(Debug)]
pub struct Config {
    pub base: BaseUrl,
    pub convention: Convention,
    pub policy: Policy,
}

/// A configuration, with the base URL by its characters.
pub struct ConfigView {
    pub base: Seq<char>,
    pub convention: Convention,
    pub policy: Policy,
}

impl View for Config {
    type V = ConfigView;

    open spec fn view(&self) -> ConfigView {
        ConfigView { base: self.base@, convention: self.convention, policy: self.policy }
    }
}

/// Where the run stands between two steps.
#[derive(Clone, Copy, Debug, PartialEq, Eq, Structural)]
pub enum Phase {
    /// The next line is being read.
    AwaitingLine,
    /// A request is on its way.
    Executing,
    /// A line of output is being written.
    Emitting,
    /// The input ended and every record was handled.
    Done,
    /// The run was given up.
    Aborted,
}

/// Why a record was given up, or the whole run.
#[derive(Clone, Copy, Debug, PartialEq, Eq, Structural)]
pub enum Fault {
    /// The input could not be read.
    Input,
    /// A line of input is not JSON.
    Record,
    /// The request did not get through.
    Transport,
    /// The response holds no result.
    Response(ResponseError),
    /// The output could not be written.
    Output,
    /// An event arrived that answers no action of this machine.
    OutOfTurn,
}

/// What happened outside, as the caller reports it.
#[derive(Debug, PartialEq, Eq)]
pub enum Event {
    Line(String),
    EndOfInput,
    InputFailed,
    Response(Vec<u8>),
    TransportFailed,
    Written,
    OutputFailed,
}

/// An event, with its text by its characters and its body by its bytes.
pub enum EventView {
    Line(Seq<char>),
    EndOfInput,
    InputFailed,
    Response(Seq<u8>),
    TransportFailed,
    Written,
    OutputFailed,
}

impl View for Event {
    type V = EventView;

    open spec fn view(&self) -> EventView {
        match self {
            Event::Line(line) => EventView::Line(line@),
            Event::EndOfInput => EventView::EndOfInput,
            Event::InputFailed => EventView::InputFailed,
            Event::Response(body) => EventView::Response(body@),
            Event::TransportFailed => EventView::TransportFailed,
            Event::Written => EventView::Written,
            Event::OutputFailed => EventView::OutputFailed,
        }
    }
}

/// What the caller is to do next.
#[derive(Debug, PartialEq, Eq)]
pub enum Action {
    /// Read the next line.
    Read,
    /// Send this request.
    Send(Request),
    /// Write this line to standard output.
    Emit(String),
    /// Tell the error channel that the record at hand was given up, then read the
    /// next line.
    Report(Fault),
    /// Stop: the run succeeded.
    Finish,
    /// Stop: the run failed.
    Abort(Fault),
    /// Nothing: the run was over before this event.
    Halt,
}

/// An action, with its texts by their characters.
pub enum ActionView {
    Read,
    Send(RequestView),
    Emit(Seq<char>),
    Report(Fault),
    Finish,
    Abort(Fault),
    Halt,
}

impl View for Action {
    type V = ActionView;

    open spec fn view(&self) -> ActionView {
        match self {
            Action::Read => ActionView::Read,
            Action::Send(request) => ActionView::Send(request@),
            Action::Emit(line) => ActionView::Emit(line@),
            Action::Report(fault) => ActionView::Report(*fault),
            Action::Finish => ActionView::Finish,
            Action::Abort(fault) => ActionView::Abort(*fault),
            Action::Halt => ActionView::Halt,
        }
    }
}

/// Whether the run is over in this phase.
pub open spec fn is_over(phase: Phase) -> bool {
    phase == Phase::Done || phase == Phase::Aborted
}

/// Giving up one record: under `Abort` the run ends, under `SkipAndReport` the
/// record is reported and the next line is awaited.
pub open spec fn give_up(policy: Policy, fault: Fault) -> (Phase, ActionView) {
    match policy {
        Policy::Abort => (Phase::Aborted, ActionView::Abort(fault)),
        Policy::SkipAndReport => (Phase::AwaitingLine, ActionView::Report(fault)),
    }
}

/// The step on a line of input. An empty line is skipped; any other line is sent
/// as its request, or given up where it is not JSON.
pub open spec fn line_step(config: ConfigView, line: Seq<char>) -> (Phase, ActionView) {
    if line.len() == 0 {
        (Phase::AwaitingLine, ActionView::Read)
    } else {
        match request_for_line(config.convention, config.base, line) {
            Some(request) => (Phase::Executing, ActionView::Send(request)),
            None => give_up(config.policy, Fault::Record),
        }
    }
}

/// The step on a response. Its result becomes a line of output; a response
/// without a result is given up.
pub open spec fn response_step(config: ConfigView, body: Seq<u8>) -> (Phase, ActionView) {
    match interpretation(body) {
        Ok(result) => (Phase::Emitting, ActionView::Emit(output_line(result))),
        Err(error) => give_up(config.policy, Fault::Response(error)),
    }
}

/// One step of the machine: the next phase and the action to perform.
pub open spec fn transition(config: ConfigView, phase: Phase, event: EventView) -> (
    Phase,
    ActionView,
) {
    match (phase, event) {
        (Phase::Done, _) => (Phase::Done, ActionView::Halt),
        (Phase::Aborted, _) => (Phase::Aborted, ActionView::Halt),
        (Phase::AwaitingLine, EventView::Line(line)) => line_step(config, line),
        (Phase::AwaitingLine, EventView::EndOfInput) => (Phase::Done, ActionView::Finish),
        (Phase::AwaitingLine, EventView::InputFailed) => (
            Phase::Aborted,
            ActionView::Abort(Fault::Input),
        ),
        (Phase::Executing, EventView::Response(body)) => response_step(config, body),
        (Phase::Executing, EventView::TransportFailed) => (
            Phase::Aborted,
            ActionView::Abort(Fault::Transport),
        ),
        (Phase::Emitting, EventView::Written) => (Phase::AwaitingLine, ActionView::Read),
        (Phase::Emitting, EventView::OutputFailed) => (
            Phase::Aborted,
            ActionView::Abort(Fault::Output),
        ),
        _ => (Phase::Aborted, ActionView::Abort(Fault::OutOfTurn)),
    }
}

/// The actions of a run that starts in `phase` and meets `events` in turn.
pub open spec fn run(config: ConfigView, phase: Phase, events: Seq<EventView>) -> Seq<ActionView>
    decreases events.len(),
{
    if events.len() == 0 {
        Seq::empty()
    } else {
        let (next, action) = transition(config, phase, events.first());
        seq![action] + run(config, next, events.drop_first())
    }
}

/// The exit code with which a run ends after an action, if it ends there.
pub open spec fn exit_code(action: ActionView) -> Option<i32> {
    match action {
        ActionView::Finish => Some(0),
        ActionView::Abort(_) => Some(1),
        _ => None,
    }
}

impl Action {
    /// The exit code of the process, where this action ends the run: 0 after
    /// `Finish`, 1 after `Abort`.
    pub fn exit_code(&self) -> (code: Option<i32>)
        ensures
            code == exit_code(self@),
    {
        match self {
            Action::Finish => Some(0),
            Action::Abort(_) => Some(1),
            _ => None,
        }
    }
}

/// The phase in which every run starts, and its first action.
pub fn start() -> (first: (Phase, Action))
    ensures
        first.0 == Phase::AwaitingLine,
        first.1@ == ActionView::Read,
{
    (Phase::AwaitingLine, Action::Read)
}

fn refuse(policy: Policy, fault: Fault) -> (next: (Phase, Action))
    ensures
        (next.0, next.1@) == give_up(policy, fault),
{
    match policy {
        Policy::Abort => (Phase::Aborted, Action::Abort(fault)),
        Policy::SkipAndReport => (Phase::AwaitingLine, Action::Report(fault)),
    }
}

/// Decides what to do with one line of input.
pub fn on_line(config: &Config, line: &str) -> (next: (Phase, Action))
    ensures
        (next.0, next.1@) == line_step(config@, line@),
{
    if line.is_empty() {
        (Phase::AwaitingLine, Action::Read)
    } else {
        match extract_line(config.convention, &config.base, line) {
            Ok(request) => (Phase::Executing, Action::Send(request)),
            Err(_) => refuse(config.policy, Fault::Record),
        }
    }
}

/// Decides what to do with the body of a response.
pub fn on_response(config: &Config, body: &[u8]) -> (next: (Phase, Action))
    ensures
        (next.0, next.1@) == response_step(config@, body@),
{
    match interpret(body) {
        Ok(result) => (Phase::Emitting, Action::Emit(result.render())),
        Err(error) => refuse(config.policy, Fault::Response(error)),
    }
}

/// One step of the run: from the phase and what just happened to the next phase
/// and what to do.
pub fn step(config: &Config, phase: Phase, event: Event) -> (next: (Phase, Action))
    ensures
        (next.0, next.1@) == transition(config@, phase, event@),
{
    match phase {
        Phase::Done => (Phase::Done, Action::Halt),
        Phase::Aborted => (Phase::Aborted, Action::Halt),
        Phase::AwaitingLine => match event {
            Event::Line(line) => on_line(config, line.as_str()),
            Event::EndOfInput => (Phase::Done, Action::Finish),
            Event::InputFailed => (Phase::Aborted, Action::Abort(Fault::Input)),
            _ => (Phase::Aborted, Action::Abort(Fault::OutOfTurn)),
        },
        Phase::Executing => match event {
            Event::Response(body) => on_response(config, body.as_slice()),
            Event::TransportFailed => (Phase::Aborted, Action::Abort(Fault::Transport)),
            _ => (Phase::Aborted, Action::Abort(Fault::OutOfTurn)),
        },
        Phase::Emitting => match event {
            Event::Written => (Phase::AwaitingLine, Action::Read),
            Event::OutputFailed => (Phase::Aborted, Action::Abort(Fault::Output)),
            _ => (Phase::Aborted, Action::Abort(Fault::OutOfTurn)),
        },
    }
}

/// An empty line is skipped: it leads to no request and to no output, and the
/// run goes on as if the line had not been there.
pub proof fn empty_line_is_skipped(config: ConfigView, phase: Phase, rest: Seq<EventView>)
    ensures
        transition(config, Phase::AwaitingLine, EventView::Line(Seq::empty())) == (
            Phase::AwaitingLine,
            ActionView::Read,
        ),
        !(transition(config, phase, EventView::Line(Seq::empty())).1 is Send),
        !(transition(config, phase, EventView::Line(Seq::empty())).1 is Emit),
        run(config, Phase::AwaitingLine, seq![EventView::Line(Seq::empty())] + rest) == seq![
            ActionView::Read,
        ] + run(config, Phase::AwaitingLine, rest),
{
    let events = seq![EventView::Line(Seq::<char>::empty())] + rest;
    assert(events.first() == EventView::Line(Seq::<char>::empty()));
    assert(events.drop_first() == rest);
}

/// A request is sent only for a line of input that is not empty and is JSON, and
/// a line of output is written only for a response that holds a result. Nothing
/// is sent or written twice for one record: after a request the machine waits
/// for its response, and after a response for the next line.
pub proof fn one_request_per_record(config: ConfigView, phase: Phase, event: EventView)
    ensures
        transition(config, phase, event).1 is Send <==> phase == Phase::AwaitingLine && (
        event matches EventView::Line(line) && line.len() > 0 && json_parse(line) is Some),
        transition(config, phase, event).1 is Send ==> transition(config, phase, event).0
            == Phase::Executing,
        transition(config, phase, event).1 is Emit <==> phase == Phase::Executing && (
        event matches EventView::Response(body) && interpretation(body) is Ok),
        transition(config, phase, event).1 is Emit ==> transition(config, phase, event).0
            == Phase::Emitting,
{
}

/// Under the `Abort` policy a line that is not JSON ends the run; under
/// `SkipAndReport` it is reported and the next line is awaited.
pub proof fn malformed_line_is_given_up(config: ConfigView, line: Seq<char>)
    requires
        line.len() > 0,
        json_parse(line) is None,
    ensures
        config.policy == Policy::Abort ==> transition(
            config,
            Phase::AwaitingLine,
            EventView::Line(line),
        ) == (Phase::Aborted, ActionView::Abort(Fault::Record)),
        config.policy == Policy::SkipAndReport ==> transition(
            config,
            Phase::AwaitingLine,
            EventView::Line(line),
        ) == (Phase::AwaitingLine, ActionView::Report(Fault::Record)),
{
}

/// Once the run is over, nothing more happens: whatever events follow, no line
/// is processed, no request is sent and no output is written.
pub proof fn nothing_follows_the_end(config: ConfigView, phase: Phase, events: Seq<EventView>)
    requires
        is_over(phase),
    ensures
        run(config, phase, events).len() == events.len(),
        forall|i: int| 0 <= i < events.len() ==> run(config, phase, events)[i] == ActionView::Halt,
    decreases events.len(),
{
    if events.len() > 0 {
        let rest = events.drop_first();
        nothing_follows_the_end(config, phase, rest);
        assert forall|i: int| 0 <= i < events.len() implies run(config, phase, events)[i]
            == ActionView::Halt by {
            if i > 0 {
                assert(run(config, phase, events)[i] == run(config, phase, rest)[i - 1]);
            }
        }
    }
}

} // verus!
