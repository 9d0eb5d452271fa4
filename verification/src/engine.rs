//! The worker's decisions: which step comes next, given how the last one
//! went.
//!
//! The worker supervises the monitored command. It owns the process and the
//! two channels and does what an [`Engine`] tells it to: read output, send
//! an event, check for the command's exit, poll for an [`Action`], terminate
//! the command, return. After each step it reports the outcome with
//! [`Engine::step`] and gets the next [`Command`].
//!
//! What the engine decides is written down once, as the function [`next`]
//! on plain values; [`Engine::step`] computes it. Three decisions are worth
//! knowing:
//! - A line that is not UTF-8, or whose time token does not follow the
//!   format, ends the run: the command is terminated, the stream is closed,
//!   and the failure is the worker's result. No event is made of such a line
//!   and no line after it is read.
//! - Output is a line once its end has arrived. What the command writes last
//!   without a line end is never reported.
//! - When the command is found to have exited, the stream is closed at once:
//!   lines that were read but not yet taken are not reported.

use crate::error::{outcome_view, Error, ErrorView};
use crate::event::{line_event, line_header, time_unreadable, Event, EventView};
use crate::lines::{after_line, first_line, has_line, take_line};
use crate::text::{decode, starts_with};
use crate::time::Timestamp;
use vstd::prelude::*;
use vstd::utf8::*;

verus! {

/// The line with which the monitored command opens its output.
pub const BANNER: &'static str = "***Begin monitoring";

/// The longest that one read of the command's output waits, in
/// milliseconds.
pub const READ_BOUND: u64 = 314;

/// The longest that one poll for an action waits, in milliseconds.
pub const POLL_BOUND: u64 = 100;

/// The Action that can be sent to the worker to stop it
#[derive(Debug, Clone, Copy, PartialEq, Eq, Structural)]
pub enum Action {
    Stop,
    Noop,
}

/// What the worker does next.
#[derive(Debug, PartialEq, Eq)]
pub enum Command {
    /// Read output of the command, waiting no longer than the read bound.
    Read,
    /// Send this to the receiver of events: an event, or `None` to close the
    /// stream.
    Send(Option<Event>),
    /// Ask, without waiting, whether the command has exited.
    CheckExit,
    /// Wait for an action, no longer than the poll bound.
    PollAction,
    /// Terminate the command.
    Kill,
    /// Return this result.
    Finish(Result<(), Error>),
}

/// How the step that the last [`Command`] asked for went.
#[derive(Debug, PartialEq, Eq)]
pub enum Response {
    /// The read brought these bytes.
    Bytes(Vec<u8>),
    /// The read brought nothing: the bound passed, or the output has ended.
    NoOutput,
    /// The read failed, with this message.
    ReadFailed(String),
    /// The receiver took what was sent.
    Sent,
    /// The receiver of events is gone.
    SendFailed,
    /// The command has exited.
    Exited,
    /// The command is still running.
    Alive,
    /// The check for the command's exit failed, with this message.
    CheckFailed(String),
    /// This action arrived.
    Action(Action),
    /// No action arrived within the bound.
    NoAction,
    /// The command was terminated.
    Killed,
    /// The command could not be terminated, with this message.
    KillFailed(String),
}

/// What a line of output amounts to.
#[derive(Debug, PartialEq, Eq)]
pub enum Reading {
    /// The banner: nothing to report.
    Banner,
    /// An event.
    Report(Event),
    /// A line that cannot be read.
    Failure(Error),
}

/// A [`Command`] as plain values.
pub enum CommandView {
    Read,
    Send(Option<EventView>),
    CheckExit,
    PollAction,
    Kill,
    Finish(Result<(), ErrorView>),
}

/// A [`Response`] as plain values.
pub enum ResponseView {
    Bytes(Seq<u8>),
    NoOutput,
    ReadFailed(Seq<char>),
    Sent,
    SendFailed,
    Exited,
    Alive,
    CheckFailed(Seq<char>),
    Action(Action),
    NoAction,
    Killed,
    KillFailed(Seq<char>),
}

/// Where the worker stands.
pub enum State {
    /// Reading, reporting, checking and polling in turn.
    Running,
    /// Terminating the command and closing the stream of events.
    Stopping,
    /// Done, with this result.
    Terminated(Result<(), ErrorView>),
}

impl View for Command {
    type V = CommandView;

    open spec fn view(&self) -> CommandView {
        match self {
            Command::Read => CommandView::Read,
            Command::Send(Some(event)) => CommandView::Send(Some(event@)),
            Command::Send(None) => CommandView::Send(None),
            Command::CheckExit => CommandView::CheckExit,
            Command::PollAction => CommandView::PollAction,
            Command::Kill => CommandView::Kill,
            Command::Finish(outcome) => CommandView::Finish(outcome_view(*outcome)),
        }
    }
}

impl CommandView {
    /// The longest that the worker waits while it does what the command
    /// asks, in milliseconds: a read and a poll wait up to their bounds,
    /// nothing else waits.
    pub open spec fn wait_bound(self) -> nat {
        match self {
            CommandView::Read => READ_BOUND as nat,
            CommandView::PollAction => POLL_BOUND as nat,
            _ => 0,
        }
    }
}

impl View for Response {
    type V = ResponseView;

    open spec fn view(&self) -> ResponseView {
        match self {
            Response::Bytes(bytes) => ResponseView::Bytes(bytes@),
            Response::NoOutput => ResponseView::NoOutput,
            Response::ReadFailed(message) => ResponseView::ReadFailed(message@),
            Response::Sent => ResponseView::Sent,
            Response::SendFailed => ResponseView::SendFailed,
            Response::Exited => ResponseView::Exited,
            Response::Alive => ResponseView::Alive,
            Response::CheckFailed(message) => ResponseView::CheckFailed(message@),
            Response::Action(action) => ResponseView::Action(*action),
            Response::NoAction => ResponseView::NoAction,
            Response::Killed => ResponseView::Killed,
            Response::KillFailed(message) => ResponseView::KillFailed(message@),
        }
    }
}

/// The text of a line, where its bytes are UTF-8.
pub open spec fn line_text(line: Seq<u8>) -> Option<Seq<char>> {
    if valid_utf8(line) {
        Some(decode_utf8(line))
    } else {
        None
    }
}

/// `line` is the banner: text that begins with [`BANNER`].
pub open spec fn is_banner(line: Seq<u8>) -> bool {
    line_text(line) matches Some(text) && BANNER@.is_prefix_of(text)
}

/// Why `line` cannot be read, if it cannot: its bytes are not UTF-8, or it
/// is no banner and the time token of its head does not follow the format.
pub open spec fn line_failure(line: Seq<u8>) -> Option<ErrorView> {
    match line_text(line) {
        None => Some(ErrorView::Utf8(line)),
        Some(text) => if !BANNER@.is_prefix_of(text) && time_unreadable(text) {
            Some(ErrorView::Time(line_header(text).unwrap().time))
        } else {
            None
        },
    }
}

/// `line` reports an event: it can be read and is no banner.
pub open spec fn reports(line: Seq<u8>) -> bool {
    !is_banner(line) && line_failure(line) is None
}

/// The event that `line` reports; `now` is its time where the line has no
/// head.
pub open spec fn reported_event(line: Seq<u8>, now: Timestamp) -> EventView {
    line_event(decode_utf8(line), now)
}

/// The first of two failures: once something has failed, a later failure
/// does not replace it.
pub open spec fn first_failure(earlier: Option<ErrorView>, later: ErrorView) -> Option<ErrorView> {
    match earlier {
        Some(_) => earlier,
        None => Some(later),
    }
}

/// The worker's result: success unless something failed.
pub open spec fn outcome_of(failure: Option<ErrorView>) -> Result<(), ErrorView> {
    match failure {
        Some(error) => Err(error),
        None => Ok(()),
    }
}

/// An [`Engine`] as plain values.
pub struct EngineView {
    /// The command that is outstanding.
    pub command: CommandView,
    /// The output that was read and belongs to no line yet taken.
    pub pending: Seq<u8>,
    /// What failed first, if anything did.
    pub failure: Option<ErrorView>,
}

impl EngineView {
    /// The engine of a worker that has just started the command.
    pub open spec fn initial() -> EngineView {
        EngineView { command: CommandView::Read, pending: Seq::empty(), failure: None }
    }

    /// This engine with another command outstanding.
    pub open spec fn with(self, command: CommandView) -> EngineView {
        EngineView { command, ..self }
    }

    /// This engine after `error`: the command is to be terminated.
    pub open spec fn fail(self, error: ErrorView) -> EngineView {
        EngineView {
            command: CommandView::Kill,
            failure: first_failure(self.failure, error),
            ..self
        }
    }

    /// This engine after it has turned to the output that is pending. The
    /// first whole line is taken: a banner is passed over, an event is to be
    /// sent, a line that cannot be read is a failure. Without a whole line
    /// the engine goes on to check for the command's exit.
    pub open spec fn take(self, now: Timestamp) -> EngineView {
        if has_line(self.pending) {
            let line = first_line(self.pending);
            let rest = EngineView { pending: after_line(self.pending), ..self };
            if is_banner(line) {
                rest.with(CommandView::CheckExit)
            } else {
                match line_failure(line) {
                    Some(error) => rest.fail(error),
                    None => rest.with(CommandView::Send(Some(reported_event(line, now)))),
                }
            }
        } else {
            self.with(CommandView::CheckExit)
        }
    }

    /// The time of the event that is to be sent, if one is.
    pub open spec fn clock(self) -> Timestamp {
        match self.command {
            CommandView::Send(Some(event)) => event.time,
            _ => Timestamp {
                year: 0,
                month: 0,
                day: 0,
                hour: 0,
                minute: 0,
                second: 0,
                nanosecond: 0,
            },
        }
    }

    /// Where the worker stands while this command is outstanding.
    pub open spec fn state(self) -> State {
        match self.command {
            CommandView::Kill | CommandView::Send(None) => State::Stopping,
            CommandView::Finish(outcome) => State::Terminated(outcome),
            _ => State::Running,
        }
    }
}

/// The engine after the outstanding command was answered by `response`.
/// `now` is the time that an event gets where its line has no head.
///
/// While running, the worker reads, sends what a line reports, checks for
/// the command's exit and polls for an action, in turn; output that holds a
/// whole line is turned to before more is read. `Stop`, or a failure, has
/// the command terminated; then, as after the command's exit, the stream of
/// events is closed with `None` and the worker returns. A response that does
/// not answer the outstanding command changes nothing.
pub open spec fn next(s: EngineView, response: ResponseView, now: Timestamp) -> EngineView {
    match (s.command, response) {
        (CommandView::Read, ResponseView::Bytes(chunk)) => (EngineView {
            pending: s.pending + chunk,
            ..s
        }).take(now),
        (CommandView::Read, ResponseView::NoOutput) => s.with(CommandView::CheckExit),
        (CommandView::Read, ResponseView::ReadFailed(message)) => s.fail(ErrorView::Io(message)),
        (CommandView::Send(Some(_)), ResponseView::Sent) => s.with(CommandView::CheckExit),
        (CommandView::Send(Some(_)), ResponseView::SendFailed) => s.fail(ErrorView::SendError),
        (CommandView::CheckExit, ResponseView::Exited) => s.with(CommandView::Send(None)),
        (CommandView::CheckExit, ResponseView::Alive) => s.with(CommandView::PollAction),
        (CommandView::CheckExit, ResponseView::CheckFailed(message)) => s.fail(
            ErrorView::Io(message),
        ),
        (CommandView::PollAction, ResponseView::Action(Action::Stop)) => s.with(CommandView::Kill),
        (CommandView::PollAction, ResponseView::Action(Action::Noop))
        | (CommandView::PollAction, ResponseView::NoAction) => if has_line(s.pending) {
            s.take(now)
        } else {
            s.with(CommandView::Read)
        },
        (CommandView::Kill, ResponseView::Killed) => s.with(CommandView::Send(None)),
        (CommandView::Kill, ResponseView::KillFailed(message)) => EngineView {
            command: CommandView::Send(None),
            failure: first_failure(s.failure, ErrorView::Kill(message)),
            ..s
        },
        (CommandView::Send(None), ResponseView::Sent) => s.with(
            CommandView::Finish(outcome_of(s.failure)),
        ),
        (CommandView::Send(None), ResponseView::SendFailed) => {
            let failure = first_failure(s.failure, ErrorView::SendError);
            EngineView { command: CommandView::Finish(outcome_of(failure)), failure, ..s }
        },
        _ => s,
    }
}

/// Says what a line of output, given without its end, amounts to.
pub fn read_line(line: Vec<u8>) -> (reading: Reading)
    ensures
        match reading {
            Reading::Banner => is_banner(line@),
            Reading::Report(event) => {
                &&& reports(line@)
                &&& event@ == reported_event(line@, event@.time)
                &&& event@.sentinel_free()
            },
            Reading::Failure(error) => line_failure(line@) == Some(error@),
        },
{
    match decode(line.as_slice()) {
        Some(text) => {
            proof {
                // The text is what its bytes decode to.
                encode_utf8_decode_utf8(text@);
            }
            if starts_with(text, BANNER) {
                Reading::Banner
            } else {
                match Event::try_from_line(text) {
                    Ok(event) => Reading::Report(event),
                    Err(error) => Reading::Failure(error),
                }
            }
        },
        None => Reading::Failure(Error::Utf8(line)),
    }
}

/// The decisions of the worker that supervises the monitored command.
pub struct Engine {
    command: Command,
    pending: Vec<u8>,
    failure: Option<Error>,
}

impl View for Engine {
    type V = EngineView;

    closed spec fn view(&self) -> EngineView {
        EngineView {
            command: self.command@,
            pending: self.pending@,
            failure: match self.failure {
                Some(error) => Some(error@),
                None => None,
            },
        }
    }
}

impl Clone for Command {
    fn clone(&self) -> (command: Command)
        ensures
            command@ == self@,
    {
        match self {
            Command::Read => Command::Read,
            Command::Send(Some(event)) => Command::Send(Some(event.clone())),
            Command::Send(None) => Command::Send(None),
            Command::CheckExit => Command::CheckExit,
            Command::PollAction => Command::PollAction,
            Command::Kill => Command::Kill,
            Command::Finish(Ok(())) => Command::Finish(Ok(())),
            Command::Finish(Err(error)) => Command::Finish(Err(error.clone())),
        }
    }
}

impl Command {
    /// The longest that the worker may wait while it does what the command
    /// asks, in milliseconds.
    pub fn wait_bound(&self) -> (millis: u64)
        ensures
            millis == self@.wait_bound(),
    {
        match self {
            Command::Read => READ_BOUND,
            Command::PollAction => POLL_BOUND,
            _ => 0,
        }
    }
}

impl Engine {
    /// The engine of a worker that has just started the command: the first
    /// thing to do is to read.
    pub fn new() -> (engine: Engine)
        ensures
            engine@ == EngineView::initial(),
    {
        Engine { command: Command::Read, pending: Vec::new(), failure: None }
    }

    /// The command that is outstanding.
    pub fn command(&self) -> (command: Command)
        ensures
            command@ == self@.command,
    {
        self.command.clone()
    }

    /// Records a failure, unless something failed before, and has the
    /// command terminated.
    fn fail(&mut self, error: Error)
        ensures
            final(self)@ == old(self)@.fail(error@),
    {
        if self.failure.is_none() {
            self.failure = Some(error);
        }
        self.command = Command::Kill;
    }

    /// Turns to the output that is pending, and says whether it held a
    /// whole line.
    fn take(&mut self) -> (taken: bool)
        ensures
            final(self)@ == old(self)@.take(final(self)@.clock()),
            taken == has_line(old(self)@.pending),
    {
        match take_line(&mut self.pending) {
            Some(line) => {
                match read_line(line) {
                    Reading::Banner => {
                        self.command = Command::CheckExit;
                    },
                    Reading::Report(event) => {
                        self.command = Command::Send(Some(event));
                    },
                    Reading::Failure(error) => {
                        self.fail(error);
                    },
                }
                true
            },
            None => {
                self.command = Command::CheckExit;
                false
            },
        }
    }

    /// The worker's result as things stand.
    fn outcome(&self) -> (outcome: Result<(), Error>)
        ensures
            outcome_view(outcome) == outcome_of(self@.failure),
    {
        match &self.failure {
            Some(error) => Err(error.clone()),
            None => Ok(()),
        }
    }

    /// Takes the answer to the outstanding command and says what to do next.
    pub fn step(&mut self, response: Response) -> (command: Command)
        ensures
            final(self)@ == next(old(self)@, response@, final(self)@.clock()),
            command@ == final(self)@.command,
    {
        match (&self.command, response) {
            (Command::Read, Response::Bytes(chunk)) => {
                let mut chunk = chunk;
                self.pending.append(&mut chunk);
                self.take();
            },
            (Command::Read, Response::NoOutput) => {
                self.command = Command::CheckExit;
            },
            (Command::Read, Response::ReadFailed(message)) => {
                self.fail(Error::Io(message));
            },
            (Command::Send(Some(_)), Response::Sent) => {
                self.command = Command::CheckExit;
            },
            (Command::Send(Some(_)), Response::SendFailed) => {
                self.fail(Error::SendError);
            },
            (Command::CheckExit, Response::Exited) => {
                self.command = Command::Send(None);
            },
            (Command::CheckExit, Response::Alive) => {
                self.command = Command::PollAction;
            },
            (Command::CheckExit, Response::CheckFailed(message)) => {
                self.fail(Error::Io(message));
            },
            (Command::PollAction, Response::Action(Action::Stop)) => {
                self.command = Command::Kill;
            },
            (Command::PollAction, Response::Action(Action::Noop))
            | (Command::PollAction, Response::NoAction) => {
                if !self.take() {
                    self.command = Command::Read;
                }
            },
            (Command::Kill, Response::Killed) => {
                self.command = Command::Send(None);
            },
            (Command::Kill, Response::KillFailed(message)) => {
                if self.failure.is_none() {
                    self.failure = Some(Error::Kill(message));
                }
                self.command = Command::Send(None);
            },
            (Command::Send(None), Response::Sent) => {
                self.command = Command::Finish(self.outcome());
            },
            (Command::Send(None), Response::SendFailed) => {
                if self.failure.is_none() {
                    self.failure = Some(Error::SendError);
                }
                self.command = Command::Finish(self.outcome());
            },
            _ => {},
        }
        self.command.clone()
    }
}

} // verus!
