//! The controlling loop of a pipeline: start playback, consume the event
//! feed until it ends, and always return the pipeline to rest.
//!
//! A [`Driver`] decides; the caller performs each [`Command`] on the
//! framework and hands back what happened as an [`Input`].

use vstd::prelude::*;

verus! {

/// The lifecycle states of a pipeline.
#[derive(Clone, Copy, Debug, PartialEq, Eq, Hash, Structural)]
pub enum State {
    Null,
    Ready,
    Paused,
    Playing,
}

/// What an error event carries: the path of the element it came from, where
/// that could be resolved, the message, and debugging detail if any.
#[derive(Clone, Debug, PartialEq, Eq)]
pub struct ErrorReport {
    pub source: Option<String>,
    pub message: String,
    pub debug: Option<String>,
}

/// An event on the pipeline's feed.
#[derive(Clone, Debug, PartialEq, Eq)]
pub enum Event {
    EndOfStream,
    Error(ErrorReport),
    /// An element changed state; `from_pipeline` says whether that element
    /// is the pipeline itself.
    StateChanged { old: State, new: State, from_pipeline: bool },
    /// Any other kind of event.
    Other,
}

impl Event {
    /// The events that end the loop.
    pub open spec fn is_terminal(self) -> bool {
        self is EndOfStream || self is Error
    }
}

/// What the caller hands back to the driver.
#[derive(Clone, Debug, PartialEq, Eq)]
pub enum Input {
    /// The framework's answer to the state change last requested: accepted
    /// or refused.
    Transition(bool),
    /// The next event of the feed.
    Bus(Event),
}

/// A state change that the framework refused.
#[derive(Clone, Copy, Debug, PartialEq, Eq, Structural)]
pub enum Failure {
    PlayingRefused,
    NullRefused,
}

impl Failure {
    /// The text that stands for this failure.
    pub open spec fn text(self) -> Seq<char> {
        match self {
            Failure::PlayingRefused => "Unable to set the pipeline to the `Playing` state"@,
            Failure::NullRefused => "Unable to set the pipeline to the `Null` state"@,
        }
    }

    /// The message to end the process with.
    pub fn message(&self) -> (message: &'static str)
        ensures
            message@ == self.text(),
    {
        match self {
            Failure::PlayingRefused => "Unable to set the pipeline to the `Playing` state",
            Failure::NullRefused => "Unable to set the pipeline to the `Null` state",
        }
    }
}

/// What the caller is to do next.
#[derive(Clone, Copy, Debug, PartialEq, Eq, Structural)]
pub enum Command {
    /// Ask the pipeline to change to this state.
    SetState(State),
    /// Wait, without a timeout, for the next event of the feed.
    NextEvent,
    /// Leave normally.
    Exit,
    /// End the process over this failure.
    Abort(Failure),
}

/// Something for the console.
#[derive(Clone, Debug, PartialEq, Eq)]
pub enum Report {
    /// The pipeline went from one state to another.
    Transition { old: State, new: State },
    /// An element reported an error.
    Failure(ErrorReport),
}

/// Where the driver stands.
#[derive(Clone, Copy, Debug, PartialEq, Eq, Structural)]
pub enum Phase {
    /// Playback was requested.
    Starting,
    /// The feed is being consumed.
    Running,
    /// The return to rest was requested.
    Stopping,
    /// Nothing is left to do.
    Finished,
}

/// One step's result.
#[derive(Clone, Debug, PartialEq, Eq)]
pub struct Output {
    pub report: Option<Report>,
    pub command: Command,
}

/// The controlling loop's state.
#[derive(Clone, Copy, Debug, PartialEq, Eq, Structural)]
pub struct Driver {
    /// Where the loop stands.
    pub phase: Phase,
    /// The state that the pipeline last accepted.
    pub state: State,
    /// Whether the pipeline's own state changes are printed.
    pub verbose: bool,
    /// The first state change that was refused, if any.
    pub failure: Option<Failure>,
}

impl Driver {
    /// A driver is consistent where its phase agrees with the pipeline's
    /// state: at rest and unfailed while starting; playing and unfailed while
    /// running; while stopping, playing and unfailed, or at rest because
    /// playback was refused; and at rest once finished, unless the return to
    /// rest itself was refused.
    pub open spec fn wf(self) -> bool {
        match self.phase {
            Phase::Starting => self.state == State::Null && self.failure.is_none(),
            Phase::Running => self.state == State::Playing && self.failure.is_none(),
            Phase::Stopping => (self.failure.is_none() && self.state == State::Playing) || (
            self.failure == Some(Failure::PlayingRefused) && self.state == State::Null),
            Phase::Finished => self.failure == Some(Failure::NullRefused) || self.state
                == State::Null,
        }
    }

    /// The command that a driver in this state waits on.
    pub open spec fn pending(self) -> Command {
        match self.phase {
            Phase::Starting => Command::SetState(State::Playing),
            Phase::Running => Command::NextEvent,
            Phase::Stopping => Command::SetState(State::Null),
            Phase::Finished => match self.failure {
                Some(failure) => Command::Abort(failure),
                None => Command::Exit,
            },
        }
    }

    /// The driver after an input. An input that does not answer the pending
    /// command changes nothing.
    pub open spec fn next(self, input: Input) -> Driver {
        match (self.phase, input) {
            (Phase::Starting, Input::Transition(accepted)) => if accepted {
                Driver { phase: Phase::Running, state: State::Playing, ..self }
            } else {
                Driver { phase: Phase::Stopping, failure: Some(Failure::PlayingRefused), ..self }
            },
            (Phase::Running, Input::Bus(event)) => if event.is_terminal() {
                Driver { phase: Phase::Stopping, ..self }
            } else {
                self
            },
            (Phase::Stopping, Input::Transition(accepted)) => if accepted {
                Driver { phase: Phase::Finished, state: State::Null, ..self }
            } else if self.failure.is_none() {
                Driver { phase: Phase::Finished, failure: Some(Failure::NullRefused), ..self }
            } else {
                Driver { phase: Phase::Finished, ..self }
            },
            _ => self,
        }
    }

    /// What an input makes the driver print: an error event while running,
    /// and, for a verbose driver, a state change of the pipeline itself
    /// while running. Nothing else is ever printed.
    pub open spec fn printed(self, input: Input) -> Option<Report> {
        match (self.phase, input) {
            (Phase::Running, Input::Bus(Event::Error(error))) => Some(Report::Failure(error)),
            (Phase::Running, Input::Bus(Event::StateChanged { old, new, from_pipeline })) => {
                if self.verbose && from_pipeline {
                    Some(Report::Transition { old, new })
                } else {
                    None
                }
            },
            _ => None,
        }
    }

    /// A driver for a pipeline at rest; `verbose` says whether the
    /// pipeline's own state changes are printed.
    pub fn new(verbose: bool) -> (driver: Driver)
        ensures
            driver == (Driver {
                phase: Phase::Starting,
                state: State::Null,
                verbose,
                failure: None,
            }),
            driver.wf(),
    {
        Driver { phase: Phase::Starting, state: State::Null, verbose, failure: None }
    }

    /// The command to perform now.
    pub fn command(&self) -> (command: Command)
        ensures
            command == self.pending(),
    {
        match self.phase {
            Phase::Starting => Command::SetState(State::Playing),
            Phase::Running => Command::NextEvent,
            Phase::Stopping => Command::SetState(State::Null),
            Phase::Finished => match self.failure {
                Some(failure) => Command::Abort(failure),
                None => Command::Exit,
            },
        }
    }

    /// Whether nothing is left to do.
    pub fn is_finished(&self) -> (finished: bool)
        ensures
            finished == (self.phase is Finished),
    {
        match self.phase {
            Phase::Finished => true,
            _ => false,
        }
    }

    /// Takes what happened on the framework, moves on and says what to
    /// print and what to do next.
    pub fn step(&mut self, input: Input) -> (output: Output)
        ensures
            *final(self) == old(self).next(input),
            output.report == old(self).printed(input),
            output.command == final(self).pending(),
            old(self).wf() ==> final(self).wf(),
    {
        let report: Option<Report> = match (self.phase, input) {
            (Phase::Starting, Input::Transition(accepted)) => {
                if accepted {
                    self.phase = Phase::Running;
                    self.state = State::Playing;
                } else {
                    self.phase = Phase::Stopping;
                    self.failure = Some(Failure::PlayingRefused);
                }
                None
            },
            (Phase::Running, Input::Bus(event)) => {
                match event {
                    Event::EndOfStream => {
                        self.phase = Phase::Stopping;
                        None
                    },
                    Event::Error(error) => {
                        self.phase = Phase::Stopping;
                        Some(Report::Failure(error))
                    },
                    Event::StateChanged { old, new, from_pipeline } => {
                        if self.verbose && from_pipeline {
                            Some(Report::Transition { old, new })
                        } else {
                            None
                        }
                    },
                    Event::Other => None,
                }
            },
            (Phase::Stopping, Input::Transition(accepted)) => {
                self.phase = Phase::Finished;
                if accepted {
                    self.state = State::Null;
                } else if self.failure.is_none() {
                    self.failure = Some(Failure::NullRefused);
                }
                None
            },
            _ => None,
        };
        Output { report, command: self.command() }
    }
}

} // verus!
