//! Late binding of a newly discovered stream to its converter.
//!
//! Each notification of a new output port starts one [`Linker`]. The caller
//! performs what the linker requests on the framework and hands back what it
//! observed; the linker decides the next request. A linker never repeats a
//! link request, and it stops without any request when a referent is gone
//! or both converters are already connected.

use vstd::prelude::*;
use crate::media::{classify, kind_of, MediaKind};

verus! {

/// Which of the weakly held objects were still there when the handles were
/// upgraded.
#[derive(Clone, Copy, Debug, PartialEq, Eq, Structural)]
pub struct Referents {
    pub pipeline: bool,
    pub audio_converter: bool,
    pub video_converter: bool,
}

impl Referents {
    /// All three referents are still alive.
    pub open spec fn all_alive(self) -> bool {
        self.pipeline && self.audio_converter && self.video_converter
    }
}

/// The input ports of the two converters: `None` where the converter has no
/// such port, otherwise whether it is already linked.
#[derive(Clone, Copy, Debug, PartialEq, Eq, Structural)]
pub struct Ports {
    pub audio: Option<bool>,
    pub video: Option<bool>,
}

impl Ports {
    /// Both input ports exist and both are linked.
    pub open spec fn saturated(self) -> bool {
        self.audio == Some(true) && self.video == Some(true)
    }
}

/// What the new output port has negotiated.
#[derive(Clone, Debug, PartialEq, Eq)]
pub enum Caps {
    /// Nothing has been negotiated on the port.
    Absent,
    /// The negotiated capabilities hold no structure.
    Empty,
    /// The media type of the first structure.
    Named(String),
}

/// A condition that the linker cannot recover from. The caller ends the
/// process with [`Fault::message`].
#[derive(Clone, Copy, Debug, PartialEq, Eq, Structural)]
pub enum Fault {
    NoAudioPort,
    NoVideoPort,
    NoCaps,
    NoStructure,
    UnsupportedType,
}

impl Fault {
    /// The text that stands for this fault.
    pub open spec fn text(self) -> Seq<char> {
        match self {
            Fault::NoAudioPort => "Failed to get static sink pad from audio convert"@,
            Fault::NoVideoPort => "Failed to get static sink pad from video convert"@,
            Fault::NoCaps => "Failed to get caps from new pad."@,
            Fault::NoStructure => "Failed to get first structure of caps"@,
            Fault::UnsupportedType => "new pad type is not video or audio"@,
        }
    }

    /// The message to end the process with.
    pub fn message(&self) -> (message: &'static str)
        ensures
            message@ == self.text(),
    {
        match self {
            Fault::NoAudioPort => "Failed to get static sink pad from audio convert",
            Fault::NoVideoPort => "Failed to get static sink pad from video convert",
            Fault::NoCaps => "Failed to get caps from new pad.",
            Fault::NoStructure => "Failed to get first structure of caps",
            Fault::UnsupportedType => "new pad type is not video or audio",
        }
    }
}

/// A line for the console.
#[derive(Clone, Copy, Debug, PartialEq, Eq, Structural)]
pub enum Notice {
    /// A new output port was received.
    NewPort,
    /// Both converters are linked already; the port is ignored.
    AlreadyLinked,
    /// The link to the converter of this kind succeeded.
    LinkSucceeded(MediaKind),
    /// The framework refused the link to the converter of this kind.
    LinkFailed(MediaKind),
}

/// What the caller is to do next.
#[derive(Clone, Copy, Debug, PartialEq, Eq, Structural)]
pub enum Request {
    /// Upgrade the weak handles and report which referents are alive.
    Upgrade,
    /// Look up both converters' input ports and report whether they are linked.
    InspectPorts,
    /// Read the media type that the new port has negotiated.
    ReadCaps,
    /// Link the new port to the input port of the converter of this kind.
    Link(MediaKind),
    /// Return from the notification.
    Return,
    /// End the process.
    Abort(Fault),
}

/// What the caller observed on the framework.
#[derive(Clone, Debug, PartialEq, Eq)]
pub enum Observation {
    Handles(Referents),
    Ports(Ports),
    Caps(Caps),
    Linked(bool),
}

/// The state of one notification's handling.
#[derive(Clone, Copy, Debug, PartialEq, Eq, Structural)]
pub enum Linker {
    /// Nothing is known yet.
    Notified,
    /// All referents are alive.
    Alive,
    /// At least one converter is still free.
    Unlinked,
    /// A link to the converter of this kind was requested.
    Linking(MediaKind),
    /// The notification is handled.
    Done,
    /// The notification met a fault.
    Failed(Fault),
}

/// One step's result: a line to print, if any, and the next request.
#[derive(Clone, Copy, Debug, PartialEq, Eq, Structural)]
pub struct Reaction {
    pub notice: Option<Notice>,
    pub request: Request,
}

/// The linker's verdict on the port report: a fault where a port is
/// missing, the end where both are linked, otherwise on to the media type.
pub open spec fn after_ports(ports: Ports) -> (Linker, Option<Notice>) {
    if ports.audio.is_none() {
        (Linker::Failed(Fault::NoAudioPort), None)
    } else if ports.video.is_none() {
        (Linker::Failed(Fault::NoVideoPort), None)
    } else if ports.saturated() {
        (Linker::Done, Some(Notice::AlreadyLinked))
    } else {
        (Linker::Unlinked, None)
    }
}

/// The linker's verdict on the negotiated capabilities.
pub open spec fn after_caps(caps: Caps) -> Linker {
    match caps {
        Caps::Absent => Linker::Failed(Fault::NoCaps),
        Caps::Empty => Linker::Failed(Fault::NoStructure),
        Caps::Named(name) => match kind_of(name@) {
            Some(kind) => Linker::Linking(kind),
            None => Linker::Failed(Fault::UnsupportedType),
        },
    }
}

impl Linker {
    /// The request that a linker in this state waits on.
    pub open spec fn pending(self) -> Request {
        match self {
            Linker::Notified => Request::Upgrade,
            Linker::Alive => Request::InspectPorts,
            Linker::Unlinked => Request::ReadCaps,
            Linker::Linking(kind) => Request::Link(kind),
            Linker::Done => Request::Return,
            Linker::Failed(fault) => Request::Abort(fault),
        }
    }

    /// The state after an observation, and the line to print. An observation
    /// that does not answer the pending request changes nothing.
    pub open spec fn next(self, seen: Observation) -> (Linker, Option<Notice>) {
        match (self, seen) {
            (Linker::Notified, Observation::Handles(referents)) => if referents.all_alive() {
                (Linker::Alive, Some(Notice::NewPort))
            } else {
                (Linker::Done, None)
            },
            (Linker::Alive, Observation::Ports(ports)) => after_ports(ports),
            (Linker::Unlinked, Observation::Caps(caps)) => (after_caps(caps), None),
            (Linker::Linking(kind), Observation::Linked(accepted)) => if accepted {
                (Linker::Done, Some(Notice::LinkSucceeded(kind)))
            } else {
                (Linker::Done, Some(Notice::LinkFailed(kind)))
            },
            _ => (self, None),
        }
    }

    /// Whether this observation makes the linker request a link.
    pub open spec fn attempts(self, seen: Observation) -> bool {
        !(self is Linking) && self.next(seen).0 is Linking
    }

    /// A linker for a fresh notification.
    pub fn new() -> (linker: Linker)
        ensures
            linker == Linker::Notified,
    {
        Linker::Notified
    }

    /// The request to perform now.
    pub fn request(&self) -> (request: Request)
        ensures
            request == self.pending(),
    {
        match self {
            Linker::Notified => Request::Upgrade,
            Linker::Alive => Request::InspectPorts,
            Linker::Unlinked => Request::ReadCaps,
            Linker::Linking(kind) => Request::Link(*kind),
            Linker::Done => Request::Return,
            Linker::Failed(fault) => Request::Abort(*fault),
        }
    }

    /// Whether the notification is over: nothing more is to be observed.
    pub fn is_finished(&self) -> (finished: bool)
        ensures
            finished == (*self is Done || *self is Failed),
    {
        match self {
            Linker::Done => true,
            Linker::Failed(_) => true,
            _ => false,
        }
    }

    /// Takes what the caller observed, moves to the next state and says what
    /// to print and what to do next.
    pub fn step(&mut self, seen: Observation) -> (reaction: Reaction)
        ensures
            *final(self) == old(self).next(seen).0,
            reaction.notice == old(self).next(seen).1,
            reaction.request == final(self).pending(),
    {
        let notice: Option<Notice> = match (*self, seen) {
            (Linker::Notified, Observation::Handles(referents)) => {
                if referents.pipeline && referents.audio_converter && referents.video_converter {
                    *self = Linker::Alive;
                    Some(Notice::NewPort)
                } else {
                    *self = Linker::Done;
                    None
                }
            },
            (Linker::Alive, Observation::Ports(ports)) => {
                match (ports.audio, ports.video) {
                    (None, _) => {
                        *self = Linker::Failed(Fault::NoAudioPort);
                        None
                    },
                    (Some(_), None) => {
                        *self = Linker::Failed(Fault::NoVideoPort);
                        None
                    },
                    (Some(audio_linked), Some(video_linked)) => {
                        if audio_linked && video_linked {
                            *self = Linker::Done;
                            Some(Notice::AlreadyLinked)
                        } else {
                            *self = Linker::Unlinked;
                            None
                        }
                    },
                }
            },
            (Linker::Unlinked, Observation::Caps(caps)) => {
                match caps {
                    Caps::Absent => {
                        *self = Linker::Failed(Fault::NoCaps);
                    },
                    Caps::Empty => {
                        *self = Linker::Failed(Fault::NoStructure);
                    },
                    Caps::Named(name) => {
                        match classify(name.as_str()) {
                            Some(kind) => {
                                *self = Linker::Linking(kind);
                            },
                            None => {
                                *self = Linker::Failed(Fault::UnsupportedType);
                            },
                        }
                    },
                }
                None
            },
            (Linker::Linking(kind), Observation::Linked(accepted)) => {
                *self = Linker::Done;
                if accepted {
                    Some(Notice::LinkSucceeded(kind))
                } else {
                    Some(Notice::LinkFailed(kind))
                }
            },
            _ => None,
        };
        Reaction { notice, request: self.request() }
    }
}

} // verus!
