//! The lines that the decisions put on the console.

use vstd::prelude::*;
use vstd::string::*;
use crate::builder::{Blueprint, BuildError};
use crate::lifecycle::{ErrorReport, Report, State};
use crate::linker::Notice;

verus! {

/// The name of a lifecycle state.
pub open spec fn state_text(state: State) -> Seq<char> {
    match state {
        State::Null => "Null"@,
        State::Ready => "Ready"@,
        State::Paused => "Paused"@,
        State::Playing => "Playing"@,
    }
}

/// The line for a state change of the pipeline.
pub open spec fn transition_text(old_state: State, new_state: State) -> Seq<char> {
    "Pipeline state changed from "@ + state_text(old_state) + " to "@ + state_text(new_state)
}

/// The path of the element that reported the error, or a word for a source
/// that could not be resolved.
pub open spec fn source_text(error: ErrorReport) -> Seq<char> {
    match error.source {
        Some(path) => path@,
        None => "unknown"@,
    }
}

/// The first line for an error: where it came from and what it says.
pub open spec fn error_text(error: ErrorReport) -> Seq<char> {
    "Error received from element "@ + source_text(error) + ": "@ + error.message@
}

/// The second line for an error: its debugging detail, or a word for none.
pub open spec fn debug_text(error: ErrorReport) -> Seq<char> {
    "Debugging information: "@ + match error.debug {
        Some(detail) => detail@,
        None => "none"@,
    }
}

/// Where a line goes.
#[derive(Clone, Copy, Debug, PartialEq, Eq, Structural)]
pub enum Stream {
    Output,
    Error,
}

/// The lines of a report, in order.
pub open spec fn report_text(report: Report) -> Seq<Seq<char>> {
    match report {
        Report::Transition { old, new } => seq![transition_text(old, new)],
        Report::Failure(error) => seq![error_text(error), debug_text(error)],
    }
}

/// Errors go to the error stream, everything else to the output.
pub open spec fn stream_of(report: Report) -> Stream {
    match report {
        Report::Transition { .. } => Stream::Output,
        Report::Failure(_) => Stream::Error,
    }
}

/// The line for a notice of the linker about the output port `port` of
/// the pipeline `pipeline`. `media_type` is what the port has negotiated
/// and `refusal` what the framework answered to a link that failed.
pub open spec fn notice_text(
    notice: Notice,
    port: Seq<char>,
    pipeline: Seq<char>,
    media_type: Seq<char>,
    refusal: Seq<char>,
) -> Seq<char> {
    match notice {
        Notice::NewPort => "Received new pad "@ + port + " from "@ + pipeline,
        Notice::AlreadyLinked => "We are already linked. Ignoring."@,
        Notice::LinkSucceeded(_) => "Link succeeded (type "@ + media_type + ")."@,
        Notice::LinkFailed(_) => "Type is "@ + media_type + " but link failed. "@ + refusal,
    }
}

/// The instance name of the node at this position, empty where the
/// blueprint has no such node.
pub open spec fn node_name(blueprint: Blueprint, at: usize) -> Seq<char> {
    if at < blueprint.nodes@.len() {
        blueprint.nodes@[at as int].name@
    } else {
        Seq::empty()
    }
}

/// The factory name of the node at this position, empty where the
/// blueprint has no such node.
pub open spec fn node_factory(blueprint: Blueprint, at: usize) -> Seq<char> {
    if at < blueprint.nodes@.len() {
        blueprint.nodes@[at as int].factory@
    } else {
        Seq::empty()
    }
}

/// The message for a build that ended over `error`.
pub open spec fn build_error_text(blueprint: Blueprint, error: BuildError) -> Seq<char> {
    match error {
        BuildError::NotInitialized => "Could not initialise the framework."@,
        BuildError::UnknownFactory(at) => "Could not create "@ + node_name(blueprint, at)
            + " element."@,
        BuildError::NotGathered => "Elements could not be added to the pipeline."@,
        BuildError::NotLinked(_) => "Elements could not be linked."@,
        BuildError::NotConfigured(at) => if at < blueprint.settings@.len() {
            "Can't set "@ + blueprint.settings@[at as int].property@ + " property on "@
                + node_factory(blueprint, blueprint.settings@[at as int].node)
        } else {
            "Can't set property"@
        },
        BuildError::NotWatched(binding) => "Could not watch "@ + node_name(
            blueprint,
            binding.source,
        ) + " for new pads."@,
    }
}

fn name_at(blueprint: &Blueprint, at: usize) -> (name: &str)
    ensures
        name@ == node_name(*blueprint, at),
{
    if at < blueprint.nodes.len() {
        blueprint.nodes[at].name.as_str()
    } else {
        proof {
            reveal_strlit("");
            assert(""@ =~= Seq::<char>::empty());
        }
        ""
    }
}

fn factory_at(blueprint: &Blueprint, at: usize) -> (name: &str)
    ensures
        name@ == node_factory(*blueprint, at),
{
    if at < blueprint.nodes.len() {
        blueprint.nodes[at].factory.as_str()
    } else {
        proof {
            reveal_strlit("");
            assert(""@ =~= Seq::<char>::empty());
        }
        ""
    }
}

/// The message for a build that ended over `error`.
pub fn build_error_line(blueprint: &Blueprint, error: BuildError) -> (line: String)
    ensures
        line@ == build_error_text(*blueprint, error),
{
    match error {
        BuildError::NotInitialized => String::from_str("Could not initialise the framework."),
        BuildError::UnknownFactory(at) => String::from_str("Could not create ").concat(
            name_at(blueprint, at),
        ).concat(" element."),
        BuildError::NotGathered => String::from_str("Elements could not be added to the pipeline."),
        BuildError::NotLinked(_) => String::from_str("Elements could not be linked."),
        BuildError::NotConfigured(at) => {
            if at < blueprint.settings.len() {
                String::from_str("Can't set ").concat(
                    blueprint.settings[at].property.as_str(),
                ).concat(" property on ").concat(factory_at(blueprint, blueprint.settings[at].node))
            } else {
                String::from_str("Can't set property")
            }
        },
        BuildError::NotWatched(binding) => String::from_str("Could not watch ").concat(
            name_at(blueprint, binding.source),
        ).concat(" for new pads."),
    }
}

/// The name of a lifecycle state.
pub fn state_name(state: State) -> (name: &'static str)
    ensures
        name@ == state_text(state),
{
    match state {
        State::Null => "Null",
        State::Ready => "Ready",
        State::Paused => "Paused",
        State::Playing => "Playing",
    }
}

/// The line for a state change of the pipeline.
pub fn transition_line(old_state: State, new_state: State) -> (line: String)
    ensures
        line@ == transition_text(old_state, new_state),
{
    String::from_str("Pipeline state changed from ").concat(state_name(old_state)).concat(
        " to ",
    ).concat(state_name(new_state))
}

/// The first line for an error.
pub fn error_line(error: &ErrorReport) -> (line: String)
    ensures
        line@ == error_text(*error),
{
    let source: &str = match &error.source {
        Some(path) => path.as_str(),
        None => "unknown",
    };
    String::from_str("Error received from element ").concat(source).concat(": ").concat(
        error.message.as_str(),
    )
}

/// The second line for an error.
pub fn debug_line(error: &ErrorReport) -> (line: String)
    ensures
        line@ == debug_text(*error),
{
    let detail: &str = match &error.debug {
        Some(detail) => detail.as_str(),
        None => "none",
    };
    String::from_str("Debugging information: ").concat(detail)
}

/// The lines of a report and the stream that they go to.
pub fn report_lines(report: &Report) -> (printed: (Stream, Vec<String>))
    ensures
        printed.0 == stream_of(*report),
        printed.1@.len() == report_text(*report).len(),
        forall|i: int| 0 <= i < printed.1@.len() ==> printed.1@[i]@ == report_text(*report)[i],
{
    let mut lines: Vec<String> = Vec::new();
    match report {
        Report::Transition { old, new } => {
            lines.push(transition_line(*old, *new));
            (Stream::Output, lines)
        },
        Report::Failure(error) => {
            lines.push(error_line(error));
            lines.push(debug_line(error));
            (Stream::Error, lines)
        },
    }
}

/// The line for a notice of the linker.
pub fn notice_line(
    notice: Notice,
    port: &str,
    pipeline: &str,
    media_type: &str,
    refusal: &str,
) -> (line: String)
    ensures
        line@ == notice_text(notice, port@, pipeline@, media_type@, refusal@),
{
    match notice {
        Notice::NewPort => String::from_str("Received new pad ").concat(port).concat(
            " from ",
        ).concat(pipeline),
        Notice::AlreadyLinked => String::from_str("We are already linked. Ignoring."),
        Notice::LinkSucceeded(_) => String::from_str("Link succeeded (type ").concat(
            media_type,
        ).concat(")."),
        Notice::LinkFailed(_) => String::from_str("Type is ").concat(media_type).concat(
            " but link failed. ",
        ).concat(refusal),
    }
}

} // verus!
