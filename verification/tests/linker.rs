use media_pipeline::linker::{
    Caps, Fault, Linker, Notice, Observation, Ports, Reaction, Referents, Request,
};
use media_pipeline::media::MediaKind;

fn alive() -> Referents {
    Referents { pipeline: true, audio_converter: true, video_converter: true }
}

fn named(media_type: &str) -> Observation {
    Observation::Caps(Caps::Named(media_type.to_string()))
}

fn free_ports() -> Observation {
    Observation::Ports(Ports { audio: Some(false), video: Some(false) })
}

fn notify(board: &mut Board, media_type: &str) -> Vec<Notice> {
    handle(board, media_type).unwrap()
}

/// A framework of two input ports that takes a link only on a free port.
struct Board {
    audio: bool,
    video: bool,
    links_made: usize,
}

/// Handles one notification against the board and gives the lines printed,
/// or the fault over which the process would end.
fn handle(board: &mut Board, media_type: &str) -> Result<Vec<Notice>, Fault> {
    let mut linker = Linker::new();
    let mut printed = Vec::new();
    let mut request = linker.request();
    for _ in 0..8 {
        let seen = match request {
            Request::Upgrade => Observation::Handles(alive()),
            Request::InspectPorts => {
                Observation::Ports(Ports { audio: Some(board.audio), video: Some(board.video) })
            }
            Request::ReadCaps => named(media_type),
            Request::Link(kind) => {
                let port = match kind {
                    MediaKind::Audio => &mut board.audio,
                    MediaKind::Video => &mut board.video,
                };
                let accepted = !*port;
                if accepted {
                    *port = true;
                    board.links_made += 1;
                }
                Observation::Linked(accepted)
            }
            Request::Return => return Ok(printed),
            Request::Abort(fault) => return Err(fault),
        };
        let reaction = linker.step(seen);
        if let Some(notice) = reaction.notice {
            printed.push(notice);
        }
        request = reaction.request;
    }
    unreachable!()
}

#[test]
fn fresh_linker_asks_for_the_handles() {
    let linker = Linker::new();
    assert_eq!(linker, Linker::Notified);
    assert_eq!(linker.request(), Request::Upgrade);
    assert!(!linker.is_finished());
}

#[test]
fn dead_pipeline_is_a_silent_no_operation() {
    let mut linker = Linker::new();
    let reaction = linker.step(Observation::Handles(Referents { pipeline: false, ..alive() }));
    assert_eq!(reaction, Reaction { notice: None, request: Request::Return });
    assert_eq!(linker, Linker::Done);
    assert!(linker.is_finished());
}

#[test]
fn dead_converter_is_a_silent_no_operation() {
    let mut linker = Linker::new();
    let reaction =
        linker.step(Observation::Handles(Referents { audio_converter: false, ..alive() }));
    assert_eq!(reaction, Reaction { notice: None, request: Request::Return });
    let mut linker = Linker::new();
    let reaction =
        linker.step(Observation::Handles(Referents { video_converter: false, ..alive() }));
    assert_eq!(reaction, Reaction { notice: None, request: Request::Return });
    assert_eq!(linker, Linker::Done);
}

#[test]
fn finished_linker_ignores_what_follows() {
    let mut linker = Linker::new();
    linker.step(Observation::Handles(Referents { pipeline: false, ..alive() }));
    for seen in [free_ports(), named("audio/x-raw"), Observation::Linked(true)] {
        let reaction = linker.step(seen);
        assert_eq!(reaction, Reaction { notice: None, request: Request::Return });
        assert_eq!(linker, Linker::Done);
    }
}

#[test]
fn live_referents_announce_the_port() {
    let mut linker = Linker::new();
    let reaction = linker.step(Observation::Handles(alive()));
    assert_eq!(
        reaction,
        Reaction { notice: Some(Notice::NewPort), request: Request::InspectPorts }
    );
    assert_eq!(linker, Linker::Alive);
}

#[test]
fn linked_converters_are_left_alone() {
    let mut linker = Linker::new();
    linker.step(Observation::Handles(alive()));
    let reaction = linker.step(Observation::Ports(Ports { audio: Some(true), video: Some(true) }));
    assert_eq!(
        reaction,
        Reaction { notice: Some(Notice::AlreadyLinked), request: Request::Return }
    );
    assert!(linker.is_finished());
}

#[test]
fn one_free_converter_is_enough_to_go_on() {
    for ports in [
        Ports { audio: Some(false), video: Some(false) },
        Ports { audio: Some(true), video: Some(false) },
        Ports { audio: Some(false), video: Some(true) },
    ] {
        let mut linker = Linker::Alive;
        let reaction = linker.step(Observation::Ports(ports));
        assert_eq!(reaction, Reaction { notice: None, request: Request::ReadCaps });
        assert_eq!(linker, Linker::Unlinked);
    }
}

#[test]
fn missing_input_port_is_a_fault() {
    let mut linker = Linker::Alive;
    let reaction = linker.step(Observation::Ports(Ports { audio: None, video: Some(true) }));
    assert_eq!(reaction, Reaction { notice: None, request: Request::Abort(Fault::NoAudioPort) });
    let mut linker = Linker::Alive;
    let reaction = linker.step(Observation::Ports(Ports { audio: None, video: None }));
    assert_eq!(reaction.request, Request::Abort(Fault::NoAudioPort));
    let mut linker = Linker::Alive;
    let reaction = linker.step(Observation::Ports(Ports { audio: Some(true), video: None }));
    assert_eq!(reaction.request, Request::Abort(Fault::NoVideoPort));
    assert_eq!(linker, Linker::Failed(Fault::NoVideoPort));
    assert!(linker.is_finished());
}

#[test]
fn raw_audio_goes_to_the_audio_converter() {
    let mut linker = Linker::Unlinked;
    let reaction = linker.step(named("audio/x-raw"));
    assert_eq!(reaction, Reaction { notice: None, request: Request::Link(MediaKind::Audio) });
    assert_eq!(linker, Linker::Linking(MediaKind::Audio));
}

#[test]
fn raw_video_goes_to_the_video_converter() {
    let mut linker = Linker::Unlinked;
    let reaction = linker.step(named("video/x-raw, format=I420"));
    assert_eq!(reaction, Reaction { notice: None, request: Request::Link(MediaKind::Video) });
    assert_eq!(linker, Linker::Linking(MediaKind::Video));
}

#[test]
fn unsupported_type_is_fatal() {
    for media_type in ["text/x-raw", "audio/mpeg", "", "video/x-h264"] {
        let mut linker = Linker::Unlinked;
        let reaction = linker.step(named(media_type));
        assert_eq!(
            reaction,
            Reaction { notice: None, request: Request::Abort(Fault::UnsupportedType) }
        );
        assert_eq!(linker, Linker::Failed(Fault::UnsupportedType));
    }
}

#[test]
fn missing_caps_are_faults() {
    let mut linker = Linker::Unlinked;
    let reaction = linker.step(Observation::Caps(Caps::Absent));
    assert_eq!(reaction.request, Request::Abort(Fault::NoCaps));
    let mut linker = Linker::Unlinked;
    let reaction = linker.step(Observation::Caps(Caps::Empty));
    assert_eq!(reaction.request, Request::Abort(Fault::NoStructure));
}

#[test]
fn link_outcome_is_reported_and_ends_the_handling() {
    let mut linker = Linker::Linking(MediaKind::Video);
    let reaction = linker.step(Observation::Linked(true));
    assert_eq!(
        reaction,
        Reaction { notice: Some(Notice::LinkSucceeded(MediaKind::Video)), request: Request::Return }
    );
    let mut linker = Linker::Linking(MediaKind::Audio);
    let reaction = linker.step(Observation::Linked(false));
    assert_eq!(
        reaction,
        Reaction { notice: Some(Notice::LinkFailed(MediaKind::Audio)), request: Request::Return }
    );
    assert_eq!(linker, Linker::Done);
}

#[test]
fn observation_out_of_turn_changes_nothing() {
    let mut linker = Linker::new();
    let reaction = linker.step(Observation::Linked(true));
    assert_eq!(reaction, Reaction { notice: None, request: Request::Upgrade });
    assert_eq!(linker, Linker::Notified);
    let mut linker = Linker::Linking(MediaKind::Audio);
    let reaction = linker.step(named("video/x-raw"));
    assert_eq!(reaction, Reaction { notice: None, request: Request::Link(MediaKind::Audio) });
    assert_eq!(linker, Linker::Linking(MediaKind::Audio));
}

#[test]
fn fault_messages() {
    assert_eq!(Fault::NoAudioPort.message(), "Failed to get static sink pad from audio convert");
    assert_eq!(Fault::NoVideoPort.message(), "Failed to get static sink pad from video convert");
    assert_eq!(Fault::NoCaps.message(), "Failed to get caps from new pad.");
    assert_eq!(Fault::NoStructure.message(), "Failed to get first structure of caps");
    assert_eq!(Fault::UnsupportedType.message(), "new pad type is not video or audio");
}

#[test]
fn audio_then_video_links_both() {
    let mut board = Board { audio: false, video: false, links_made: 0 };
    assert_eq!(
        notify(&mut board, "audio/x-raw"),
        vec![Notice::NewPort, Notice::LinkSucceeded(MediaKind::Audio)]
    );
    assert_eq!(
        notify(&mut board, "video/x-raw"),
        vec![Notice::NewPort, Notice::LinkSucceeded(MediaKind::Video)]
    );
    assert_eq!(board.links_made, 2);
    assert!(board.audio && board.video);
}

#[test]
fn second_audio_port_adds_no_link() {
    let mut board = Board { audio: false, video: false, links_made: 0 };
    assert_eq!(
        notify(&mut board, "audio/x-raw"),
        vec![Notice::NewPort, Notice::LinkSucceeded(MediaKind::Audio)]
    );
    assert_eq!(board.links_made, 1);
    // The video converter is still free, so the guard lets the second port
    // through and it is the framework that refuses the occupied input.
    assert_eq!(
        notify(&mut board, "audio/x-raw"),
        vec![Notice::NewPort, Notice::LinkFailed(MediaKind::Audio)]
    );
    assert_eq!(board.links_made, 1);
}

#[test]
fn second_audio_port_is_ignored_once_both_are_linked() {
    let mut board = Board { audio: false, video: true, links_made: 0 };
    assert_eq!(
        notify(&mut board, "audio/x-raw"),
        vec![Notice::NewPort, Notice::LinkSucceeded(MediaKind::Audio)]
    );
    assert_eq!(notify(&mut board, "audio/x-raw"), vec![Notice::NewPort, Notice::AlreadyLinked]);
    assert_eq!(notify(&mut board, "audio/x-raw"), vec![Notice::NewPort, Notice::AlreadyLinked]);
    assert_eq!(board.links_made, 1);
}

#[test]
fn unsupported_type_ends_the_handling_without_a_link() {
    let mut board = Board { audio: false, video: false, links_made: 0 };
    assert_eq!(handle(&mut board, "application/x-subtitle"), Err(Fault::UnsupportedType));
    assert_eq!(board.links_made, 0);
}

#[test]
fn notice_lines() {
    let line = |notice| {
        media_pipeline::console::notice_line(
            notice,
            "src_0",
            "test-pipeline",
            "audio/x-raw",
            "Err(WrongHierarchy)",
        )
    };
    assert_eq!(line(Notice::NewPort), "Received new pad src_0 from test-pipeline");
    assert_eq!(line(Notice::AlreadyLinked), "We are already linked. Ignoring.");
    assert_eq!(
        line(Notice::LinkSucceeded(MediaKind::Audio)),
        "Link succeeded (type audio/x-raw)."
    );
    assert_eq!(
        line(Notice::LinkFailed(MediaKind::Audio)),
        "Type is audio/x-raw but link failed. Err(WrongHierarchy)"
    );
}
