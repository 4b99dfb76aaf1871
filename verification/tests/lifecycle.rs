use media_pipeline::builder::Blueprint;
use media_pipeline::console::{report_lines, Stream};
use media_pipeline::lifecycle::{
    Command, Driver, ErrorReport, Event, Failure, Input, Output, Phase, Report, State,
};

fn running(verbose: bool) -> Driver {
    let mut driver = Driver::new(verbose);
    driver.step(Input::Transition(true));
    driver
}

fn failure() -> ErrorReport {
    ErrorReport {
        source: Some("/GstPipeline:test-pipeline/GstURIDecodeBin:source".to_string()),
        message: "Could not resolve server name.".to_string(),
        debug: Some("gstsouphttpsrc.c(1389)".to_string()),
    }
}

fn use_report(report: Report, stream: Stream, lines: Vec<&str>) {
    let printed = report_lines(&report);
    assert_eq!(printed.0, stream);
    assert_eq!(printed.1, lines);
}

fn foreign_change() -> Input {
    Input::Bus(Event::StateChanged { old: State::Ready, new: State::Paused, from_pipeline: false })
}

#[test]
fn fresh_driver_requests_playback() {
    let driver = Driver::new(false);
    assert_eq!(driver.phase, Phase::Starting);
    assert_eq!(driver.state, State::Null);
    assert_eq!(driver.failure, None);
    assert!(!driver.verbose);
    assert_eq!(driver.command(), Command::SetState(State::Playing));
    assert!(!driver.is_finished());
    assert!(Driver::new(true).verbose);
}

#[test]
fn test_pattern_plays_until_end_of_stream() {
    let blueprint = Blueprint::test_pattern();
    assert_eq!(blueprint.nodes[0].factory, "videotestsrc");
    assert_eq!(blueprint.nodes[3].factory, "autovideosink");
    assert_eq!(blueprint.settings[0].property, "pattern");
    assert_eq!(blueprint.settings[0].value, "smpte");

    let mut driver = Driver::new(false);
    assert_eq!(driver.command(), Command::SetState(State::Playing));
    let output = driver.step(Input::Transition(true));
    assert_eq!(output, Output { report: None, command: Command::NextEvent });
    assert_eq!(driver.state, State::Playing);
    let output = driver.step(Input::Bus(Event::EndOfStream));
    assert_eq!(output, Output { report: None, command: Command::SetState(State::Null) });
    assert_eq!(driver.phase, Phase::Stopping);
    let output = driver.step(Input::Transition(true));
    assert_eq!(output, Output { report: None, command: Command::Exit });
    assert!(driver.is_finished());
    assert_eq!(driver.state, State::Null);
    assert_eq!(driver.failure, None);
}

#[test]
fn error_is_reported_and_ends_the_loop() {
    let mut driver = running(true);
    let output = driver.step(Input::Bus(Event::Error(failure())));
    assert_eq!(
        output,
        Output {
            report: Some(Report::Failure(failure())),
            command: Command::SetState(State::Null)
        }
    );
    let output = driver.step(Input::Transition(true));
    assert_eq!(output, Output { report: None, command: Command::Exit });
    assert_eq!(driver.state, State::Null);
}

#[test]
fn loop_ends_once() {
    for terminal in [Event::EndOfStream, Event::Error(failure())] {
        let mut driver = running(true);
        let mut rest_requests = 0;
        let inputs = vec![
            Input::Bus(Event::Other),
            Input::Bus(terminal),
            Input::Bus(Event::EndOfStream),
            Input::Bus(Event::Error(failure())),
            Input::Transition(true),
            Input::Bus(Event::EndOfStream),
            Input::Transition(true),
            Input::Transition(false),
        ];
        let mut before = driver.command();
        for input in inputs {
            let output = driver.step(input);
            if output.command == Command::SetState(State::Null) && before != output.command {
                rest_requests += 1;
            }
            before = output.command;
        }
        assert_eq!(rest_requests, 1);
        assert_eq!(driver.command(), Command::Exit);
        assert_eq!(driver.state, State::Null);
    }
}

#[test]
fn pipeline_state_change_is_printed_by_a_verbose_driver() {
    let mut driver = running(true);
    let output = driver.step(Input::Bus(Event::StateChanged {
        old: State::Ready,
        new: State::Paused,
        from_pipeline: true,
    }));
    assert_eq!(
        output,
        Output {
            report: Some(Report::Transition { old: State::Ready, new: State::Paused }),
            command: Command::NextEvent
        }
    );
    assert_eq!(driver.phase, Phase::Running);
}

#[test]
fn pipeline_state_change_is_not_printed_by_a_quiet_driver() {
    let mut driver = running(false);
    let output = driver.step(Input::Bus(Event::StateChanged {
        old: State::Paused,
        new: State::Playing,
        from_pipeline: true,
    }));
    assert_eq!(output, Output { report: None, command: Command::NextEvent });
}

#[test]
fn foreign_state_change_is_never_printed() {
    for verbose in [false, true] {
        let mut driver = running(verbose);
        let before = driver;
        let output = driver.step(foreign_change());
        assert_eq!(output, Output { report: None, command: Command::NextEvent });
        assert_eq!(driver, before);
        let mut starting = Driver::new(verbose);
        let output = starting.step(foreign_change());
        assert_eq!(output.report, None);
        assert_eq!(starting, Driver::new(verbose));
    }
}

#[test]
fn other_events_are_ignored() {
    let mut driver = running(true);
    let output = driver.step(Input::Bus(Event::Other));
    assert_eq!(output, Output { report: None, command: Command::NextEvent });
    assert_eq!(driver, running(true));
}

#[test]
fn refused_playback_still_returns_to_rest() {
    let mut driver = Driver::new(false);
    let output = driver.step(Input::Transition(false));
    assert_eq!(output, Output { report: None, command: Command::SetState(State::Null) });
    let output = driver.step(Input::Transition(true));
    assert_eq!(output, Output { report: None, command: Command::Abort(Failure::PlayingRefused) });
    assert_eq!(driver.state, State::Null);
    assert!(driver.is_finished());
}

#[test]
fn refused_rest_is_reported_after_the_attempt() {
    let mut driver = running(false);
    driver.step(Input::Bus(Event::EndOfStream));
    let output = driver.step(Input::Transition(false));
    assert_eq!(output, Output { report: None, command: Command::Abort(Failure::NullRefused) });
    assert_eq!(driver.state, State::Playing);
    assert!(driver.is_finished());
}

#[test]
fn first_refusal_is_the_one_reported() {
    let mut driver = Driver::new(false);
    driver.step(Input::Transition(false));
    let output = driver.step(Input::Transition(false));
    assert_eq!(output.command, Command::Abort(Failure::PlayingRefused));
}

#[test]
fn events_before_playback_are_out_of_turn() {
    let mut driver = Driver::new(true);
    let output = driver.step(Input::Bus(Event::EndOfStream));
    assert_eq!(output, Output { report: None, command: Command::SetState(State::Playing) });
    let output = driver.step(Input::Bus(Event::Error(failure())));
    assert_eq!(output, Output { report: None, command: Command::SetState(State::Playing) });
    assert_eq!(driver, Driver::new(true));
}

#[test]
fn transition_lines() {
    assert_eq!(
        media_pipeline::console::transition_line(State::Null, State::Ready),
        "Pipeline state changed from Null to Ready"
    );
    assert_eq!(
        media_pipeline::console::transition_line(State::Paused, State::Playing),
        "Pipeline state changed from Paused to Playing"
    );
    assert_eq!(media_pipeline::console::state_name(State::Null), "Null");
    assert_eq!(media_pipeline::console::state_name(State::Playing), "Playing");
}

#[test]
fn failure_messages() {
    assert_eq!(
        Failure::PlayingRefused.message(),
        "Unable to set the pipeline to the `Playing` state"
    );
    assert_eq!(Failure::NullRefused.message(), "Unable to set the pipeline to the `Null` state");
}

#[test]
fn error_goes_to_the_error_stream_in_two_lines() {
    use_report(
        Report::Failure(failure()),
        Stream::Error,
        vec![
            "Error received from element /GstPipeline:test-pipeline/GstURIDecodeBin:source: \
             Could not resolve server name.",
            "Debugging information: gstsouphttpsrc.c(1389)",
        ],
    );
    let bare = ErrorReport { source: None, message: "Internal data stream error.".to_string(), debug: None };
    use_report(
        Report::Failure(bare),
        Stream::Error,
        vec![
            "Error received from element unknown: Internal data stream error.",
            "Debugging information: none",
        ],
    );
}

#[test]
fn transition_goes_to_the_output_in_one_line() {
    use_report(
        Report::Transition { old: State::Ready, new: State::Paused },
        Stream::Output,
        vec!["Pipeline state changed from Ready to Paused"],
    );
}
