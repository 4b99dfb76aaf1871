//! What holds of every run of the controlling loop, whatever the framework
//! answers and whatever the feed delivers.

use vstd::prelude::*;
use crate::lifecycle::{Command, Driver, Event, Failure, Input, Phase, Report, State};

verus! {

/// The driver that `start` becomes over the inputs, in order.
pub open spec fn run(start: Driver, inputs: Seq<Input>) -> Driver
    decreases inputs.len(),
{
    if inputs.len() == 0 {
        start
    } else {
        run(start.next(inputs[0]), inputs.drop_first())
    }
}

/// Whether this input makes the driver leave the loop over the feed.
pub open spec fn leaves_loop(driver: Driver, input: Input) -> bool {
    driver.phase is Running && !(driver.next(input).phase is Running)
}

/// Whether this input makes the driver request the return to rest.
pub open spec fn requests_rest(driver: Driver, input: Input) -> bool {
    !(driver.phase is Stopping) && driver.next(input).phase is Stopping
}

/// How often the loop over the feed is left from `start` over the inputs.
pub open spec fn loop_exits(start: Driver, inputs: Seq<Input>) -> nat
    decreases inputs.len(),
{
    if inputs.len() == 0 {
        0
    } else {
        let rest = loop_exits(start.next(inputs[0]), inputs.drop_first());
        if leaves_loop(start, inputs[0]) {
            1 + rest
        } else {
            rest
        }
    }
}

/// How often the return to rest is requested from `start` over the inputs.
pub open spec fn rest_requests(start: Driver, inputs: Seq<Input>) -> nat
    decreases inputs.len(),
{
    if inputs.len() == 0 {
        0
    } else {
        let rest = rest_requests(start.next(inputs[0]), inputs.drop_first());
        if requests_rest(start, inputs[0]) {
            1 + rest
        } else {
            rest
        }
    }
}

/// What is printed from `start` over the inputs, in order.
pub open spec fn reports(start: Driver, inputs: Seq<Input>) -> Seq<Report>
    decreases inputs.len(),
{
    if inputs.len() == 0 {
        Seq::empty()
    } else {
        let rest = reports(start.next(inputs[0]), inputs.drop_first());
        match start.printed(inputs[0]) {
            Some(report) => seq![report] + rest,
            None => rest,
        }
    }
}

/// An input that is a state change of some element other than the pipeline.
pub open spec fn is_foreign_state_change(input: Input) -> bool {
    match input {
        Input::Bus(Event::StateChanged { old, new, from_pipeline }) => !from_pipeline,
        _ => false,
    }
}

/// Once the return to rest was requested, the loop is never entered or left
/// again and the request is never repeated.
pub proof fn lemma_stopping_is_one_way(start: Driver, inputs: Seq<Input>)
    requires
        start.phase is Stopping || start.phase is Finished,
    ensures
        loop_exits(start, inputs) == 0,
        rest_requests(start, inputs) == 0,
        !(run(start, inputs).phase is Running),
        !(run(start, inputs).phase is Starting),
    decreases inputs.len(),
{
    if inputs.len() > 0 {
        lemma_stopping_is_one_way(start.next(inputs[0]), inputs.drop_first());
    }
}

/// Over any inputs, from any state, the loop over the feed is left at most
/// once and the return to rest is requested at most once.
pub proof fn law_at_most_one_exit_and_rest(start: Driver, inputs: Seq<Input>)
    ensures
        loop_exits(start, inputs) <= 1,
        rest_requests(start, inputs) <= 1,
    decreases inputs.len(),
{
    if inputs.len() > 0 {
        let after = start.next(inputs[0]);
        if after.phase is Stopping || after.phase is Finished {
            lemma_stopping_is_one_way(after, inputs.drop_first());
        } else {
            law_at_most_one_exit_and_rest(after, inputs.drop_first());
        }
    }
}

/// An end of stream and an error each end a running loop: the driver stops
/// waiting on the feed and requests the return to rest, and over whatever
/// follows the loop is left exactly once and rest is requested exactly once.
pub proof fn law_terminal_event_ends_loop_once(driver: Driver, event: Event, later: Seq<Input>)
    requires
        driver.phase is Running,
        event is EndOfStream || event is Error,
    ensures
        driver.next(Input::Bus(event)).phase == Phase::Stopping,
        driver.next(Input::Bus(event)).pending() == Command::SetState(State::Null),
        loop_exits(driver, seq![Input::Bus(event)] + later) == 1,
        rest_requests(driver, seq![Input::Bus(event)] + later) == 1,
{
    let inputs = seq![Input::Bus(event)] + later;
    assert(inputs.drop_first() =~= later);
    lemma_stopping_is_one_way(driver.next(inputs[0]), later);
}

/// Consistency is kept over any inputs. So a driver that has finished has
/// left the pipeline at rest, unless the return to rest itself was refused,
/// and it then tells the caller to end over that failure.
pub proof fn law_finished_at_rest(start: Driver, inputs: Seq<Input>)
    requires
        start.wf(),
    ensures
        run(start, inputs).wf(),
        run(start, inputs).phase is Finished ==> run(start, inputs).state == State::Null || run(
            start,
            inputs,
        ).pending() == Command::Abort(Failure::NullRefused),
    decreases inputs.len(),
{
    if inputs.len() > 0 {
        law_finished_at_rest(start.next(inputs[0]), inputs.drop_first());
    }
}

/// A driver that has not yet requested the return to rest and finishes over
/// the inputs has requested it exactly once on the way.
pub proof fn law_finish_passes_through_rest(start: Driver, inputs: Seq<Input>)
    requires
        start.phase is Starting || start.phase is Running,
        run(start, inputs).phase is Finished,
    ensures
        rest_requests(start, inputs) == 1,
    decreases inputs.len(),
{
    if inputs.len() > 0 {
        let after = start.next(inputs[0]);
        if after.phase is Stopping {
            lemma_stopping_is_one_way(after, inputs.drop_first());
        } else {
            law_finish_passes_through_rest(after, inputs.drop_first());
        }
    }
}

/// A state change of an element other than the pipeline prints nothing and
/// changes nothing, whether or not the driver is verbose.
pub proof fn law_foreign_state_change_is_silent(driver: Driver, input: Input)
    requires
        is_foreign_state_change(input),
    ensures
        driver.printed(input).is_none(),
        driver.next(input) == driver,
{
}

/// Over a feed that holds only state changes of other elements, nothing is
/// printed and the driver stays as it is.
pub proof fn law_foreign_state_changes_print_nothing(start: Driver, inputs: Seq<Input>)
    requires
        forall|i: int| 0 <= i < inputs.len() ==> is_foreign_state_change(#[trigger] inputs[i]),
    ensures
        reports(start, inputs) == Seq::<Report>::empty(),
        run(start, inputs) == start,
    decreases inputs.len(),
{
    if inputs.len() > 0 {
        let rest = inputs.drop_first();
        assert forall|i: int| 0 <= i < rest.len() implies is_foreign_state_change(
            #[trigger] rest[i],
        ) by {
            assert(rest[i] == inputs[i + 1]);
        }
        law_foreign_state_changes_print_nothing(start, rest);
    }
}

/// A driver that is not verbose never prints a state change.
pub proof fn law_quiet_driver_prints_no_transition(driver: Driver, input: Input)
    requires
        !driver.verbose,
    ensures
        !(driver.printed(input) matches Some(Report::Transition { .. })),
{
}

} // verus!
