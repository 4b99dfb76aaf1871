//! Building a pipeline step by step, stopping at the first refusal.

use vstd::prelude::*;
use crate::builder::{failure_of, plan_of, Blueprint, BuildError, Directive, Step};

verus! {

/// The progress of one build.
#[derive(Clone, Debug, PartialEq, Eq)]
pub struct Assembler {
    /// The steps of the build, in order.
    pub steps: Vec<Step>,
    /// How many of them were performed.
    pub done: usize,
    /// The error of the step that was refused, if one was.
    pub failed: Option<BuildError>,
}

impl Assembler {
    /// What the caller is to do now: end over the error once a step was
    /// refused, otherwise perform the next step, or nothing when none is
    /// left.
    pub open spec fn pending(self) -> Directive {
        match self.failed {
            Some(error) => Directive::Abort(error),
            None => if self.done < self.steps@.len() {
                Directive::Perform(self.steps@[self.done as int])
            } else {
                Directive::Complete
            },
        }
    }

    /// The assembler after the framework's answer to the pending step. Once
    /// the build is complete or has failed, an answer changes nothing.
    pub open spec fn next(self, accepted: bool) -> Assembler {
        match self.pending() {
            Directive::Perform(step) => if accepted {
                Assembler { done: (self.done + 1) as usize, ..self }
            } else {
                Assembler { failed: Some(failure_of(step)), ..self }
            },
            _ => self,
        }
    }

    /// The assembler after a sequence of answers.
    pub open spec fn after(self, answers: Seq<bool>) -> Assembler
        decreases answers.len(),
    {
        if answers.len() == 0 {
            self
        } else {
            self.next(answers[0]).after(answers.drop_first())
        }
    }

    /// An assembler at the start of the blueprint's plan.
    pub fn new(blueprint: &Blueprint) -> (assembler: Assembler)
        ensures
            assembler.steps@ == plan_of(*blueprint),
            assembler.done == 0,
            assembler.failed.is_none(),
    {
        Assembler { steps: blueprint.plan(), done: 0, failed: None }
    }

    /// What to do now.
    pub fn directive(&self) -> (directive: Directive)
        ensures
            directive == self.pending(),
    {
        match self.failed {
            Some(error) => Directive::Abort(error),
            None => {
                if self.done < self.steps.len() {
                    Directive::Perform(self.steps[self.done])
                } else {
                    Directive::Complete
                }
            },
        }
    }

    /// Records the framework's answer to the pending step and says what to
    /// do next.
    pub fn record(&mut self, accepted: bool) -> (directive: Directive)
        ensures
            *final(self) == old(self).next(accepted),
            directive == final(self).pending(),
    {
        if self.failed.is_none() && self.done < self.steps.len() {
            if accepted {
                self.done = self.done + 1;
            } else {
                self.failed = Some(self.steps[self.done].failure());
            }
        }
        self.directive()
    }
}

/// A failed build stays failed over its first error, whatever is answered
/// afterwards: no further step is handed out.
pub proof fn lemma_failure_is_final(assembler: Assembler, answers: Seq<bool>)
    requires
        assembler.failed.is_some(),
    ensures
        assembler.after(answers) == assembler,
    decreases answers.len(),
{
    if answers.len() > 0 {
        lemma_failure_is_final(assembler, answers.drop_first());
    }
}

/// While every answer is an acceptance, the build advances by one step per
/// answer.
pub proof fn lemma_accepted_steps_advance(assembler: Assembler, answers: Seq<bool>)
    requires
        assembler.failed.is_none(),
        assembler.done + answers.len() <= assembler.steps@.len(),
        forall|i: int| 0 <= i < answers.len() ==> answers[i],
    ensures
        assembler.after(answers) == (Assembler {
            done: (assembler.done + answers.len()) as usize,
            ..assembler
        }),
    decreases answers.len(),
{
    assert(assembler.steps.len() == assembler.steps@.len());
    if answers.len() > 0 {
        let rest = answers.drop_first();
        assert(answers[0]);
        assert forall|i: int| 0 <= i < rest.len() implies rest[i] by {
            assert(rest[i] == answers[i + 1]);
        }
        lemma_accepted_steps_advance(assembler.next(true), rest);
    }
}

/// A build whose every step is accepted is complete after as many answers
/// as it has steps.
pub proof fn law_accepted_build_completes(assembler: Assembler, answers: Seq<bool>)
    requires
        assembler.failed.is_none(),
        assembler.done == 0,
        answers.len() == assembler.steps@.len(),
        forall|i: int| 0 <= i < answers.len() ==> answers[i],
    ensures
        assembler.after(answers).pending() == Directive::Complete,
{
    assert(assembler.steps.len() == assembler.steps@.len());
    lemma_accepted_steps_advance(assembler, answers);
}

/// A build ends over the first step that is refused: where the answers up
/// to position `at` accept and the answer at `at` refuses, the build ends
/// over the error of the step at `at`, whatever is answered afterwards.
pub proof fn law_first_refusal_ends_build(assembler: Assembler, answers: Seq<bool>, at: int)
    requires
        assembler.failed.is_none(),
        assembler.done == 0,
        0 <= at < answers.len(),
        at < assembler.steps@.len(),
        forall|i: int| 0 <= i < at ==> answers[i],
        !answers[at],
    ensures
        assembler.after(answers).pending() == Directive::Abort(failure_of(assembler.steps@[at])),
        assembler.after(answers).done == at,
{
    assert(assembler.steps.len() == assembler.steps@.len());
    lemma_after_split(assembler, answers, at);
    let accepted = answers.subrange(0, at);
    lemma_accepted_steps_advance(assembler, accepted);
    let reached = assembler.after(accepted);
    let rest = answers.subrange(at, answers.len() as int);
    assert(rest[0] == answers[at]);
    assert(reached.pending() == Directive::Perform(assembler.steps@[at]));
    lemma_failure_is_final(reached.next(false), rest.drop_first());
    assert(reached.after(rest) == reached.next(false).after(rest.drop_first()));
}

/// Answers may be recorded in two runs, one after the other.
pub proof fn lemma_after_split(assembler: Assembler, answers: Seq<bool>, at: int)
    requires
        0 <= at <= answers.len(),
    ensures
        assembler.after(answers) == assembler.after(answers.subrange(0, at)).after(
            answers.subrange(at, answers.len() as int),
        ),
    decreases at,
{
    if at == 0 {
        assert(answers.subrange(0, answers.len() as int) =~= answers);
    } else {
        let rest = answers.drop_first();
        lemma_after_split(assembler.next(answers[0]), rest, at - 1);
        assert(rest.subrange(0, at - 1) =~= answers.subrange(0, at).drop_first());
        assert(rest.subrange(at - 1, rest.len() as int) =~= answers.subrange(
            at,
            answers.len() as int,
        ));
        assert(answers.subrange(0, at)[0] == answers[0]);
    }
}

} // verus!
