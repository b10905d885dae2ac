//! Whole sessions at once: what a session does over a given sequence of
//! inputs, from its first frame to its result.

use vstd::prelude::*;
use crate::command::{views, Command};
use crate::select::{Select, SelectView};
use crate::session::{Input, Outcome, Resized, SelectError, Session, SessionView, Step};

verus! {

/// The reports that a step adds to a trace: its own, if it has one.
pub open spec fn reports(resized: Option<Resized>) -> Seq<Resized> {
    match resized {
        Some(report) => seq![report],
        None => Seq::empty(),
    }
}

/// A session after some inputs, with everything it asked for on the way.
pub struct Trace {
    /// The session as it stands.
    pub session: SessionView,
    /// All commands so far, in order.
    pub commands: Seq<Command<Seq<char>>>,
    /// All reports of resize bursts so far, in order.
    pub resizes: Seq<Resized>,
}

/// The trace of `session` over `inputs`: each input is answered by the
/// session that the inputs before it have left.
pub open spec fn run(session: SessionView, inputs: Seq<Input>) -> Trace
    decreases inputs.len(),
{
    if inputs.len() == 0 {
        Trace { session, commands: Seq::empty(), resizes: Seq::empty() }
    } else {
        let before = run(session, inputs.drop_last());
        let (after, step) = before.session.step(inputs.last());
        Trace {
            session: after,
            commands: before.commands + step.commands,
            resizes: before.resizes + reports(step.resized),
        }
    }
}

/// The trace of a whole session over the options of `select`: its start,
/// with the first option highlighted, then `inputs`.
pub open spec fn replay(select: SelectView, inputs: Seq<Input>) -> Trace {
    let (session, first) = SessionView::begin(select);
    let rest = run(session, inputs);
    Trace {
        session: rest.session,
        commands: first.commands + rest.commands,
        resizes: rest.resizes,
    }
}

/// What a session did over a sequence of inputs.
#[derive(Debug)]
pub struct Transcript<'a> {
    /// All commands that the session asked for, in order.
    pub commands: Vec<Command<&'a str>>,
    /// The reports of all bursts of resize events, in order.
    pub resizes: Vec<Resized>,
    /// The result of the session after the last input.
    pub outcome: Outcome<&'a str>,
}

/// What a `Transcript` is, mathematically.
pub struct TranscriptView {
    pub commands: Seq<Command<Seq<char>>>,
    pub resizes: Seq<Resized>,
    pub outcome: Outcome<Seq<char>>,
}

impl<'a> View for Transcript<'a> {
    type V = TranscriptView;

    open spec fn view(&self) -> TranscriptView {
        TranscriptView {
            commands: views(self.commands@),
            resizes: self.resizes@,
            outcome: self.outcome@,
        }
    }
}

impl Trace {
    /// What the trace shows to the outside.
    pub open spec fn transcript(self) -> TranscriptView {
        TranscriptView {
            commands: self.commands,
            resizes: self.resizes,
            outcome: self.session.outcome(),
        }
    }
}

impl<'a> Select<'a> {
    /// Runs one selection over the given inputs and leaves the highlight
    /// where the session left it. The session starts with the first option
    /// highlighted, so what it does depends on the options and the inputs
    /// alone.
    ///
    /// The transcript holds what a host would have been asked to do, had the
    /// terminal delivered these inputs one by one. Without any option there is
    /// no session and the selection stays as it is.
    pub fn display(&mut self, inputs: &Vec<Input>) -> (shown: Result<Transcript<'a>, SelectError>)
        ensures
            old(self)@.options.len() == 0 <==> shown is Err,
            shown matches Err(error) ==> error == SelectError::NoOptions && final(self)@ == old(
                self,
            )@,
            shown matches Ok(transcript) ==> {
                &&& transcript@ == replay(old(self)@, inputs@).transcript()
                &&& final(self)@ == replay(old(self)@, inputs@).session.select
                &&& transcript.outcome matches Outcome::Committed(text) ==> text == old(
                    self,
                ).items()[final(self)@.highlighted as int]
            },
            final(self).items() == old(self).items(),
            final(self)@.wf(),
    {
        let ghost start = self@;
        proof {
            use_type_invariant(&*self);
            self.lemma_wf();
        }
        let (mut session, first) = match Session::begin(*self) {
            Ok(started) => started,
            Err(error) => {
                return Err(error);
            },
        };
        let ghost (origin, opening) = SessionView::begin(start);
        let Step { commands: mut commands, resized: _, next: _ } = first;
        let mut resizes: Vec<Resized> = Vec::new();
        let mut index: usize = 0;
        assert(inputs@.take(0) =~= Seq::empty());
        assert(views(commands@) =~= opening.commands + run(origin, inputs@.take(0)).commands);
        while index < inputs.len()
            invariant
                index <= inputs@.len(),
                session@ == run(origin, inputs@.take(index as int)).session,
                views(commands@) == opening.commands + run(
                    origin,
                    inputs@.take(index as int),
                ).commands,
                resizes@ == run(origin, inputs@.take(index as int)).resizes,
                session.items() == self.items(),
            decreases inputs@.len() - index,
        {
            let step = session.step(inputs[index]);
            let Step { commands: mut more, resized, next: _ } = step;
            let ghost before = commands@;
            let ghost added = more@;
            commands.append(&mut more);
            if let Some(report) = resized {
                resizes.push(report);
            }
            proof {
                let longer = inputs@.take(index + 1);
                assert(longer.drop_last() =~= inputs@.take(index as int));
                assert(longer.last() == inputs@[index as int]);
                assert(views(commands@) =~= views(before) + views(added));
                assert(resizes@ =~= run(origin, inputs@.take(index as int)).resizes + reports(
                    resized,
                ));
            }
            index += 1;
        }
        assert(inputs@.take(index as int) =~= inputs@);
        *self = session.select();
        let outcome = session.outcome();
        Ok(Transcript { commands, resizes, outcome })
    }
}

} // verus!
