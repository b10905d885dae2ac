//! The session controller: a state machine that turns what the terminal
//! reported into the commands to perform and the next thing to wait for.

use vstd::prelude::*;
use crate::command::{views, Command};
use crate::event::{Action, Event};
use crate::select::{Select, SelectView};

verus! {

/// Why a session was refused.
#[derive(Clone, Copy, Debug, PartialEq, Eq, Structural)]
pub enum SelectError {
    /// There is no option to choose from.
    NoOptions,
}

/// How a session ended.
#[derive(Clone, Copy, Debug, PartialEq, Eq, Structural)]
pub enum End {
    /// The user committed to the highlighted option.
    Committed,
    /// The user abandoned the selection.
    Aborted,
    /// The terminal failed.
    Failed,
}

/// The size of the terminal.
#[derive(Clone, Copy, Debug, PartialEq, Eq, Structural)]
pub struct Size {
    pub columns: u16,
    pub rows: u16,
}

/// The first and the last size seen during one burst of resize events.
#[derive(Clone, Copy, Debug, PartialEq, Eq, Structural)]
pub struct Resized {
    pub first: Size,
    pub last: Size,
}

/// Where a session stands.
#[derive(Clone, Copy, Debug, PartialEq, Eq, Structural)]
pub enum Phase {
    /// The frame is on the screen and the session waits for an event.
    Running,
    /// A burst of resize events is being drained; the frame is not on the
    /// screen.
    Draining(Resized),
    /// The session is over and the terminal is back in its normal mode.
    Finished(End),
}

/// What the host hands to the session.
#[derive(Clone, Copy, Debug, PartialEq, Eq, Structural)]
pub enum Input {
    /// The terminal reported an event.
    Event(Event),
    /// The quiescence window passed without an event.
    Quiet,
    /// Talking to the terminal failed.
    Failure,
}

/// What the host does after it has performed the commands of a step.
#[derive(Clone, Copy, Debug, PartialEq, Eq, Structural)]
pub enum Next {
    /// Block until the terminal reports an event.
    Read,
    /// Wait for an event for at most the quiescence window.
    Poll,
    /// Stop: the session is over.
    Done,
}

/// The result of a session. `T` is the type of the option's text: `&str` in
/// executable code and `Seq<char>` in specifications.
#[derive(Clone, Copy, Debug, PartialEq, Eq)]
pub enum Outcome<T> {
    /// The session is not over.
    Pending,
    /// The user committed to this option.
    Committed(T),
    /// The user abandoned the selection.
    Aborted,
    /// The terminal failed.
    Failed,
}

impl<'a> View for Outcome<&'a str> {
    type V = Outcome<Seq<char>>;

    open spec fn view(&self) -> Outcome<Seq<char>> {
        match *self {
            Outcome::Pending => Outcome::Pending,
            Outcome::Committed(text) => Outcome::Committed(text@),
            Outcome::Aborted => Outcome::Aborted,
            Outcome::Failed => Outcome::Failed,
        }
    }
}

/// The length of the quiescence window, in milliseconds.
pub const QUIESCENCE_MILLIS: u64 = 50;

/// The session's answer to one input.
#[derive(Debug)]
pub struct Step<'a> {
    /// The commands to perform, in this order.
    pub commands: Vec<Command<&'a str>>,
    /// The report of a burst of resize events that ended with this input.
    pub resized: Option<Resized>,
    /// What to do once the commands are performed.
    pub next: Next,
}

/// What a `Step` is, mathematically.
pub struct StepView {
    pub commands: Seq<Command<Seq<char>>>,
    pub resized: Option<Resized>,
    pub next: Next,
}

impl<'a> View for Step<'a> {
    type V = StepView;

    open spec fn view(&self) -> StepView {
        StepView { commands: views(self.commands@), resized: self.resized, next: self.next }
    }
}

/// What a `Session` is, mathematically: the selection and the phase.
pub struct SessionView {
    pub select: SelectView,
    pub phase: Phase,
}

impl SessionView {
    /// The selection is well formed and has an option.
    pub open spec fn wf(self) -> bool {
        self.select.wf() && self.select.options.len() > 0
    }

    /// The start of a session over the options of `select`: the highlight is
    /// on the first option, wherever it was before; raw mode is switched on
    /// and the first frame painted; then the session waits for an event.
    pub open spec fn begin(select: SelectView) -> (SessionView, StepView) {
        (
            SessionView { select: select.fresh(), phase: Phase::Running },
            StepView {
                commands: seq![Command::EnableRawMode] + select.fresh().frame(),
                resized: None,
                next: Next::Read,
            },
        )
    }

    /// The commands that remove the frame if it is on the screen.
    pub open spec fn wipe(self, painted: bool) -> Seq<Command<Seq<char>>> {
        if painted {
            self.select.erase()
        } else {
            Seq::empty()
        }
    }

    /// The answer to an action. `painted` says whether the frame is on the
    /// screen; `resized` is the report of a burst that the action ends.
    ///
    /// The frame is removed first, whatever the action. A move changes the
    /// highlight and repaints. A confirmation repaints, leaves raw mode and
    /// ends the session. An interrupt leaves raw mode and ends the session
    /// without repainting. A resize opens a burst with its size. Anything else
    /// repaints.
    pub open spec fn react(self, action: Action, painted: bool, resized: Option<Resized>) -> (
        SessionView,
        StepView,
    ) {
        let wipe = self.wipe(painted);
        match action {
            Action::MoveDown => (
                SessionView { select: self.select.next(), phase: Phase::Running },
                StepView { commands: wipe + self.select.next().frame(), resized, next: Next::Read },
            ),
            Action::MoveUp => (
                SessionView { select: self.select.prev(), phase: Phase::Running },
                StepView { commands: wipe + self.select.prev().frame(), resized, next: Next::Read },
            ),
            Action::Confirm => (
                SessionView { select: self.select, phase: Phase::Finished(End::Committed) },
                StepView {
                    commands: wipe + self.select.frame() + seq![Command::DisableRawMode],
                    resized,
                    next: Next::Done,
                },
            ),
            Action::Interrupt => (
                SessionView { select: self.select, phase: Phase::Finished(End::Aborted) },
                StepView { commands: wipe + seq![Command::DisableRawMode], resized, next: Next::Done },
            ),
            Action::Resize(columns, rows) => (
                SessionView {
                    select: self.select,
                    phase: Phase::Draining(
                        Resized { first: Size { columns, rows }, last: Size { columns, rows } },
                    ),
                },
                StepView { commands: wipe, resized, next: Next::Poll },
            ),
            Action::Ignore => (
                SessionView { select: self.select, phase: Phase::Running },
                StepView { commands: wipe + self.select.frame(), resized, next: Next::Read },
            ),
        }
    }

    /// The answer to a failure of the terminal: raw mode is left, as far as
    /// that still works, and the session ends as failed, whatever it was
    /// before.
    pub open spec fn fail(self) -> (SessionView, StepView) {
        (
            SessionView { select: self.select, phase: Phase::Finished(End::Failed) },
            StepView { commands: seq![Command::DisableRawMode], resized: None, next: Next::Done },
        )
    }

    /// The answer to one input.
    ///
    /// While running, an event is answered by its action and silence changes
    /// nothing. While a burst is drained, a further resize only replaces the
    /// last size seen; silence ends the burst, reports it and repaints; any
    /// other event ends and reports the burst and is then answered by its
    /// action. A finished session answers events and silence with nothing. A
    /// failure is answered in every phase, also after the end: the commands
    /// of the last step may be the ones that failed, and then the switch back
    /// from raw mode among them was not reached.
    pub open spec fn step(self, input: Input) -> (SessionView, StepView) {
        match self.phase {
            Phase::Running => match input {
                Input::Event(event) => self.react(event.action(), true, None),
                Input::Quiet => (
                    self,
                    StepView { commands: Seq::empty(), resized: None, next: Next::Read },
                ),
                Input::Failure => self.fail(),
            },
            Phase::Draining(burst) => match input {
                Input::Event(event) => match event.action() {
                    Action::Resize(columns, rows) => (
                        SessionView {
                            select: self.select,
                            phase: Phase::Draining(
                                Resized { first: burst.first, last: Size { columns, rows } },
                            ),
                        },
                        StepView { commands: Seq::empty(), resized: None, next: Next::Poll },
                    ),
                    action => self.react(action, false, Some(burst)),
                },
                Input::Quiet => (
                    SessionView { select: self.select, phase: Phase::Running },
                    StepView {
                        commands: self.select.frame(),
                        resized: Some(burst),
                        next: Next::Read,
                    },
                ),
                Input::Failure => self.fail(),
            },
            Phase::Finished(_) => match input {
                Input::Failure => self.fail(),
                _ => (self, StepView { commands: Seq::empty(), resized: None, next: Next::Done }),
            },
        }
    }

    /// The result of the session as it stands.
    pub open spec fn outcome(self) -> Outcome<Seq<char>> {
        match self.phase {
            Phase::Finished(End::Committed) => Outcome::Committed(
                self.select.options[self.select.highlighted as int],
            ),
            Phase::Finished(End::Aborted) => Outcome::Aborted,
            Phase::Finished(End::Failed) => Outcome::Failed,
            _ => Outcome::Pending,
        }
    }
}

/// One interactive selection in progress.
#[derive(Clone, Copy, Debug)]
pub struct Session<'a> {
    select: Select<'a>,
    phase: Phase,
}

impl<'a> View for Session<'a> {
    type V = SessionView;

    closed spec fn view(&self) -> SessionView {
        SessionView { select: self.select@, phase: self.phase }
    }
}

impl<'a> Session<'a> {
    /// Every `Session` is well formed.
    #[verifier::type_invariant]
    pub closed spec fn inv(self) -> bool {
        self@.wf()
    }

    /// The options themselves, as the caller handed them over.
    pub closed spec fn items(&self) -> Seq<&'a str> {
        self.select.items()
    }

    /// Starts a session over the options of `select`, unless there is none.
    /// Every session starts with the first option highlighted.
    pub fn begin(select: Select<'a>) -> (started: Result<(Session<'a>, Step<'a>), SelectError>)
        ensures
            select@.options.len() == 0 <==> started is Err,
            started matches Err(error) ==> error == SelectError::NoOptions,
            started matches Ok((session, step)) ==> {
                &&& (session@, step@) == SessionView::begin(select@)
                &&& session.items() == select.items()
                &&& session@.wf()
            },
    {
        if select.len() == 0 {
            return Err(SelectError::NoOptions);
        }
        let select = select.fresh();
        proof {
            use_type_invariant(&select);
            select.lemma_wf();
        }
        let mut commands: Vec<Command<&'a str>> = Vec::new();
        commands.push(Command::EnableRawMode);
        let mut frame = select.render();
        let ghost head = commands@;
        let ghost tail = frame@;
        commands.append(&mut frame);
        assert(views(commands@) =~= views(head) + views(tail));
        assert(views(head) =~= seq![Command::EnableRawMode]);
        let session = Session { select, phase: Phase::Running };
        Ok((session, Step { commands, resized: None, next: Next::Read }))
    }

    /// The selection as it stands.
    pub fn select(&self) -> (select: Select<'a>)
        ensures
            select@ == self@.select,
            select.items() == self.items(),
            self@.wf(),
    {
        proof {
            use_type_invariant(self);
        }
        self.select
    }

    /// The phase in which the session is.
    pub fn phase(&self) -> (phase: Phase)
        ensures
            phase == self@.phase,
    {
        self.phase
    }

    /// The result of the session as it stands.
    pub fn outcome(&self) -> (outcome: Outcome<&'a str>)
        ensures
            outcome@ == self@.outcome(),
            outcome matches Outcome::Committed(text) ==> text == self.items()[self@.select.highlighted as int],
            self@.wf(),
    {
        proof {
            use_type_invariant(self);
        }
        match self.phase {
            Phase::Finished(End::Committed) => match self.select.selected() {
                Some(text) => Outcome::Committed(text),
                None => Outcome::Pending,
            },
            Phase::Finished(End::Aborted) => Outcome::Aborted,
            Phase::Finished(End::Failed) => Outcome::Failed,
            _ => Outcome::Pending,
        }
    }

    /// Answers an action, as `SessionView::react` says.
    fn react(&mut self, action: Action, painted: bool, resized: Option<Resized>) -> (step: Step<'a>)
        ensures
            (final(self)@, step@) == old(self)@.react(action, painted, resized),
            final(self).items() == old(self).items(),
            final(self)@.wf(),
    {
        proof {
            use_type_invariant(&*self);
        }
        let mut commands: Vec<Command<&'a str>> = if painted {
            self.select.erase()
        } else {
            Vec::new()
        };
        let ghost wipe = commands@;
        assert(views(wipe) =~= old(self)@.wipe(painted));
        match action {
            Action::MoveDown => {
                let mut select = self.select;
                select.next();
                self.select = select;
                self.phase = Phase::Running;
                let mut frame = self.select.render();
                let ghost tail = frame@;
                commands.append(&mut frame);
                assert(views(commands@) =~= views(wipe) + views(tail));
                Step { commands, resized, next: Next::Read }
            },
            Action::MoveUp => {
                let mut select = self.select;
                select.prev();
                self.select = select;
                self.phase = Phase::Running;
                let mut frame = self.select.render();
                let ghost tail = frame@;
                commands.append(&mut frame);
                assert(views(commands@) =~= views(wipe) + views(tail));
                Step { commands, resized, next: Next::Read }
            },
            Action::Confirm => {
                self.phase = Phase::Finished(End::Committed);
                let mut frame = self.select.render();
                let ghost tail = frame@;
                commands.append(&mut frame);
                commands.push(Command::DisableRawMode);
                assert(views(commands@) =~= views(wipe) + views(tail) + seq![
                    Command::DisableRawMode,
                ]);
                Step { commands, resized, next: Next::Done }
            },
            Action::Interrupt => {
                self.phase = Phase::Finished(End::Aborted);
                commands.push(Command::DisableRawMode);
                assert(views(commands@) =~= views(wipe) + seq![Command::DisableRawMode]);
                Step { commands, resized, next: Next::Done }
            },
            Action::Resize(columns, rows) => {
                self.phase = Phase::Draining(
                    Resized { first: Size { columns, rows }, last: Size { columns, rows } },
                );
                Step { commands, resized, next: Next::Poll }
            },
            Action::Ignore => {
                self.phase = Phase::Running;
                let mut frame = self.select.render();
                let ghost tail = frame@;
                commands.append(&mut frame);
                assert(views(commands@) =~= views(wipe) + views(tail));
                Step { commands, resized, next: Next::Read }
            },
        }
    }

    /// Answers a failure of the terminal, as `SessionView::fail` says.
    fn fail(&mut self) -> (step: Step<'a>)
        ensures
            (final(self)@, step@) == old(self)@.fail(),
            final(self).items() == old(self).items(),
            final(self)@.wf(),
    {
        proof {
            use_type_invariant(&*self);
        }
        self.phase = Phase::Finished(End::Failed);
        let mut commands: Vec<Command<&'a str>> = Vec::new();
        commands.push(Command::DisableRawMode);
        assert(views(commands@) =~= seq![Command::DisableRawMode]);
        Step { commands, resized: None, next: Next::Done }
    }

    /// Answers one input: changes the session as the input demands and says
    /// which commands to perform and what to wait for next.
    pub fn step(&mut self, input: Input) -> (step: Step<'a>)
        ensures
            (final(self)@, step@) == old(self)@.step(input),
            final(self).items() == old(self).items(),
            old(self)@.wf(),
            final(self)@.wf(),
    {
        proof {
            use_type_invariant(&*self);
        }
        match self.phase {
            Phase::Running => match input {
                Input::Event(event) => self.react(event.classify(), true, None),
                Input::Quiet => {
                    let commands: Vec<Command<&'a str>> = Vec::new();
                    assert(views(commands@) =~= Seq::empty());
                    Step { commands, resized: None, next: Next::Read }
                },
                Input::Failure => self.fail(),
            },
            Phase::Draining(burst) => match input {
                Input::Event(event) => match event.classify() {
                    Action::Resize(columns, rows) => {
                        self.phase = Phase::Draining(
                            Resized { first: burst.first, last: Size { columns, rows } },
                        );
                        let commands: Vec<Command<&'a str>> = Vec::new();
                        assert(views(commands@) =~= Seq::empty());
                        Step { commands, resized: None, next: Next::Poll }
                    },
                    action => self.react(action, false, Some(burst)),
                },
                Input::Quiet => {
                    self.phase = Phase::Running;
                    let commands = self.select.render();
                    Step { commands, resized: Some(burst), next: Next::Read }
                },
                Input::Failure => self.fail(),
            },
            Phase::Finished(_) => match input {
                Input::Failure => self.fail(),
                _ => {
                    let commands: Vec<Command<&'a str>> = Vec::new();
                    assert(views(commands@) =~= Seq::empty());
                    Step { commands, resized: None, next: Next::Done }
                },
            },
        }
    }
}

} // verus!
