//! What holds of every session, whatever the options and the inputs.

use vstd::prelude::*;
use crate::command::{keeps_mode, lemma_raw_after_kept, lemma_raw_after_switch, raw_after, Command};
use crate::event::{Action, Event, Key};
use crate::frame::{lemma_erase, lemma_frame_keeps_mode};
use crate::replay::{replay, reports, run, Trace};
use crate::select::{lemma_next_times, lemma_prev_times, SelectView};
use crate::session::{End, Input, Next, Outcome, Phase, Resized, SessionView, Size};

verus! {

/// `count` times the same input.
pub open spec fn repeated(input: Input, count: nat) -> Seq<Input> {
    Seq::new(count, |i: int| input)
}

/// The resize events that report `sizes`, one after the other.
pub open spec fn resizes(sizes: Seq<Size>) -> Seq<Input> {
    sizes.map_values(|size: Size| Input::Event(Event::Resize(size.columns, size.rows)))
}

/// The resize events that report `sizes`, with silence after each of them.
pub open spec fn spaced_resizes(sizes: Seq<Size>) -> Seq<Input>
    decreases sizes.len(),
{
    if sizes.len() == 0 {
        Seq::empty()
    } else {
        spaced_resizes(sizes.drop_last()) + seq![
            Input::Event(Event::Resize(sizes.last().columns, sizes.last().rows)),
            Input::Quiet,
        ]
    }
}

/// Whether the terminal is in raw mode while a session is in `phase`.
pub open spec fn raw_in(phase: Phase) -> bool {
    !(phase is Finished)
}

/// No step takes the highlight off the list or changes the list.
pub proof fn lemma_step_keeps_wf(session: SessionView, input: Input)
    requires
        session.wf(),
    ensures
        session.step(input).0.wf(),
        session.step(input).0.select.options == session.select.options,
{
}

/// The trace over a sequence of inputs that ends with `last` is the trace
/// over the inputs before it, continued by the step for `last`.
pub proof fn lemma_run_push(session: SessionView, inputs: Seq<Input>, last: Input)
    ensures
        run(session, inputs.push(last)) == ({
            let before = run(session, inputs);
            let (after, step) = before.session.step(last);
            Trace {
                session: after,
                commands: before.commands + step.commands,
                resizes: before.resizes + reports(step.resized),
            }
        }),
{
    assert(inputs.push(last).drop_last() =~= inputs);
}

/// The trace over two sequences of inputs, one after the other, is the trace
/// over the first continued by the trace over the second.
pub proof fn lemma_run_concat(session: SessionView, first: Seq<Input>, second: Seq<Input>)
    ensures
        run(session, first + second) == ({
            let before = run(session, first);
            let after = run(before.session, second);
            Trace {
                session: after.session,
                commands: before.commands + after.commands,
                resizes: before.resizes + after.resizes,
            }
        }),
    decreases second.len(),
{
    let before = run(session, first);
    if second.len() == 0 {
        assert(first + second =~= first);
        assert(before.commands + Seq::empty() =~= before.commands);
        assert(before.resizes + Seq::empty() =~= before.resizes);
    } else {
        let shorter = second.drop_last();
        lemma_run_concat(session, first, shorter);
        assert((first + second).drop_last() =~= first + shorter);
        let middle = run(before.session, shorter);
        let (after, step) = middle.session.step(second.last());
        assert(before.commands + (middle.commands + step.commands) =~= (before.commands
            + middle.commands) + step.commands);
        assert(before.resizes + (middle.resizes + reports(step.resized)) =~= (before.resizes
            + middle.resizes) + reports(step.resized));
    }
}

/// Whatever the inputs, the highlight stays on an option of the list and the
/// list stays as it is.
pub proof fn lemma_run_keeps_wf(session: SessionView, inputs: Seq<Input>)
    requires
        session.wf(),
    ensures
        run(session, inputs).session.wf(),
        run(session, inputs).session.select.options == session.select.options,
        run(session, inputs).session.select.highlighted < session.select.options.len(),
    decreases inputs.len(),
{
    if inputs.len() > 0 {
        lemma_run_keeps_wf(session, inputs.drop_last());
        lemma_step_keeps_wf(run(session, inputs.drop_last()).session, inputs.last());
    }
}

/// Whatever the inputs of a whole session, the highlight stays on an option
/// of the list and the list stays as it is.
pub proof fn lemma_replay_keeps_wf(select: SelectView, inputs: Seq<Input>)
    requires
        select.options.len() > 0,
    ensures
        replay(select, inputs).session.wf(),
        replay(select, inputs).session.select.options == select.options,
        replay(select, inputs).session.select.highlighted < select.options.len(),
{
    lemma_run_keeps_wf(SessionView::begin(select).0, inputs);
}

/// `count` presses of the down arrow move the highlight of a running session
/// `count` options on, round the list.
pub proof fn lemma_downs(session: SessionView, count: nat)
    requires
        session.wf(),
        session.phase == Phase::Running,
    ensures
        run(session, repeated(Input::Event(Event::plain(Key::Down)), count)).session
            == (SessionView { select: session.select.next_times(count), phase: Phase::Running }),
        run(session, repeated(Input::Event(Event::plain(Key::Down)), count)).resizes
            == Seq::<Resized>::empty(),
    decreases count,
{
    let down = Input::Event(Event::plain(Key::Down));
    if count > 0 {
        let fewer = (count - 1) as nat;
        lemma_downs(session, fewer);
        assert(repeated(down, count).drop_last() =~= repeated(down, fewer));
        assert(Seq::<Resized>::empty() + reports(None) =~= Seq::<Resized>::empty());
    }
}

/// `count` presses of the up arrow move the highlight of a running session
/// `count` options back, round the list.
pub proof fn lemma_ups(session: SessionView, count: nat)
    requires
        session.wf(),
        session.phase == Phase::Running,
    ensures
        run(session, repeated(Input::Event(Event::plain(Key::Up)), count)).session
            == (SessionView { select: session.select.prev_times(count), phase: Phase::Running }),
        run(session, repeated(Input::Event(Event::plain(Key::Up)), count)).resizes
            == Seq::<Resized>::empty(),
    decreases count,
{
    let up = Input::Event(Event::plain(Key::Up));
    if count > 0 {
        let fewer = (count - 1) as nat;
        lemma_ups(session, fewer);
        assert(repeated(up, count).drop_last() =~= repeated(up, fewer));
        assert(Seq::<Resized>::empty() + reports(None) =~= Seq::<Resized>::empty());
    }
}

/// A session that receives nothing but one confirmation commits to the
/// first option, wherever the highlight of the selection was before.
pub proof fn lemma_confirm_alone(select: SelectView)
    requires
        select.options.len() > 0,
    ensures
        replay(select, seq![Input::Event(Event::plain(Key::Enter))]).session.outcome()
            == Outcome::Committed(select.options[0]),
        replay(select, seq![Input::Event(Event::plain(Key::Enter))]).session.select
            == select.fresh(),
{
    let enter = Input::Event(Event::plain(Key::Enter));
    lemma_run_push(SessionView::begin(select).0, Seq::empty(), enter);
    assert(Seq::<Input>::empty().push(enter) =~= seq![enter]);
}

/// A session that receives `count` presses of the down arrow and then a
/// confirmation commits to the option at `count` modulo the number of
/// options, wherever the highlight of the selection was before.
pub proof fn lemma_downs_then_confirm(select: SelectView, count: nat)
    requires
        select.options.len() > 0,
    ensures
        replay(
            select,
            repeated(Input::Event(Event::plain(Key::Down)), count).push(
                Input::Event(Event::plain(Key::Enter)),
            ),
        ).session.outcome() == Outcome::Committed(
            select.options[(count % select.options.len()) as int],
        ),
        replay(
            select,
            repeated(Input::Event(Event::plain(Key::Down)), count).push(
                Input::Event(Event::plain(Key::Enter)),
            ),
        ).session.select == (SelectView {
            options: select.options,
            highlighted: count % select.options.len(),
        }),
{
    let start = SessionView::begin(select).0;
    let downs = repeated(Input::Event(Event::plain(Key::Down)), count);
    lemma_downs(start, count);
    lemma_next_times(select.fresh(), count);
    lemma_run_push(start, downs, Input::Event(Event::plain(Key::Enter)));
}

/// A session that receives `count` presses of the up arrow and then a
/// confirmation commits to the option `count` positions before the first
/// one, counted round the list: to the last option after one press.
pub proof fn lemma_ups_then_confirm(select: SelectView, count: nat)
    requires
        select.options.len() > 0,
    ensures
        replay(
            select,
            repeated(Input::Event(Event::plain(Key::Up)), count).push(
                Input::Event(Event::plain(Key::Enter)),
            ),
        ).session.outcome() == Outcome::Committed(
            select.options[(0 - count) % (select.options.len() as int)],
        ),
{
    let start = SessionView::begin(select).0;
    let ups = repeated(Input::Event(Event::plain(Key::Up)), count);
    lemma_ups(start, count);
    lemma_prev_times(select.fresh(), count);
    lemma_run_push(start, ups, Input::Event(Event::plain(Key::Enter)));
}

/// What a whole session does depends on the options and the inputs alone:
/// two selections over the same options give the same trace, whatever their
/// highlights.
pub proof fn lemma_replay_ignores_the_highlight(
    first: SelectView,
    second: SelectView,
    inputs: Seq<Input>,
)
    requires
        first.options == second.options,
    ensures
        replay(first, inputs) == replay(second, inputs),
{
}

/// While a burst is drained, further resize events are answered with no
/// command and no report; only the last size seen changes.
pub proof fn lemma_drain(session: SessionView, first: Size, sizes: Seq<Size>)
    requires
        session.phase == Phase::Draining(Resized { first, last: first }),
    ensures
        run(session, resizes(sizes)) == (Trace {
            session: SessionView {
                select: session.select,
                phase: Phase::Draining(
                    Resized {
                        first,
                        last: if sizes.len() == 0 {
                            first
                        } else {
                            sizes.last()
                        },
                    },
                ),
            },
            commands: Seq::empty(),
            resizes: Seq::empty(),
        }),
    decreases sizes.len(),
{
    if sizes.len() > 0 {
        lemma_drain(session, first, sizes.drop_last());
        assert(resizes(sizes).drop_last() =~= resizes(sizes.drop_last()));
        let before = run(session, resizes(sizes.drop_last()));
        let step = before.session.step(resizes(sizes).last()).1;
        assert(before.commands + step.commands =~= Seq::empty());
        assert(before.resizes + reports(step.resized) =~= Seq::empty());
    }
}

/// A burst of resize events that silence ends is handled once: the frame is
/// removed when the burst begins and painted again when it ends, one report
/// gives the first and the last size, and the session is as it was.
pub proof fn lemma_burst_is_handled_once(session: SessionView, sizes: Seq<Size>)
    requires
        session.phase == Phase::Running,
        sizes.len() > 0,
    ensures
        run(session, resizes(sizes).push(Input::Quiet)) == (Trace {
            session,
            commands: session.select.erase() + session.select.frame(),
            resizes: seq![Resized { first: sizes.first(), last: sizes.last() }],
        }),
{
    let first = sizes.first();
    let opening = seq![Input::Event(Event::Resize(first.columns, first.rows))];
    let rest = sizes.drop_first();
    let draining = SessionView {
        select: session.select,
        phase: Phase::Draining(Resized { first, last: first }),
    };
    lemma_run_push(session, Seq::empty(), opening[0]);
    assert(Seq::<Input>::empty().push(opening[0]) =~= opening);
    assert(run(session, opening).session == draining);
    assert(run(session, opening).commands =~= session.select.erase());
    assert(run(session, opening).resizes =~= Seq::empty());
    lemma_drain(draining, first, rest);
    lemma_run_concat(session, opening, resizes(rest));
    assert(opening + resizes(rest) =~= resizes(sizes));
    lemma_run_push(session, resizes(sizes), Input::Quiet);
    let drained = run(session, resizes(sizes));
    assert(drained.commands =~= session.select.erase());
    assert(drained.resizes =~= Seq::empty());
    if rest.len() > 0 {
        assert(rest.last() == sizes.last());
    }
    let last = run(session, resizes(sizes).push(Input::Quiet));
    assert(last.resizes =~= seq![Resized { first: sizes.first(), last: sizes.last() }]);
}

/// Resize events with silence after each of them are handled one by one: each
/// has a report of its own, with its size as the first and the last.
pub proof fn lemma_spaced_resizes_are_handled_apart(session: SessionView, sizes: Seq<Size>)
    requires
        session.phase == Phase::Running,
    ensures
        run(session, spaced_resizes(sizes)).session == session,
        run(session, spaced_resizes(sizes)).resizes == sizes.map_values(
            |size: Size| Resized { first: size, last: size },
        ),
    decreases sizes.len(),
{
    let single = |size: Size| Resized { first: size, last: size };
    if sizes.len() == 0 {
        assert(sizes.map_values(single) =~= Seq::empty());
    } else {
        let before = sizes.drop_last();
        let pair = seq![
            Input::Event(Event::Resize(sizes.last().columns, sizes.last().rows)),
            Input::Quiet,
        ];
        lemma_spaced_resizes_are_handled_apart(session, before);
        lemma_run_concat(session, spaced_resizes(before), pair);
        lemma_burst_is_handled_once(session, seq![sizes.last()]);
        assert(resizes(seq![sizes.last()]).push(Input::Quiet) =~= pair);
        assert(sizes.map_values(single) =~= before.map_values(single) + seq![
            single(sizes.last()),
        ]);
    }
}

/// Two sequences of commands that do not switch the mode do not switch it
/// together.
proof fn lemma_keeps_mode_concat(first: Seq<Command<Seq<char>>>, second: Seq<Command<Seq<char>>>)
    requires
        keeps_mode(first),
        keeps_mode(second),
    ensures
        keeps_mode(first + second),
{
}

/// One step leaves the terminal in raw mode exactly if it leaves the session
/// unfinished, provided that this held before the step.
pub proof fn lemma_step_raw_mode(
    session: SessionView,
    input: Input,
    raw: bool,
    before: Seq<Command<Seq<char>>>,
)
    requires
        raw_after(raw, before) == raw_in(session.phase),
    ensures
        raw_after(raw, before + session.step(input).1.commands) == raw_in(
            session.step(input).0.phase,
        ),
{
    let (after, step) = session.step(input);
    let select = session.select;
    let leave = seq![Command::<Seq<char>>::DisableRawMode];
    lemma_erase(select);
    lemma_frame_keeps_mode(select);
    lemma_frame_keeps_mode(select.next());
    lemma_frame_keeps_mode(select.prev());
    let painted = session.phase == Phase::Running;
    let wipe = session.wipe(painted);
    assert(keeps_mode(wipe));
    if input == Input::Failure || (after.phase is Finished && !(session.phase is Finished)) {
        let kept = if input == Input::Failure {
            Seq::empty()
        } else if after.phase == Phase::Finished(End::Committed) {
            wipe + select.frame()
        } else {
            wipe
        };
        lemma_keeps_mode_concat(wipe, select.frame());
        assert(keeps_mode(kept));
        assert(step.commands =~= kept + leave);
        assert(before + step.commands =~= (before + kept).push(Command::DisableRawMode));
        lemma_raw_after_switch(raw, before + kept, false);
    } else {
        lemma_keeps_mode_concat(wipe, select.frame());
        lemma_keeps_mode_concat(wipe, select.next().frame());
        lemma_keeps_mode_concat(wipe, select.prev().frame());
        assert(keeps_mode(step.commands));
        lemma_raw_after_kept(raw, before, step.commands);
    }
}

/// Whatever the inputs, the commands of a whole session leave the terminal in
/// raw mode exactly while the session is unfinished: once it has committed,
/// was abandoned or failed, the terminal is back in its normal mode.
pub proof fn lemma_raw_mode_is_left(select: SelectView, inputs: Seq<Input>)
    ensures
        raw_after(false, replay(select, inputs).commands) == raw_in(
            replay(select, inputs).session.phase,
        ),
        replay(select, inputs).session.phase is Finished ==> !raw_after(
            false,
            replay(select, inputs).commands,
        ),
    decreases inputs.len(),
{
    let (start, first) = SessionView::begin(select);
    if inputs.len() == 0 {
        let frame = select.fresh().frame();
        lemma_frame_keeps_mode(select.fresh());
        let enter = Seq::<Command<Seq<char>>>::empty().push(Command::EnableRawMode);
        assert(enter =~= seq![Command::EnableRawMode]);
        lemma_raw_after_switch(false, Seq::empty(), true);
        lemma_raw_after_kept(false, enter, frame);
        assert(replay(select, inputs).commands =~= enter + frame);
    } else {
        lemma_raw_mode_is_left(select, inputs.drop_last());
        let before = replay(select, inputs.drop_last());
        lemma_step_raw_mode(before.session, inputs.last(), false, before.commands);
        let step = before.session.step(inputs.last()).1;
        assert(replay(select, inputs).commands =~= before.commands + step.commands);
    }
}

/// A finished session answers every event, and silence, with no command, no
/// report and the request to stop, and stays as it is.
pub proof fn lemma_finished_is_final(session: SessionView, input: Input)
    requires
        session.phase is Finished,
        input != Input::Failure,
    ensures
        session.step(input).0 == session,
        session.step(input).1.commands == Seq::<Command<Seq<char>>>::empty(),
        session.step(input).1.resized == None::<Resized>,
        session.step(input).1.next == Next::Done,
{
}

/// A failure of the terminal is answered in every phase, also after the end,
/// with the switch back from raw mode and nothing else, and the session ends
/// as failed: no option is committed to once the terminal has failed.
pub proof fn lemma_failure_ends_every_session(session: SessionView)
    ensures
        session.step(Input::Failure).0.phase == Phase::Finished(End::Failed),
        session.step(Input::Failure).0.select == session.select,
        session.step(Input::Failure).0.outcome() == Outcome::<Seq<char>>::Failed,
        session.step(Input::Failure).1.commands == seq![
            Command::<Seq<char>>::DisableRawMode,
        ],
        session.step(Input::Failure).1.resized == None::<Resized>,
        session.step(Input::Failure).1.next == Next::Done,
{
}

/// An event that means nothing to a running session leaves it as it is: the
/// frame is removed and the same frame painted again.
pub proof fn lemma_ignored_event_repaints(session: SessionView, event: Event)
    requires
        session.phase == Phase::Running,
        event.action() == Action::Ignore,
    ensures
        session.step(Input::Event(event)).0 == session,
        session.step(Input::Event(event)).1.commands == session.select.erase()
            + session.select.frame(),
{
}

} // verus!
