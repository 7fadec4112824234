//! What holds of every plot, whatever the motion stream delivers and whatever
//! the bus returns: the adapter is opened first and released once, and a
//! plot whose adapter does not open never reaches the bus.

use crate::bus::{BusOpView, PLOTTER_DEVICE, PLOTTER_SA_XY};
use crate::command::Commands;
use crate::error::{signed_numeral, PlotError};
use crate::plotter::{ActionView, Canvas, Event, Phase, PlotState};
use crate::token::MotionToken;
use vstd::prelude::*;

verus! {

/// None of `asked` releases the adapter or ends the plot.
pub open spec fn in_progress(asked: Seq<ActionView>) -> bool {
    forall|i: int|
        0 <= i < asked.len() ==> !(#[trigger] asked[i] is CloseAdapter) && !(asked[i] is Done) && !(
        asked[i] is Abort)
}

/// Every bus operation among `asked` goes to the adapter `driver`.
pub open spec fn addressed_to(asked: Seq<ActionView>, driver: isize) -> bool {
    forall|i: int|
        0 <= i < asked.len() ==> (#[trigger] asked[i] matches ActionView::Bus { driver: d, .. } ==> d
            == driver)
}

/// How the requests made so far hang together with the state reached.
spec fn traced(state: PlotState, asked: Seq<ActionView>) -> bool {
    &&& state.wf()
    &&& match state.phase {
        Phase::Created => asked.len() == 0 && state.failure is None,
        Phase::Opening => asked =~= seq![ActionView::OpenAdapter] && state.failure is None,
        Phase::Reading | Phase::Transacting => {
            &&& state.failure is None
            &&& asked.len() >= 2
            &&& asked.last() == state.request()
            &&& in_progress(asked)
            &&& addressed_to(asked, state.driver)
        },
        Phase::Releasing => {
            &&& !(state.failure matches Some(PlotError::AdapterOpenFailed { .. }))
            &&& asked.len() >= 3
            &&& asked.last() == ActionView::CloseAdapter { driver: state.driver }
            &&& in_progress(asked.drop_last())
            &&& addressed_to(asked, state.driver)
        },
        Phase::Finished => match state.failure {
            Some(PlotError::AdapterOpenFailed { code }) => asked =~= seq![
                ActionView::OpenAdapter,
                ActionView::Abort(PlotError::AdapterOpenFailed { code }),
            ],
            _ => {
                &&& asked.len() >= 4
                &&& asked.last() == state.request()
                &&& asked[asked.len() - 2] == ActionView::CloseAdapter { driver: state.driver }
                &&& in_progress(asked.take(asked.len() - 2))
                &&& addressed_to(asked, state.driver)
            },
        },
    }
}

/// One report keeps state and requests together.
proof fn lemma_traced_step(state: PlotState, asked: Seq<ActionView>, event: Event)
    requires
        traced(state, asked),
        state.answers(event),
    ensures
        traced(state.after(event), asked.push(state.after(event).request())),
{
    let next = state.after(event);
    let grown = asked.push(next.request());
    assert(grown.drop_last() =~= asked);
    if state.phase == Phase::Releasing {
        assert(grown.take(grown.len() - 2) =~= asked.drop_last());
    }
}

/// State and requests hang together all through a plot.
proof fn lemma_traced(canvas: Canvas, events: Seq<Event>)
    ensures
        traced(
            PlotState::initial(canvas).after_all(events),
            PlotState::initial(canvas).requests(events),
        ),
    decreases events.len(),
{
    if events.len() > 0 {
        lemma_traced(canvas, events.drop_last());
        let before = PlotState::initial(canvas).after_all(events.drop_last());
        if before.answers(events.last()) {
            lemma_traced_step(
                before,
                PlotState::initial(canvas).requests(events.drop_last()),
                events.last(),
            );
        }
    }
}

/// The adapter is released exactly once. Whatever is reported to a driver,
/// it never asks twice for the release. A fault in the middle of a plot is
/// followed at once by the release. A plot that has finished after its
/// adapter had opened has released it with its last request but one, and
/// has asked nothing of the bus since.
pub proof fn lemma_released_once(canvas: Canvas, events: Seq<Event>)
    ensures
        ({
            let end = PlotState::initial(canvas).after_all(events);
            let asked = PlotState::initial(canvas).requests(events);
            let release = ActionView::CloseAdapter { driver: end.driver };
            &&& forall|i: int, j: int|
                0 <= i < asked.len() && 0 <= j < asked.len() && asked[i] is CloseAdapter
                    && asked[j] is CloseAdapter ==> i == j
            &&& end.failure is Some ==> end.phase == Phase::Releasing || end.phase
                == Phase::Finished
            &&& end.phase == Phase::Releasing ==> asked.len() >= 1 && asked.last() == release
            &&& end.phase == Phase::Finished && !(end.failure matches Some(
                PlotError::AdapterOpenFailed { .. },
            )) ==> asked.len() >= 2 && asked[asked.len() - 2] == release && (asked.last() is Done
                || asked.last() is Abort)
            &&& addressed_to(asked, end.driver)
        }),
{
    lemma_traced(canvas, events);
    let end = PlotState::initial(canvas).after_all(events);
    let asked = PlotState::initial(canvas).requests(events);
    assert forall|i: int, j: int|
        0 <= i < asked.len() && 0 <= j < asked.len() && asked[i] is CloseAdapter
            && asked[j] is CloseAdapter implies i == j by {
        match end.phase {
            Phase::Releasing => {
                let head = asked.drop_last();
                if i < head.len() {
                    assert(head[i] == asked[i]);
                }
                if j < head.len() {
                    assert(head[j] == asked[j]);
                }
            },
            Phase::Finished => {
                let head = asked.take(asked.len() - 2);
                if i < head.len() {
                    assert(head[i] == asked[i]);
                }
                if j < head.len() {
                    assert(head[j] == asked[j]);
                }
            },
            _ => {},
        }
    }
}

/// Once the driver is through, no report moves it and it asks for nothing more.
proof fn lemma_finished_stays(state: PlotState, events: Seq<Event>)
    requires
        state.phase == Phase::Finished,
    ensures
        state.after_all(events) == state,
        state.requests(events) =~= Seq::<ActionView>::empty(),
    decreases events.len(),
{
    if events.len() > 0 {
        lemma_finished_stays(state, events.drop_last());
    }
}

/// Feeding `first` and then `rest` is feeding `first + rest`.
proof fn lemma_requests_split(state: PlotState, first: Seq<Event>, rest: Seq<Event>)
    ensures
        state.after_all(first + rest) == state.after_all(first).after_all(rest),
        state.requests(first + rest) =~= state.requests(first) + state.after_all(first).requests(
            rest,
        ),
    decreases rest.len(),
{
    if rest.len() == 0 {
        assert(first + rest =~= first);
    } else {
        lemma_requests_split(state, first, rest.drop_last());
        assert((first + rest).drop_last() =~= first + rest.drop_last());
    }
}

/// An adapter that does not open ends the plot before it reaches the bus.
/// Where the open call returns a code other than 0, the driver asks for the
/// adapter and then reports the fault, and asks for nothing else whatever
/// is reported to it afterwards: no bus operation, and no release of a
/// handle that was never had. The report of the fault shows the code.
pub proof fn lemma_adapter_failure_ends_plot(
    canvas: Canvas,
    code: i32,
    driver: isize,
    rest: Seq<Event>,
)
    requires
        code != 0,
    ensures
        ({
            let fault = PlotError::AdapterOpenFailed { code };
            let events = seq![Event::Start, Event::AdapterOpened { code, driver }] + rest;
            &&& PlotState::initial(canvas).requests(events) == seq![
                ActionView::OpenAdapter,
                ActionView::Abort(fault),
            ]
            &&& PlotState::initial(canvas).after_all(events).failure == Some(fault)
            &&& fault.text() == "failed to open adapter with error: "@ + signed_numeral(
                code as int,
            )
        }),
{
    let start = PlotState::initial(canvas);
    let opening = seq![Event::Start];
    let first = seq![Event::Start, Event::AdapterOpened { code, driver }];
    assert(opening.drop_last() =~= Seq::<Event>::empty());
    assert(first.drop_last() =~= opening);
    assert(start.after_all(opening.drop_last()) == start);
    assert(start.requests(opening.drop_last()) =~= Seq::<ActionView>::empty());
    assert(start.after_all(opening).phase == Phase::Opening);
    assert(start.requests(opening) =~= seq![ActionView::OpenAdapter]);
    assert(start.after_all(first).phase == Phase::Finished);
    lemma_requests_split(start, first, rest);
    lemma_finished_stays(start.after_all(first), rest);
}

/// The requests that put `ops` to the adapter `driver`, in order.
pub open spec fn on_adapter(driver: isize, ops: Seq<BusOpView>) -> Seq<ActionView> {
    ops.map_values(|op: BusOpView| ActionView::Bus { driver, op })
}

/// The reports that operations returning `codes` come back with, in order.
pub open spec fn completions(codes: Seq<i32>) -> Seq<Event> {
    codes.map_values(|code: i32| Event::Completed { code })
}

/// How far a command has got after the first `done` of its operations.
proof fn lemma_command_under_way(
    state: PlotState,
    token: MotionToken,
    codes: Seq<i32>,
    done: int,
)
    requires
        state.phase == Phase::Reading,
        token.recognised(),
        state.command.after(token).ready(),
        codes.len() == state.command.after(token).transaction().len(),
        state.command.after(token) != Commands::Reset ==> codes[0] == 0,
        0 <= done <= codes.len(),
    ensures
        ({
            let command = state.command.after(token);
            let ops = command.transaction();
            let events = seq![Event::Token(token)] + completions(codes).take(done);
            &&& done < codes.len() ==> state.after_all(events) == PlotState {
                phase: Phase::Transacting,
                command,
                stage: done as usize,
                ..state
            } && state.requests(events) =~= on_adapter(state.driver, ops.take(done + 1))
            &&& done == codes.len() ==> state.after_all(events) == PlotState {
                phase: Phase::Reading,
                command,
                stage: 0,
                ..state
            } && state.requests(events) =~= on_adapter(state.driver, ops).push(
                ActionView::NextToken,
            )
        }),
    decreases done,
{
    let command = state.command.after(token);
    let ops = command.transaction();
    let events = seq![Event::Token(token)] + completions(codes).take(done);
    if done == 0 {
        assert(events =~= seq![Event::Token(token)]);
        assert(events.drop_last() =~= Seq::<Event>::empty());
        assert(state.after_all(events.drop_last()) == state);
        assert(state.requests(events.drop_last()) =~= Seq::<ActionView>::empty());
    } else {
        lemma_command_under_way(state, token, codes, done - 1);
        let earlier = seq![Event::Token(token)] + completions(codes).take(done - 1);
        assert(events.drop_last() =~= earlier);
        assert(events.last() == Event::Completed { code: codes[done - 1] });
        assert(!(ops[done - 1] is Open) || (done == 1 && codes[0] == 0));
        if done < codes.len() {
            assert(ops.take(done + 1).drop_last() =~= ops.take(done));
        } else {
            assert(ops.take(done) =~= ops);
        }
    }
}

/// A command that is ready is sent whole and in order. When a token leaves
/// the pending command ready, the driver asks for the operations of its
/// transaction one after the other, whatever they return, then for the next
/// token; the command stays as it is. A move or a draw only has to get its
/// channel: the first operation must return 0.
pub proof fn lemma_command_sent_whole(state: PlotState, token: MotionToken, codes: Seq<i32>)
    requires
        state.phase == Phase::Reading,
        token.recognised(),
        state.command.after(token).ready(),
        codes.len() == state.command.after(token).transaction().len(),
        state.command.after(token) != Commands::Reset ==> codes[0] == 0,
    ensures
        ({
            let command = state.command.after(token);
            let events = seq![Event::Token(token)] + completions(codes);
            &&& state.requests(events) == on_adapter(state.driver, command.transaction()).push(
                ActionView::NextToken,
            )
            &&& state.after_all(events) == PlotState {
                phase: Phase::Reading,
                command,
                stage: 0,
                ..state
            }
        }),
{
    lemma_command_under_way(state, token, codes, codes.len() as int);
    assert(completions(codes).take(codes.len() as int) =~= completions(codes));
}

/// A channel that does not open ends the plot, and the adapter is released
/// on the way out. When a token leaves a move or a draw ready and the
/// opening of its channel returns a code other than 0, nothing of the
/// command is sent: the driver asks for the release of the adapter and then
/// reports the fault with the address that did not open.
pub proof fn lemma_channel_failure_ends_plot(
    state: PlotState,
    token: MotionToken,
    code: i32,
    released: i32,
)
    requires
        state.phase == Phase::Reading,
        token.recognised(),
        state.command.after(token).ready(),
        state.command.after(token) != Commands::Reset,
        code != 0,
    ensures
        ({
            let fault = PlotError::ChannelOpenFailed {
                device: PLOTTER_DEVICE,
                secondary: PLOTTER_SA_XY,
            };
            let events = seq![
                Event::Token(token),
                Event::Completed { code },
                Event::Completed { code: released },
            ];
            state.requests(events) == seq![
                ActionView::Bus {
                    driver: state.driver,
                    op: BusOpView::Open { device: PLOTTER_DEVICE, secondary: PLOTTER_SA_XY },
                },
                ActionView::CloseAdapter { driver: state.driver },
                ActionView::Abort(fault),
            ]
        }),
{
    let events = seq![
        Event::Token(token),
        Event::Completed { code },
        Event::Completed { code: released },
    ];
    let two = seq![Event::Token(token), Event::Completed { code }];
    let one = seq![Event::Token(token)];
    let command = state.command.after(token);
    let sending = PlotState { phase: Phase::Transacting, command, stage: 0, ..state };
    assert(events.drop_last() =~= two);
    assert(two.drop_last() =~= one);
    assert(one.drop_last() =~= Seq::<Event>::empty());
    assert(state.after_all(one.drop_last()) == state);
    assert(state.requests(one.drop_last()) =~= Seq::<ActionView>::empty());
    assert(state.after_all(one) == sending);
    assert(state.requests(one) =~= seq![sending.request()]);
    assert(command.transaction()[0] == BusOpView::Open {
        device: PLOTTER_DEVICE,
        secondary: PLOTTER_SA_XY,
    });
    let releasing = sending.after(Event::Completed { code });
    assert(releasing.phase == Phase::Releasing);
    assert(state.after_all(two) == releasing);
    assert(state.requests(two) =~= seq![sending.request(), releasing.request()]);
}

} // verus!
