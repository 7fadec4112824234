//! The plot driver: which step of a plot comes next.
//!
//! The driver never touches the bus or the motion stream itself. It hands out
//! one [`Action`] at a time, the caller carries it out and reports back with
//! an [`Event`], and the driver answers with the next action. Everything that
//! is decided during a plot is decided here: when the adapter is opened and
//! released, which token is taken in, which bus operation follows which, and
//! which fault ends the plot.

use crate::bus::{BusOp, BusOpView};
use crate::command::Commands;
use crate::error::PlotError;
use crate::token::MotionToken;
use vstd::prelude::*;

verus! {

/// The tallest canvas that fits the plotter's bed, in millimetres.
pub const MAX_HEIGHT: u32 = 997;

/// The widest canvas that fits the plotter's bed, in millimetres.
pub const MAX_WIDTH: u32 = 447;

/// The canvas that a plot is scaled to, in millimetres.
#[derive(Clone, Copy, Debug, PartialEq, Eq)]
pub struct Canvas {
    pub height: u32,
    pub width: u32,
}

impl Canvas {
    /// The canvas fits the plotter's bed.
    pub open spec fn fits(self) -> bool {
        self.height <= MAX_HEIGHT && self.width <= MAX_WIDTH
    }
}

/// Where a plot stands.
#[derive(Clone, Copy, Debug, PartialEq, Eq)]
pub enum Phase {
    /// Nothing has been asked for yet.
    Created,
    /// The adapter is being opened.
    Opening,
    /// The next token of the motion stream is awaited.
    Reading,
    /// A command is on its way to the plotter, one bus operation at a time.
    Transacting,
    /// The adapter is being released.
    Releasing,
    /// The plot is over.
    Finished,
}

/// What the caller reports to the driver.
#[derive(Clone, Copy, Debug, PartialEq, Eq)]
pub enum Event {
    /// The plot may begin.
    Start,
    /// The call that opens the adapter returned `code`, and `driver` as the
    /// handle. A code other than 0 says that the adapter did not open.
    AdapterOpened { code: i32, driver: isize },
    /// The motion stream delivered a token.
    Token(MotionToken),
    /// The motion stream is exhausted.
    EndOfStream,
    /// The operation last asked for returned `code`.
    Completed { code: i32 },
}

/// What the driver asks the caller to do.
#[derive(Debug, PartialEq, Eq)]
pub enum Action {
    /// Open the bus adapter, and report with [`Event::AdapterOpened`].
    OpenAdapter,
    /// Take the next token off the motion stream, and report with
    /// [`Event::Token`] or [`Event::EndOfStream`].
    NextToken,
    /// Perform `op` on the adapter `driver`, and report with [`Event::Completed`].
    Bus { driver: isize, op: BusOp },
    /// Release the adapter `driver`, and report with [`Event::Completed`].
    CloseAdapter { driver: isize },
    /// The plot has ended well. There is nothing to report.
    Done,
    /// The plot has ended with a fault. There is nothing to report.
    Abort(PlotError),
}

/// An action as contracts see it.
pub ghost enum ActionView {
    OpenAdapter,
    NextToken,
    Bus { driver: isize, op: BusOpView },
    CloseAdapter { driver: isize },
    Done,
    Abort(PlotError),
}

impl View for Action {
    type V = ActionView;

    open spec fn view(&self) -> ActionView {
        match *self {
            Action::OpenAdapter => ActionView::OpenAdapter,
            Action::NextToken => ActionView::NextToken,
            Action::Bus { driver, op } => ActionView::Bus { driver, op: op@ },
            Action::CloseAdapter { driver } => ActionView::CloseAdapter { driver },
            Action::Done => ActionView::Done,
            Action::Abort(fault) => ActionView::Abort(fault),
        }
    }
}

impl Clone for Action {
    fn clone(&self) -> (copy: Action)
        ensures
            copy@ == self@,
    {
        match self {
            Action::OpenAdapter => Action::OpenAdapter,
            Action::NextToken => Action::NextToken,
            Action::Bus { driver, op } => Action::Bus { driver: *driver, op: op.clone() },
            Action::CloseAdapter { driver } => Action::CloseAdapter { driver: *driver },
            Action::Done => Action::Done,
            Action::Abort(fault) => Action::Abort(*fault),
        }
    }
}

/// All that a driver knows in the middle of a plot.
#[derive(Clone, Copy, Debug, PartialEq, Eq)]
pub struct PlotState {
    pub phase: Phase,
    pub canvas: Canvas,
    /// The handle of the adapter, from the moment it has opened.
    pub driver: isize,
    /// The pending command.
    pub command: Commands,
    /// While a command is under way: which of its bus operations is out.
    pub stage: usize,
    /// The fault that ends the plot, once there is one.
    pub failure: Option<PlotError>,
}

impl PlotState {
    /// The state of a driver that has not begun: the pending command is a
    /// move without coordinates.
    pub open spec fn initial(canvas: Canvas) -> PlotState {
        PlotState {
            phase: Phase::Created,
            canvas,
            driver: 0,
            command: Commands::fresh_move(),
            stage: 0,
            failure: None,
        }
    }

    /// While a command is under way, the operation that is out is one of its own.
    pub open spec fn wf(self) -> bool {
        self.phase == Phase::Transacting ==> self.stage < self.command.transaction().len()
    }

    /// `event` is a report that the driver is waiting for.
    pub open spec fn answers(self, event: Event) -> bool {
        match self.phase {
            Phase::Created => event is Start,
            Phase::Opening => event is AdapterOpened,
            Phase::Reading => event is Token || event is EndOfStream,
            Phase::Transacting => event is Completed,
            Phase::Releasing => event is Completed,
            Phase::Finished => false,
        }
    }

    /// The state once the pending command has taken in `token`. A tool state
    /// that the plotter does not have ends the plot. Otherwise the command,
    /// if it is ready after the token, is sent, whether or not the token
    /// changed it.
    pub open spec fn after_token(self, token: MotionToken) -> PlotState {
        let command = self.command.after(token);
        if !token.recognised() {
            PlotState {
                phase: Phase::Releasing,
                failure: Some(PlotError::UnrecognisedToolCommand),
                ..self
            }
        } else if command.ready() {
            PlotState { phase: Phase::Transacting, command, stage: 0, ..self }
        } else {
            PlotState { command, ..self }
        }
    }

    /// The state once the bus operation that is out has returned `code`.
    /// Only the opening of a channel can fail, and it ends the plot. After
    /// the last operation of the command the next token is due.
    pub open spec fn after_operation(self, code: i32) -> PlotState {
        let ops = self.command.transaction();
        match ops[self.stage as int] {
            BusOpView::Open { device, secondary } if code != 0 => PlotState {
                phase: Phase::Releasing,
                stage: 0,
                failure: Some(PlotError::ChannelOpenFailed { device, secondary }),
                ..self
            },
            _ => if self.stage + 1 < ops.len() {
                PlotState { stage: (self.stage + 1) as usize, ..self }
            } else {
                PlotState { phase: Phase::Reading, stage: 0, ..self }
            },
        }
    }

    /// The state after `event`. A report that the driver is not waiting for
    /// changes nothing.
    pub open spec fn after(self, event: Event) -> PlotState {
        if !self.answers(event) {
            self
        } else {
            match event {
                Event::Start => PlotState { phase: Phase::Opening, ..self },
                Event::AdapterOpened { code, driver } => if code != 0 {
                    PlotState {
                        phase: Phase::Finished,
                        failure: Some(PlotError::AdapterOpenFailed { code }),
                        ..self
                    }
                } else {
                    PlotState { phase: Phase::Reading, driver, ..self }
                },
                Event::Token(token) => self.after_token(token),
                Event::EndOfStream => PlotState { phase: Phase::Releasing, ..self },
                Event::Completed { code } => if self.phase == Phase::Transacting {
                    self.after_operation(code)
                } else {
                    PlotState { phase: Phase::Finished, ..self }
                },
            }
        }
    }

    /// What a driver in this state is asking for. A driver that has not
    /// begun will ask for the adapter.
    pub open spec fn request(self) -> ActionView {
        match self.phase {
            Phase::Created => ActionView::OpenAdapter,
            Phase::Opening => ActionView::OpenAdapter,
            Phase::Reading => ActionView::NextToken,
            Phase::Transacting => ActionView::Bus {
                driver: self.driver,
                op: self.command.transaction()[self.stage as int],
            },
            Phase::Releasing => ActionView::CloseAdapter { driver: self.driver },
            Phase::Finished => match self.failure {
                Some(fault) => ActionView::Abort(fault),
                None => ActionView::Done,
            },
        }
    }

    /// The state after each of `events` in turn.
    pub open spec fn after_all(self, events: Seq<Event>) -> PlotState
        decreases events.len(),
    {
        if events.len() == 0 {
            self
        } else {
            self.after_all(events.drop_last()).after(events.last())
        }
    }

    /// The actions that the driver hands out while `events` reach it in
    /// turn: one for each report that it was waiting for.
    pub open spec fn requests(self, events: Seq<Event>) -> Seq<ActionView>
        decreases events.len(),
    {
        if events.len() == 0 {
            Seq::empty()
        } else {
            let before = self.after_all(events.drop_last());
            let earlier = self.requests(events.drop_last());
            if before.answers(events.last()) {
                earlier.push(before.after(events.last()).request())
            } else {
                earlier
            }
        }
    }
}

/// The driver of one plot.
pub struct Plotter {
    state: PlotState,
}

impl View for Plotter {
    type V = PlotState;

    closed spec fn view(&self) -> PlotState {
        self.state
    }
}

impl Plotter {
    #[verifier::type_invariant]
    spec fn well_formed(self) -> bool {
        self.state.wf()
    }

    /// Makes the driver for a plot on `canvas`, unless the canvas does not
    /// fit the plotter's bed. Nothing has been asked of the adapter then,
    /// and without a driver nothing will be.
    pub fn new(canvas: Canvas) -> (made: Result<Plotter, PlotError>)
        ensures
            made is Ok <==> canvas.fits(),
            made matches Ok(plotter) ==> plotter@ == PlotState::initial(canvas),
            made matches Err(fault) ==> fault == PlotError::InvalidCanvas,
    {
        if canvas.height > MAX_HEIGHT || canvas.width > MAX_WIDTH {
            return Err(PlotError::InvalidCanvas);
        }
        Ok(
            Plotter {
                state: PlotState {
                    phase: Phase::Created,
                    canvas,
                    driver: 0,
                    command: Commands::new_move(),
                    stage: 0,
                    failure: None,
                },
            },
        )
    }

    /// The canvas that the plot is scaled to.
    pub fn canvas(&self) -> (canvas: Canvas)
        ensures
            canvas == self@.canvas,
    {
        self.state.canvas
    }

    /// What the driver is asking for.
    fn request(&self) -> (action: Action)
        ensures
            action@ == self@.request(),
    {
        proof {
            use_type_invariant(self);
        }
        match self.state.phase {
            Phase::Created => Action::OpenAdapter,
            Phase::Opening => Action::OpenAdapter,
            Phase::Reading => Action::NextToken,
            Phase::Transacting => {
                let mut ops: Vec<BusOp> = self.state.command.operations();
                assert(ops@.len() == self.state.command.transaction().len());
                let op: BusOp = ops.remove(self.state.stage);
                assert(op@ == self.state.command.transaction()[self.state.stage as int]);
                Action::Bus { driver: self.state.driver, op }
            },
            Phase::Releasing => Action::CloseAdapter { driver: self.state.driver },
            Phase::Finished => match self.state.failure {
                Some(fault) => Action::Abort(fault),
                None => Action::Done,
            },
        }
    }

    /// Takes a report from the caller and says what to do next. A report
    /// that the driver is not waiting for is turned down: it changes
    /// nothing, and nothing is to be done.
    pub fn plot(&mut self, event: Event) -> (action: Option<Action>)
        ensures
            final(self)@ == old(self)@.after(event),
            action is Some <==> old(self)@.answers(event),
            action matches Some(next) ==> next@ == final(self)@.request(),
    {
        proof {
            use_type_invariant(&*self);
        }
        let state: PlotState = self.state;
        let next: PlotState = match (state.phase, event) {
            (Phase::Created, Event::Start) => PlotState { phase: Phase::Opening, ..state },
            (Phase::Opening, Event::AdapterOpened { code, driver }) => if code != 0 {
                PlotState {
                    phase: Phase::Finished,
                    failure: Some(PlotError::AdapterOpenFailed { code }),
                    ..state
                }
            } else {
                PlotState { phase: Phase::Reading, driver, ..state }
            },
            (Phase::Reading, Event::Token(token)) => {
                let mut command: Commands = state.command;
                match command.apply(token) {
                    Err(fault) => PlotState {
                        phase: Phase::Releasing,
                        failure: Some(fault),
                        ..state
                    },
                    Ok(()) => if command.is_ready() {
                        PlotState { phase: Phase::Transacting, command, stage: 0, ..state }
                    } else {
                        PlotState { command, ..state }
                    },
                }
            },
            (Phase::Reading, Event::EndOfStream) => PlotState { phase: Phase::Releasing, ..state },
            (Phase::Transacting, Event::Completed { code }) => {
                let ops: Vec<BusOp> = state.command.operations();
                assert(ops@.len() == state.command.transaction().len());
                assert(ops@[state.stage as int]@ == state.command.transaction()[state.stage as int]);
                match &ops[state.stage] {
                    BusOp::Open { device, secondary } if code != 0 => PlotState {
                        phase: Phase::Releasing,
                        stage: 0,
                        failure: Some(
                            PlotError::ChannelOpenFailed { device: *device, secondary: *secondary },
                        ),
                        ..state
                    },
                    _ => if state.stage + 1 < ops.len() {
                        PlotState { stage: state.stage + 1, ..state }
                    } else {
                        PlotState { phase: Phase::Reading, stage: 0, ..state }
                    },
                }
            },
            (Phase::Releasing, Event::Completed { code: _ }) => PlotState {
                phase: Phase::Finished,
                ..state
            },
            _ => {
                return None;
            },
        };
        self.state = next;
        Some(self.request())
    }
}

} // verus!
