//! The pending command: a single slot that collects the coordinates of the
//! next move or draw until both are known.

use crate::error::PlotError;
use crate::token::{truncate, truncated, MotionToken, TOOL_DRAW, TOOL_MOVE};
use vstd::prelude::*;

verus! {

/// The coordinates that a move or a draw has been given so far.
#[derive(Clone, Copy, Debug, PartialEq, Eq)]
pub struct MoveOptions {
    pub x: Option<u32>,
    pub y: Option<u32>,
}

impl MoveOptions {
    /// Both coordinates are known.
    pub open spec fn complete(self) -> bool {
        self.x is Some && self.y is Some
    }

    /// Neither coordinate is known.
    pub open spec fn blank() -> MoveOptions {
        MoveOptions { x: None, y: None }
    }
}

impl Default for MoveOptions {
    fn default() -> (options: MoveOptions)
        ensures
            options == MoveOptions::blank(),
    {
        MoveOptions { x: None, y: None }
    }
}

/// A command for the plotter, possibly still waiting for coordinates.
#[derive(Clone, Copy, Debug, PartialEq, Eq)]
pub enum Commands {
    /// Travel to a point with the pen up.
    Move(MoveOptions),
    /// Travel to a point with the pen down.
    Draw(MoveOptions),
    /// Reset the plotter; needs no coordinates.
    Reset,
}

impl Commands {
    /// A move that has no coordinates yet.
    pub open spec fn fresh_move() -> Commands {
        Commands::Move(MoveOptions::blank())
    }

    /// A draw that has no coordinates yet.
    pub open spec fn fresh_draw() -> Commands {
        Commands::Draw(MoveOptions::blank())
    }

    /// The command can be sent: it is a reset, or a move or draw whose two
    /// coordinates are both known.
    pub open spec fn ready(self) -> bool {
        match self {
            Commands::Move(options) => options.complete(),
            Commands::Draw(options) => options.complete(),
            Commands::Reset => true,
        }
    }

    /// The command after its x coordinate is assigned: a reset stays as it is.
    pub open spec fn with_x(self, x: u32) -> Commands {
        match self {
            Commands::Move(options) => Commands::Move(MoveOptions { x: Some(x), y: options.y }),
            Commands::Draw(options) => Commands::Draw(MoveOptions { x: Some(x), y: options.y }),
            Commands::Reset => Commands::Reset,
        }
    }

    /// The command after its y coordinate is assigned: a reset stays as it is.
    pub open spec fn with_y(self, y: u32) -> Commands {
        match self {
            Commands::Move(options) => Commands::Move(MoveOptions { x: options.x, y: Some(y) }),
            Commands::Draw(options) => Commands::Draw(MoveOptions { x: options.x, y: Some(y) }),
            Commands::Reset => Commands::Reset,
        }
    }

    /// The command after `token`. A coordinate is cut down to whole steps
    /// and assigned. A tool state starts a command afresh, whatever had been
    /// collected: a draw for the lowered pen, a move for the lifted pen. Any
    /// other tool state is a fault and leaves the command alone, as does a
    /// token that the plotter has no use for.
    pub open spec fn after(self, token: MotionToken) -> Commands {
        match token {
            MotionToken::X(bits) => self.with_x(truncated(bits)),
            MotionToken::Y(bits) => self.with_y(truncated(bits)),
            MotionToken::ToolState(state) => if state == TOOL_DRAW {
                Commands::fresh_draw()
            } else if state == TOOL_MOVE {
                Commands::fresh_move()
            } else {
                self
            },
            MotionToken::Other => self,
        }
    }

    /// The command after each of `tokens` in turn.
    pub open spec fn after_all(self, tokens: Seq<MotionToken>) -> Commands
        decreases tokens.len(),
    {
        if tokens.len() == 0 {
            self
        } else {
            self.after_all(tokens.drop_last()).after(tokens.last())
        }
    }

    pub fn new_move() -> (command: Self)
        ensures
            command == Commands::fresh_move(),
    {
        Self::Move(MoveOptions::default())
    }

    pub fn new_draw() -> (command: Self)
        ensures
            command == Commands::fresh_draw(),
    {
        Self::Draw(MoveOptions::default())
    }

    pub fn is_ready(&self) -> (ready: bool)
        ensures
            ready == self.ready(),
    {
        match self {
            Self::Move(opts) => opts.x.is_some() && opts.y.is_some(),
            Self::Draw(opts) => opts.x.is_some() && opts.y.is_some(),
            _ => true,
        }
    }

    pub fn set_x(&mut self, x: u32)
        ensures
            *final(self) == old(self).with_x(x),
    {
        match self {
            Self::Move(opts) => opts.x = Some(x),
            Self::Draw(opts) => opts.x = Some(x),
            _ => {},
        }
    }

    pub fn set_y(&mut self, y: u32)
        ensures
            *final(self) == old(self).with_y(y),
    {
        match self {
            Self::Move(opts) => opts.y = Some(y),
            Self::Draw(opts) => opts.y = Some(y),
            _ => {},
        }
    }

    /// Takes one token of the motion stream into the command.
    pub fn apply(&mut self, token: MotionToken) -> (outcome: Result<(), PlotError>)
        ensures
            outcome is Ok <==> token.recognised(),
            outcome is Err ==> outcome == Err::<(), PlotError>(PlotError::UnrecognisedToolCommand),
            *final(self) == old(self).after(token),
    {
        match token {
            MotionToken::X(bits) => {
                self.set_x(truncate(bits));
            },
            MotionToken::Y(bits) => {
                self.set_y(truncate(bits));
            },
            MotionToken::ToolState(state) => {
                if state == TOOL_DRAW {
                    *self = Commands::new_draw();
                } else if state == TOOL_MOVE {
                    *self = Commands::new_move();
                } else {
                    return Err(PlotError::UnrecognisedToolCommand);
                }
            },
            MotionToken::Other => {},
        }
        Ok(())
    }
}

/// One of `tokens` sets the x coordinate.
pub open spec fn sets_x(tokens: Seq<MotionToken>) -> bool {
    exists|i: int| 0 <= i < tokens.len() && tokens[i] is X
}

/// One of `tokens` sets the y coordinate.
pub open spec fn sets_y(tokens: Seq<MotionToken>) -> bool {
    exists|i: int| 0 <= i < tokens.len() && tokens[i] is Y
}

/// The coordinates that `options` holds after the coordinate tokens `tokens`
/// are those it had or has been given since.
proof fn lemma_coordinates_collect(start: Commands, tokens: Seq<MotionToken>)
    requires
        forall|i: int| 0 <= i < tokens.len() ==> (#[trigger] tokens[i]).is_coordinate(),
    ensures
        start matches Commands::Move(before) ==> (start.after_all(tokens) matches Commands::Move(
            options,
        ) && (options.x is Some <==> before.x is Some || sets_x(tokens)) && (options.y is Some
            <==> before.y is Some || sets_y(tokens))),
        start matches Commands::Draw(before) ==> (start.after_all(tokens) matches Commands::Draw(
            options,
        ) && (options.x is Some <==> before.x is Some || sets_x(tokens)) && (options.y is Some
            <==> before.y is Some || sets_y(tokens))),
    decreases tokens.len(),
{
    if tokens.len() > 0 {
        let head = tokens.drop_last();
        let last = tokens.len() - 1;
        lemma_coordinates_collect(start, head);
        assert(tokens[last].is_coordinate());
        if sets_x(head) {
            let i = choose|i: int| 0 <= i < head.len() && head[i] is X;
            assert(tokens[i] is X);
        }
        if sets_y(head) {
            let i = choose|i: int| 0 <= i < head.len() && head[i] is Y;
            assert(tokens[i] is Y);
        }
        if sets_x(tokens) && !(tokens[last] is X) {
            let i = choose|i: int| 0 <= i < tokens.len() && tokens[i] is X;
            assert(head[i] is X);
        }
        if sets_y(tokens) && !(tokens[last] is Y) {
            let i = choose|i: int| 0 <= i < tokens.len() && tokens[i] is Y;
            assert(head[i] is Y);
        }
    }
}

/// A move or a draw that is given nothing but coordinates is ready exactly
/// when it has both: each either held from the start or set by one of the
/// tokens, in whichever order they come. So a command without coordinates
/// is not ready before an x and a y have both arrived.
pub proof fn lemma_ready_needs_both(start: Commands, tokens: Seq<MotionToken>)
    requires
        start != Commands::Reset,
        forall|i: int| 0 <= i < tokens.len() ==> (#[trigger] tokens[i]).is_coordinate(),
    ensures
        start == Commands::fresh_move() || start == Commands::fresh_draw() ==> (start.after_all(
            tokens,
        ).ready() <==> sets_x(tokens) && sets_y(tokens)),
        start matches Commands::Move(before) ==> (start.after_all(tokens).ready() <==> (before.x
            is Some || sets_x(tokens)) && (before.y is Some || sets_y(tokens))),
        start matches Commands::Draw(before) ==> (start.after_all(tokens).ready() <==> (before.x
            is Some || sets_x(tokens)) && (before.y is Some || sets_y(tokens))),
{
    lemma_coordinates_collect(start, tokens);
}

/// A command that is ready stays ready until a tool state replaces it:
/// coordinates overwrite coordinates, and other tokens change nothing.
pub proof fn lemma_ready_stays(command: Commands, tokens: Seq<MotionToken>)
    requires
        command.ready(),
        forall|i: int| 0 <= i < tokens.len() ==> !(#[trigger] tokens[i] is ToolState),
    ensures
        command.after_all(tokens).ready(),
    decreases tokens.len(),
{
    if tokens.len() > 0 {
        lemma_ready_stays(command, tokens.drop_last());
        assert(!(tokens[tokens.len() - 1] is ToolState));
    }
}

} // verus!
