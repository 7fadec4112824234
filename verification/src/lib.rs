//! Driver core for a pen plotter on a Commodore serial bus: the command
//! accumulator that collects coordinates from a motion stream, the wire format
//! of the plotter's commands, and the sequencing of bus operations.

pub mod bus;
pub mod command;
pub mod error;
pub mod lifecycle;
pub mod plotter;
pub mod token;
pub mod wire;
