//! The operations of the serial bus, and the run of them that carries one
//! command to the plotter.

use crate::command::Commands;
use vstd::prelude::*;

verus! {

/// The plotter's device number on the bus.
pub const PLOTTER_DEVICE: u8 = 6;

/// The secondary address that takes moves and draws.
pub const PLOTTER_SA_XY: u8 = 1;

/// The secondary address that resets the plotter.
pub const PLOTTER_SA_RESET: u8 = 7;

/// One operation on the bus, as the driver asks for it.
#[derive(Debug, PartialEq, Eq)]
pub enum BusOp {
    /// Open a channel to a device. The only operation whose result counts.
    Open { device: u8, secondary: u8 },
    /// Address a device as listener.
    Listen { device: u8, secondary: u8 },
    /// Send bytes to whoever listens.
    RawWrite { data: Vec<u8> },
    /// Release the listener.
    Unlisten,
    /// Close the channel to a device.
    Close { device: u8, secondary: u8 },
}

/// A bus operation as contracts see it: the bytes of a write as a sequence.
pub ghost enum BusOpView {
    Open { device: u8, secondary: u8 },
    Listen { device: u8, secondary: u8 },
    RawWrite { data: Seq<u8> },
    Unlisten,
    Close { device: u8, secondary: u8 },
}

impl View for BusOp {
    type V = BusOpView;

    open spec fn view(&self) -> BusOpView {
        match *self {
            BusOp::Open { device, secondary } => BusOpView::Open { device, secondary },
            BusOp::Listen { device, secondary } => BusOpView::Listen { device, secondary },
            BusOp::RawWrite { data } => BusOpView::RawWrite { data: data@ },
            BusOp::Unlisten => BusOpView::Unlisten,
            BusOp::Close { device, secondary } => BusOpView::Close { device, secondary },
        }
    }
}

impl Clone for BusOp {
    fn clone(&self) -> (copy: BusOp)
        ensures
            copy@ == self@,
    {
        match self {
            BusOp::Open { device, secondary } => BusOp::Open {
                device: *device,
                secondary: *secondary,
            },
            BusOp::Listen { device, secondary } => BusOp::Listen {
                device: *device,
                secondary: *secondary,
            },
            BusOp::RawWrite { data } => BusOp::RawWrite { data: data.clone() },
            BusOp::Unlisten => BusOp::Unlisten,
            BusOp::Close { device, secondary } => BusOp::Close {
                device: *device,
                secondary: *secondary,
            },
        }
    }
}

/// The views of a run of operations, in order.
pub open spec fn views(ops: Seq<BusOp>) -> Seq<BusOpView> {
    ops.map_values(|op: BusOp| op@)
}

/// The run of operations that writes `data` to the device at `addr`,
/// `sec_addr`: open a channel, address the device, send, release it, close.
pub open spec fn transfer(addr: u8, sec_addr: u8, data: Seq<u8>) -> Seq<BusOpView> {
    seq![
        BusOpView::Open { device: addr, secondary: sec_addr },
        BusOpView::Listen { device: addr, secondary: sec_addr },
        BusOpView::RawWrite { data },
        BusOpView::Unlisten,
        BusOpView::Close { device: addr, secondary: sec_addr },
    ]
}

/// Lays out the operations that write `data` to the device at `addr`, `sec_addr`.
pub fn write(addr: u8, sec_addr: u8, data: Vec<u8>) -> (ops: Vec<BusOp>)
    ensures
        views(ops@) == transfer(addr, sec_addr, data@),
{
    let mut ops: Vec<BusOp> = Vec::new();
    ops.push(BusOp::Open { device: addr, secondary: sec_addr });
    ops.push(BusOp::Listen { device: addr, secondary: sec_addr });
    ops.push(BusOp::RawWrite { data });
    ops.push(BusOp::Unlisten);
    ops.push(BusOp::Close { device: addr, secondary: sec_addr });
    assert(views(ops@) =~= transfer(addr, sec_addr, data@));
    ops
}

impl Commands {
    /// The run of bus operations that sends the command. A move or a draw
    /// that is ready goes through a channel to the plotter's coordinate
    /// address. A reset is sent to the reset address with no bytes and
    /// without a channel. A command that is not ready sends nothing.
    pub open spec fn transaction(self) -> Seq<BusOpView> {
        match self {
            Commands::Reset => seq![
                BusOpView::Listen { device: PLOTTER_DEVICE, secondary: PLOTTER_SA_RESET },
                BusOpView::RawWrite { data: Seq::empty() },
                BusOpView::Unlisten,
            ],
            _ => if self.ready() {
                transfer(PLOTTER_DEVICE, PLOTTER_SA_XY, self.line())
            } else {
                Seq::empty()
            },
        }
    }

    /// Lays out the bus operations that send the command.
    pub fn operations(&self) -> (ops: Vec<BusOp>)
        ensures
            views(ops@) == self.transaction(),
    {
        match self {
            Commands::Reset => {
                let mut ops: Vec<BusOp> = Vec::new();
                ops.push(BusOp::Listen { device: PLOTTER_DEVICE, secondary: PLOTTER_SA_RESET });
                ops.push(BusOp::RawWrite { data: Vec::new() });
                ops.push(BusOp::Unlisten);
                assert(views(ops@) =~= self.transaction());
                ops
            },
            _ => match self.payload() {
                Some(data) => write(PLOTTER_DEVICE, PLOTTER_SA_XY, data),
                None => {
                    let ops: Vec<BusOp> = Vec::new();
                    assert(views(ops@) =~= self.transaction());
                    ops
                },
            },
        }
    }
}

} // verus!
