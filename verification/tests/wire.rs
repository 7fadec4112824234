use cbm_plotter::bus::{BusOp, PLOTTER_DEVICE, PLOTTER_SA_RESET, PLOTTER_SA_XY};
use cbm_plotter::command::{Commands, MoveOptions};
use cbm_plotter::error::PlotError;
use cbm_plotter::wire::push_decimal;

fn decimal(n: u32) -> Vec<u8> {
    let mut out = Vec::new();
    push_decimal(&mut out, n);
    out
}

fn at(x: u32, y: u32) -> MoveOptions {
    MoveOptions { x: Some(x), y: Some(y) }
}

#[test]
fn decimal_of_single_digits() {
    for n in 0..10u32 {
        assert_eq!(decimal(n), vec![b'0' + n as u8]);
    }
}

#[test]
fn decimal_has_no_padding() {
    assert_eq!(decimal(10), b"10".to_vec());
    assert_eq!(decimal(99), b"99".to_vec());
    assert_eq!(decimal(100), b"100".to_vec());
    assert_eq!(decimal(1001), b"1001".to_vec());
    assert_eq!(decimal(4294967295), b"4294967295".to_vec());
}

#[test]
fn decimal_agrees_with_formatting() {
    let mut n: u32 = 1;
    for _ in 0..200 {
        assert_eq!(decimal(n), format!("{}", n).into_bytes());
        n = n.wrapping_mul(2654435761).wrapping_add(12345);
    }
}

#[test]
fn decimal_is_appended() {
    let mut out = b"x=".to_vec();
    push_decimal(&mut out, 447);
    assert_eq!(out, b"x=447".to_vec());
}

#[test]
fn move_line_ends_in_line_feed_and_zero() {
    assert_eq!(Commands::Move(at(10, 20)).payload(), Some(b"M,10,20\n\0".to_vec()));
    assert_eq!(Commands::Move(at(0, 0)).payload(), Some(b"M,0,0\n\0".to_vec()));
}

#[test]
fn draw_line_ends_in_zero() {
    assert_eq!(Commands::Draw(at(5, 3)).payload(), Some(b"D,5,3\0".to_vec()));
    assert_eq!(Commands::Draw(at(997, 447)).payload(), Some(b"D,997,447\0".to_vec()));
}

#[test]
fn lines_of_the_largest_coordinates() {
    assert_eq!(
        Commands::Move(at(u32::MAX, u32::MAX)).payload(),
        Some(b"M,4294967295,4294967295\n\0".to_vec())
    );
    assert_eq!(
        Commands::Draw(at(u32::MAX, 0)).payload(),
        Some(b"D,4294967295,0\0".to_vec())
    );
}

#[test]
fn lines_hold_one_zero_byte() {
    for command in [Commands::Move(at(100, 2000)), Commands::Draw(at(30, 40))] {
        let line = command.payload().unwrap();
        assert_eq!(line.iter().filter(|byte| **byte == 0).count(), 1);
        assert_eq!(line.last(), Some(&0));
        assert!(line.iter().all(|byte| byte.is_ascii()));
    }
}

#[test]
fn unready_commands_have_no_payload() {
    assert_eq!(Commands::new_move().payload(), None);
    assert_eq!(Commands::new_draw().payload(), None);
    assert_eq!(Commands::Move(MoveOptions { x: Some(1), y: None }).payload(), None);
    assert_eq!(Commands::Draw(MoveOptions { x: None, y: Some(1) }).payload(), None);
}

#[test]
fn reset_has_an_empty_payload() {
    assert_eq!(Commands::Reset.payload(), Some(Vec::new()));
}

#[test]
fn plotter_addresses() {
    assert_eq!(PLOTTER_DEVICE, 6);
    assert_eq!(PLOTTER_SA_XY, 1);
    assert_eq!(PLOTTER_SA_RESET, 7);
}

#[test]
fn write_frames_the_data() {
    assert_eq!(
        cbm_plotter::bus::write(8, 15, b"I0".to_vec()),
        vec![
            BusOp::Open { device: 8, secondary: 15 },
            BusOp::Listen { device: 8, secondary: 15 },
            BusOp::RawWrite { data: b"I0".to_vec() },
            BusOp::Unlisten,
            BusOp::Close { device: 8, secondary: 15 },
        ]
    );
}

#[test]
fn move_goes_through_a_channel() {
    assert_eq!(
        Commands::Move(at(10, 20)).operations(),
        vec![
            BusOp::Open { device: 6, secondary: 1 },
            BusOp::Listen { device: 6, secondary: 1 },
            BusOp::RawWrite { data: b"M,10,20\n\0".to_vec() },
            BusOp::Unlisten,
            BusOp::Close { device: 6, secondary: 1 },
        ]
    );
}

#[test]
fn draw_goes_through_a_channel() {
    assert_eq!(
        Commands::Draw(at(5, 3)).operations(),
        vec![
            BusOp::Open { device: 6, secondary: 1 },
            BusOp::Listen { device: 6, secondary: 1 },
            BusOp::RawWrite { data: b"D,5,3\0".to_vec() },
            BusOp::Unlisten,
            BusOp::Close { device: 6, secondary: 1 },
        ]
    );
}

#[test]
fn reset_listens_writes_nothing_and_unlistens() {
    let ops = Commands::Reset.operations();
    assert_eq!(
        ops,
        vec![
            BusOp::Listen { device: 6, secondary: 7 },
            BusOp::RawWrite { data: Vec::new() },
            BusOp::Unlisten,
        ]
    );
    assert!(ops
        .iter()
        .all(|op| !matches!(op, BusOp::Open { .. } | BusOp::Close { .. })));
}

#[test]
fn unready_commands_send_nothing() {
    assert_eq!(Commands::new_move().operations(), Vec::new());
    assert_eq!(Commands::Draw(MoveOptions { x: Some(1), y: None }).operations(), Vec::new());
}

#[test]
fn bus_operations_can_be_copied() {
    for op in Commands::Move(at(1, 2)).operations() {
        assert_eq!(op.clone(), op);
    }
}

#[test]
fn messages_name_the_fault() {
    assert_eq!(PlotError::InvalidCanvas.message(), "Invalid width/height");
    assert_eq!(PlotError::UnrecognisedToolCommand.message(), "unrecognised tool command!");
}

#[test]
fn adapter_message_shows_the_code() {
    assert_eq!(
        PlotError::AdapterOpenFailed { code: 1 }.message(),
        "failed to open adapter with error: 1"
    );
    assert_eq!(
        PlotError::AdapterOpenFailed { code: -1 }.message(),
        "failed to open adapter with error: -1"
    );
    assert_eq!(
        PlotError::AdapterOpenFailed { code: 2147483647 }.message(),
        "failed to open adapter with error: 2147483647"
    );
    assert_eq!(
        PlotError::AdapterOpenFailed { code: i32::MIN }.message(),
        "failed to open adapter with error: -2147483648"
    );
    assert_eq!(
        PlotError::AdapterOpenFailed { code: 0 }.message(),
        "failed to open adapter with error: 0"
    );
}

#[test]
fn channel_message_shows_the_address() {
    assert_eq!(
        PlotError::ChannelOpenFailed { device: 6, secondary: 1 }.message(),
        "failed to open address 6:1"
    );
    assert_eq!(
        PlotError::ChannelOpenFailed { device: 255, secondary: 10 }.message(),
        "failed to open address 255:10"
    );
}
