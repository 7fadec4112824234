use cbm_plotter::command::{Commands, MoveOptions};
use cbm_plotter::error::PlotError;
use cbm_plotter::token::MotionToken;

fn x(value: f64) -> MotionToken {
    MotionToken::X(value.to_bits())
}

fn y(value: f64) -> MotionToken {
    MotionToken::Y(value.to_bits())
}

fn options(x: Option<u32>, y: Option<u32>) -> MoveOptions {
    MoveOptions { x, y }
}

#[test]
fn default_move_options_are_blank() {
    assert_eq!(MoveOptions::default(), options(None, None));
}

#[test]
fn new_move_has_no_coordinates() {
    assert_eq!(Commands::new_move(), Commands::Move(options(None, None)));
    assert!(!Commands::new_move().is_ready());
}

#[test]
fn new_draw_has_no_coordinates() {
    assert_eq!(Commands::new_draw(), Commands::Draw(options(None, None)));
    assert!(!Commands::new_draw().is_ready());
}

#[test]
fn reset_is_always_ready() {
    assert!(Commands::Reset.is_ready());
}

#[test]
fn one_coordinate_is_not_enough() {
    let mut only_x = Commands::new_move();
    only_x.set_x(3);
    assert_eq!(only_x, Commands::Move(options(Some(3), None)));
    assert!(!only_x.is_ready());

    let mut only_y = Commands::new_draw();
    only_y.set_y(4);
    assert_eq!(only_y, Commands::Draw(options(None, Some(4))));
    assert!(!only_y.is_ready());
}

#[test]
fn ready_with_both_coordinates_in_either_order() {
    let mut x_first = Commands::new_move();
    x_first.set_x(1);
    assert!(!x_first.is_ready());
    x_first.set_y(2);
    assert!(x_first.is_ready());
    assert_eq!(x_first, Commands::Move(options(Some(1), Some(2))));

    let mut y_first = Commands::new_draw();
    y_first.set_y(2);
    assert!(!y_first.is_ready());
    y_first.set_x(1);
    assert!(y_first.is_ready());
    assert_eq!(y_first, Commands::Draw(options(Some(1), Some(2))));
}

#[test]
fn repeated_coordinate_does_not_make_ready() {
    let mut command = Commands::new_move();
    for value in [1.0, 2.0, 3.0] {
        assert_eq!(command.apply(x(value)), Ok(()));
        assert!(!command.is_ready());
    }
    assert_eq!(command, Commands::Move(options(Some(3), None)));
}

#[test]
fn setting_coordinates_leaves_reset_alone() {
    let mut command = Commands::Reset;
    command.set_x(5);
    command.set_y(6);
    assert_eq!(command, Commands::Reset);
    assert!(command.is_ready());
}

#[test]
fn ready_command_stays_ready_under_coordinates() {
    let mut command = Commands::new_draw();
    assert_eq!(command.apply(x(1.0)), Ok(()));
    assert_eq!(command.apply(y(1.0)), Ok(()));
    assert!(command.is_ready());
    for token in [x(2.0), MotionToken::Other, y(9.0), x(4.0), MotionToken::Other] {
        assert_eq!(command.apply(token), Ok(()));
        assert!(command.is_ready());
    }
    assert_eq!(command, Commands::Draw(options(Some(4), Some(9))));
}

#[test]
fn tool_state_zero_starts_a_fresh_draw() {
    let mut unready = Commands::new_move();
    unready.set_x(8);
    assert_eq!(unready.apply(MotionToken::ToolState(0)), Ok(()));
    assert_eq!(unready, Commands::Draw(options(None, None)));

    let mut ready = Commands::Move(options(Some(1), Some(2)));
    assert_eq!(ready.apply(MotionToken::ToolState(0)), Ok(()));
    assert_eq!(ready, Commands::Draw(options(None, None)));
    assert!(!ready.is_ready());

    let mut reset = Commands::Reset;
    assert_eq!(reset.apply(MotionToken::ToolState(0)), Ok(()));
    assert_eq!(reset, Commands::new_draw());
}

#[test]
fn tool_state_one_starts_a_fresh_move() {
    let mut unready = Commands::new_draw();
    unready.set_y(8);
    assert_eq!(unready.apply(MotionToken::ToolState(1)), Ok(()));
    assert_eq!(unready, Commands::Move(options(None, None)));

    let mut ready = Commands::Draw(options(Some(1), Some(2)));
    assert_eq!(ready.apply(MotionToken::ToolState(1)), Ok(()));
    assert_eq!(ready, Commands::new_move());
    assert!(!ready.is_ready());
}

#[test]
fn other_tool_states_are_faults() {
    for state in [2usize, 3, 10, usize::MAX] {
        let mut command = Commands::Draw(options(Some(1), None));
        assert_eq!(
            command.apply(MotionToken::ToolState(state)),
            Err(PlotError::UnrecognisedToolCommand)
        );
        assert_eq!(command, Commands::Draw(options(Some(1), None)));
    }
}

#[test]
fn other_tokens_change_nothing() {
    let mut command = Commands::Move(options(None, Some(7)));
    assert_eq!(command.apply(MotionToken::Other), Ok(()));
    assert_eq!(command, Commands::Move(options(None, Some(7))));
}

#[test]
fn coordinates_are_cut_off_on_assignment() {
    let mut command = Commands::new_draw();
    assert_eq!(command.apply(x(5.7)), Ok(()));
    assert_eq!(command.apply(y(3.2)), Ok(()));
    assert_eq!(command, Commands::Draw(options(Some(5), Some(3))));
}
