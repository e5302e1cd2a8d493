use task_viewer::input::{interpret, Command, InputEvent};
use task_viewer::workspace::Direction;

#[test]
fn terminate_request_maps_to_terminate() {
    assert_eq!(interpret(InputEvent::RequestTerminate, 3), Command::Terminate);
}

#[test]
fn tab_selection_in_range_maps_to_select_tab() {
    assert_eq!(interpret(InputEvent::SelectTab(0), 3), Command::SelectTab(0));
    assert_eq!(interpret(InputEvent::SelectTab(2), 3), Command::SelectTab(2));
}

#[test]
fn tab_selection_out_of_range_maps_to_no_op() {
    assert_eq!(interpret(InputEvent::SelectTab(3), 3), Command::NoOp);
    assert_eq!(interpret(InputEvent::SelectTab(5), 3), Command::NoOp);
}

#[test]
fn movement_maps_to_navigation() {
    assert_eq!(
        interpret(InputEvent::MoveDown, 3),
        Command::Navigate(Direction::Next)
    );
    assert_eq!(
        interpret(InputEvent::MoveUp, 3),
        Command::Navigate(Direction::Previous)
    );
}

#[test]
fn confirm_maps_to_toggle_details() {
    assert_eq!(interpret(InputEvent::Confirm, 3), Command::ToggleDetails);
}

#[test]
fn anything_else_maps_to_no_op() {
    assert_eq!(interpret(InputEvent::Other, 3), Command::NoOp);
}
