use polaris::analysis::{service_command, AnalysisState, ServiceCommand};
use polaris::orbit::OrbitType;
use polaris::state::{
    context_menu_command, first_hit, handle_pointer, MenuCommand, Mode, MouseStatus,
};

#[test]
fn mode_status_labels() {
    assert_eq!(Mode::Simulating.status(), "SIMULATING");
    assert_eq!(Mode::Paused.status(), "PAUSED");
}

#[test]
fn mode_toggle_twice() {
    assert_eq!(Mode::Paused.toggled(), Mode::Simulating);
    assert_eq!(Mode::Simulating.toggled(), Mode::Paused);
    assert_eq!(Mode::Paused.toggled().toggled(), Mode::Paused);
}

#[test]
fn analysis_state_labels() {
    assert_eq!(AnalysisState::Sleeping.to_string(), "Sleeping");
    assert_eq!(AnalysisState::Calculating.to_string(), "Calculating");
    assert_eq!(AnalysisState::Finished.to_string(), "Finished");
}

#[test]
fn orbit_type_labels() {
    assert_eq!(OrbitType::Circular.to_string(), "Circular orbit");
    assert_eq!(OrbitType::Elliptic.to_string(), "Elliptic orbit");
    assert_eq!(OrbitType::Parabolic.to_string(), "Parabolic fly-by");
    assert_eq!(OrbitType::Hyperbolic.to_string(), "Hyperbolic fly-by");
}

#[test]
fn service_commands() {
    assert_eq!(service_command(true, true, false), ServiceCommand::Start);
    assert_eq!(service_command(true, true, true), ServiceCommand::Keep);
    assert_eq!(service_command(false, true, true), ServiceCommand::StopAndClear);
    assert_eq!(service_command(true, false, true), ServiceCommand::StopAndClear);
    assert_eq!(service_command(false, false, false), ServiceCommand::Keep);
}

#[test]
fn first_hit_finds_lowest_index() {
    assert_eq!(first_hit(&vec![false, true, true]), Some(1));
    assert_eq!(first_hit(&vec![false, false]), None);
    assert_eq!(first_hit(&vec![]), None);
}

#[test]
fn click_grabs_first_body_and_drags_when_paused() {
    let out = handle_pointer(MouseStatus::Released, Mode::Paused, true, false, false, &vec![false, true, true]);
    assert_eq!(out.mouse_state, MouseStatus::Dragging(1));
    assert_eq!(out.drag_object, Some(1));
    assert!(out.prediction_dirty);
    assert!(!out.create_object);
    assert!(!out.close_menu);
}

#[test]
fn click_while_simulating_grabs_but_does_not_move() {
    let out = handle_pointer(MouseStatus::Released, Mode::Simulating, true, false, false, &vec![true]);
    assert_eq!(out.mouse_state, MouseStatus::Dragging(0));
    assert_eq!(out.drag_object, None);
    assert!(!out.prediction_dirty);
}

#[test]
fn click_on_nothing_holds_and_closes_menu_outside() {
    let out = handle_pointer(MouseStatus::Released, Mode::Paused, true, true, false, &vec![false]);
    assert_eq!(out.mouse_state, MouseStatus::Held);
    assert!(out.close_menu);
    let inside = handle_pointer(MouseStatus::Released, Mode::Paused, true, true, true, &vec![false]);
    assert!(!inside.close_menu);
}

#[test]
fn create_sequence() {
    // press "Create new mass": CreatingStart; the button is released, then a click places the body
    let s1 = handle_pointer(MouseStatus::CreatingStart, Mode::Paused, false, false, false, &vec![]);
    assert_eq!(s1.mouse_state, MouseStatus::Creating);
    assert!(!s1.show_placement_preview);
    let s2 = handle_pointer(s1.mouse_state, Mode::Paused, false, false, false, &vec![]);
    assert_eq!(s2.mouse_state, MouseStatus::Creating);
    assert!(s2.show_placement_preview);
    let s3 = handle_pointer(s2.mouse_state, Mode::Simulating, true, false, false, &vec![true]);
    assert_eq!(s3.mouse_state, MouseStatus::Released);
    assert!(s3.create_object);
    assert!(s3.prediction_dirty);
}

#[test]
fn release_returns_to_released() {
    let out = handle_pointer(MouseStatus::Dragging(3), Mode::Paused, false, false, false, &vec![]);
    assert_eq!(out.mouse_state, MouseStatus::Released);
    assert_eq!(out.drag_object, None);
    let held = handle_pointer(MouseStatus::Held, Mode::Paused, true, false, false, &vec![true]);
    assert_eq!(held.mouse_state, MouseStatus::Held);
    let dragging = handle_pointer(MouseStatus::Dragging(2), Mode::Paused, true, false, false, &vec![true]);
    assert_eq!(dragging.mouse_state, MouseStatus::Dragging(2));
    assert_eq!(dragging.drag_object, Some(2));
}

#[test]
fn context_menu_commands() {
    assert_eq!(context_menu_command(false, &vec![true]), MenuCommand::Keep);
    assert_eq!(context_menu_command(true, &vec![false, false, true]), MenuCommand::Open(2));
    assert_eq!(context_menu_command(true, &vec![false, false]), MenuCommand::Close);
    assert_eq!(context_menu_command(true, &vec![]), MenuCommand::Keep);
}
