use threebody::error::DebugError;
use threebody::shell::{
    close_child_stdio, operation_message, pane_message, test_file, update, Layout, Message,
    Operation, Pane, PaneMessage, PaneRegisters, ShellRequest, State,
};

#[test]
fn loading_a_file_opens_the_dialog() {
    assert_eq!(operation_message(Operation::LoadFile), ShellRequest::OpenFileDialog);
    assert_eq!(operation_message(Operation::ReloadFile), ShellRequest::Nothing);
}

#[test]
fn default_layout_shows_the_status_bar_only() {
    let layout = Layout::default();
    assert!(layout.status_bar);
    assert!(!layout.sidebar_left && !layout.sidebar_right && !layout.panel);
    assert_eq!(
        layout.panes,
        vec![Pane::Registers(PaneRegisters {}), Pane::Registers(PaneRegisters {})]
    );
    assert_eq!(layout._focus, None);
    assert_eq!(State::default().layout.panes.len(), 2);
}

#[test]
fn toggles_flip_their_part() {
    let mut state = State::default();
    pane_message(&mut state, PaneMessage::SidebarLeftToggle);
    assert!(state.layout.sidebar_left && !state.layout.sidebar_right && !state.layout.panel);
    pane_message(&mut state, PaneMessage::SidebarRightToggle);
    pane_message(&mut state, PaneMessage::PanelToggle);
    assert!(state.layout.sidebar_left && state.layout.sidebar_right && state.layout.panel);
    pane_message(&mut state, PaneMessage::SidebarLeftToggle);
    assert!(!state.layout.sidebar_left);
    assert!(state.layout.status_bar);
}

#[test]
fn focus_moves_to_an_existing_pane() {
    let mut state = State::default();
    pane_message(&mut state, PaneMessage::_Focus(1));
    assert_eq!(state.layout._focus, Some(1));
    pane_message(&mut state, PaneMessage::_Focus(2));
    assert_eq!(state.layout._focus, Some(1));
}

#[test]
fn update_dispatches_messages() {
    let mut state = State::default();
    assert_eq!(update(&mut state, Message::Operation(Operation::LoadFile)), ShellRequest::OpenFileDialog);
    assert_eq!(update(&mut state, Message::Pane(PaneMessage::PanelToggle)), ShellRequest::Nothing);
    assert!(state.layout.panel);
    assert_eq!(update(&mut state, Message::Idle), ShellRequest::Nothing);
    assert!(state.layout.panel);
}

#[test]
fn leftover_output_is_reported() {
    assert_eq!(close_child_stdio(Vec::new()), None);
    assert_eq!(close_child_stdio(b"bye\n".to_vec()), Some(b"bye\n".to_vec()));
}

#[test]
fn executable_files_pass() {
    assert_eq!(test_file(true, false, Some(0o100755)), Ok(()));
    assert_eq!(test_file(true, false, Some(0o100001)), Ok(()));
}

#[test]
fn other_files_are_not_executable() {
    assert_eq!(test_file(false, false, Some(0o755)), Err(DebugError::FileNotExecutable));
    assert_eq!(test_file(true, true, Some(0o755)), Err(DebugError::FileNotExecutable));
    assert_eq!(test_file(true, false, Some(0o100644)), Err(DebugError::FileNotExecutable));
    assert_eq!(test_file(true, false, None), Err(DebugError::FileNotExecutable));
}
