//! What passes between the engine and the shell around it: the operations
//! the shell asks for, the layout it keeps, and the checks on an executable
//! before it is loaded.

use vstd::prelude::*;
use crate::error::DebugError;

verus! {

/// An operation that the user asked for.
#[derive(PartialEq, Eq, Structural, Clone, Copy, Debug)]
pub enum Operation {
    LoadFile,
    ReloadFile,
}

/// What the shell is to do in answer to a message.
#[derive(PartialEq, Eq, Structural, Clone, Copy, Debug)]
pub enum ShellRequest {
    /// Let the user pick an executable.
    OpenFileDialog,
    /// Nothing to do.
    Nothing,
}

/// The request that `operation` leads to: loading a file opens the file
/// dialog, any other operation asks for nothing.
pub open spec fn operation_request(operation: Operation) -> ShellRequest {
    match operation {
        Operation::LoadFile => ShellRequest::OpenFileDialog,
        Operation::ReloadFile => ShellRequest::Nothing,
    }
}

/// Answers an operation with the request it leads to.
pub fn operation_message(operation: Operation) -> (request: ShellRequest)
    ensures
        request == operation_request(operation),
{
    match operation {
        Operation::LoadFile => ShellRequest::OpenFileDialog,
        _ => ShellRequest::Nothing,
    }
}

/// The state of the memory pane.
#[derive(PartialEq, Eq, Structural, Clone, Copy, Debug)]
pub struct PaneMemory {}

/// The state of the stack pane.
#[derive(PartialEq, Eq, Structural, Clone, Copy, Debug)]
pub struct PaneStack {}

/// The state of the code pane.
#[derive(PartialEq, Eq, Structural, Clone, Copy, Debug)]
pub struct PaneCode {}

/// The state of the assembly pane.
#[derive(PartialEq, Eq, Structural, Clone, Copy, Debug)]
pub struct PaneAssembly {}

/// The state of the registers pane.
#[derive(PartialEq, Eq, Structural, Clone, Copy, Debug)]
pub struct PaneRegisters {}

/// The state of the variables pane.
#[derive(PartialEq, Eq, Structural, Clone, Copy, Debug)]
pub struct PaneVariables {}

/// The state of the info pane.
#[derive(PartialEq, Eq, Structural, Clone, Copy, Debug)]
pub struct PaneInfo {}

/// The state of the control pane.
#[derive(PartialEq, Eq, Structural, Clone, Copy, Debug)]
pub struct PaneControl {}

/// The state of the terminal pane.
#[derive(PartialEq, Eq, Structural, Clone, Copy, Debug)]
pub struct PaneTerminal {}

/// A pane of the shell.
#[derive(PartialEq, Eq, Structural, Clone, Copy, Debug)]
pub enum Pane {
    Memory(PaneMemory),
    Stack(PaneStack),
    Code(PaneCode),
    Assembly(PaneAssembly),
    Registers(PaneRegisters),
    Variables(PaneVariables),
    Info(PaneInfo),
    Control(PaneControl),
    Terminal(PaneTerminal),
}

/// A message about the panes.
#[derive(PartialEq, Eq, Structural, Clone, Copy, Debug)]
pub enum PaneMessage {
    SidebarLeftToggle,
    SidebarRightToggle,
    PanelToggle,
    /// The pane in the given slot of the layout was clicked.
    _Focus(usize),
}

/// Which parts of the shell are shown, and which panes exist.
#[derive(Debug)]
pub struct Layout {
    pub status_bar: bool,
    pub sidebar_left: bool,
    pub sidebar_right: bool,
    pub panel: bool,
    pub panes: Vec<Pane>,
    pub _focus: Option<usize>,
}

impl Layout {
    /// The layout the shell starts with: the status bar shown, the sidebars
    /// and the panel hidden, two register panes, none of them in focus.
    pub open spec fn initial(self) -> bool {
        &&& self.status_bar
        &&& !self.sidebar_left
        &&& !self.sidebar_right
        &&& !self.panel
        &&& self.panes@ == seq![Pane::Registers(PaneRegisters {}), Pane::Registers(PaneRegisters {})]
        &&& self._focus is None
    }
}

impl Default for Layout {
    fn default() -> (layout: Self)
        ensures
            layout.initial(),
    {
        let mut panes: Vec<Pane> = Vec::new();
        panes.push(Pane::Registers(PaneRegisters {}));
        panes.push(Pane::Registers(PaneRegisters {}));
        assert(panes@ =~= seq![Pane::Registers(PaneRegisters {}), Pane::Registers(PaneRegisters {})]);
        Layout {
            status_bar: true,
            sidebar_left: false,
            sidebar_right: false,
            panel: false,
            panes,
            _focus: None,
        }
    }
}

/// The state of the shell.
#[derive(Debug)]
pub struct State {
    pub layout: Layout,
}

impl Default for State {
    fn default() -> (state: Self)
        ensures
            state.layout.initial(),
    {
        State { layout: Layout::default() }
    }
}

/// A message to the engine.
#[derive(PartialEq, Eq, Structural, Clone, Copy, Debug)]
pub enum Message {
    Pane(PaneMessage),
    Operation(Operation),
    Idle,
}

/// `after` is `before` with the pane message applied: a toggle flips its
/// part, a click on an existing pane moves the focus there, and nothing
/// else changes.
pub open spec fn pane_applied(before: State, after: State, pane: PaneMessage) -> bool {
    &&& after.layout.status_bar == before.layout.status_bar
    &&& after.layout.panes == before.layout.panes
    &&& after.layout.sidebar_left == (before.layout.sidebar_left != (pane
        == PaneMessage::SidebarLeftToggle))
    &&& after.layout.sidebar_right == (before.layout.sidebar_right != (pane
        == PaneMessage::SidebarRightToggle))
    &&& after.layout.panel == (before.layout.panel != (pane == PaneMessage::PanelToggle))
    &&& after.layout._focus == (match pane {
        PaneMessage::_Focus(slot) => if slot < before.layout.panes@.len() {
            Some(slot)
        } else {
            before.layout._focus
        },
        _ => before.layout._focus,
    })
}

/// Applies a pane message to the layout.
pub fn pane_message(state: &mut State, pane: PaneMessage)
    ensures
        pane_applied(*old(state), *final(state), pane),
{
    match pane {
        PaneMessage::SidebarLeftToggle => {
            state.layout.sidebar_left = !state.layout.sidebar_left;
        },
        PaneMessage::SidebarRightToggle => {
            state.layout.sidebar_right = !state.layout.sidebar_right;
        },
        PaneMessage::PanelToggle => {
            state.layout.panel = !state.layout.panel;
        },
        PaneMessage::_Focus(slot) => {
            if slot < state.layout.panes.len() {
                state.layout._focus = Some(slot);
            }
        },
    }
}

/// Handles one message: a pane message changes the layout, an operation
/// leads to its request.
pub fn update(state: &mut State, message: Message) -> (request: ShellRequest)
    ensures
        request == (match message {
            Message::Operation(operation) => operation_request(operation),
            _ => ShellRequest::Nothing,
        }),
        !(message is Pane) ==> *final(state) == *old(state),
        message matches Message::Pane(pane) ==> pane_applied(*old(state), *final(state), pane),
{
    match message {
        Message::Operation(operation) => operation_message(operation),
        Message::Pane(pane) => {
            pane_message(state, pane);
            ShellRequest::Nothing
        },
        Message::Idle => ShellRequest::Nothing,
    }
}

/// What was left unread in the tracee's output pipe when it was closed:
/// `None` where nothing was left.
pub fn close_child_stdio(leftover: Vec<u8>) -> (text: Option<Vec<u8>>)
    ensures
        text == (if leftover@.len() == 0 {
            None
        } else {
            Some(leftover)
        }),
{
    if leftover.len() == 0 {
        None
    } else {
        Some(leftover)
    }
}

/// The permission bits that let anyone execute a file.
pub const EXECUTE_BITS: u32 = 0o111;

/// Whether any of the execute bits is set in `mode`.
pub open spec fn has_execute_bit(mode: u32) -> bool {
    mode & EXECUTE_BITS != 0
}

/// Decides whether a file can be loaded as an executable, from what the
/// file system says of it: it must exist, be no directory, and its mode,
/// where it could be read, must have an execute bit.
pub fn test_file(present: bool, is_dir: bool, mode: Option<u32>) -> (verdict: Result<(), DebugError>)
    ensures
        verdict is Ok <==> present && !is_dir && mode is Some && has_execute_bit(mode.unwrap()),
        verdict is Err ==> verdict == Err::<(), DebugError>(DebugError::FileNotExecutable),
{
    if !present || is_dir {
        return Err(DebugError::FileNotExecutable);
    }
    match mode {
        Some(mode) => {
            if mode & EXECUTE_BITS == 0 {
                Err(DebugError::FileNotExecutable)
            } else {
                Ok(())
            }
        },
        None => Err(DebugError::FileNotExecutable),
    }
}

} // verus!
