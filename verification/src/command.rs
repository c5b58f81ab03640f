//! What can reach the editor from outside: the commands of its menus and
//! panels, what its dialogs and its text widget report, and the results of
//! the work it asked for.

use vstd::prelude::*;
use crate::cursor::ReportedPosition;
use crate::zoom::ZoomInput;

verus! {

/// The entries of the File menu.
#[derive(Clone, Copy, Debug, PartialEq, Eq, Structural)]
pub enum FileCommand {
    New,
    NewWindow,
    Open,
    Save,
    SaveAs,
    PageSetup,
    Print,
    Exit,
}

/// The entries of the Edit menu. None of them has an effect yet.
#[derive(Clone, Copy, Debug, PartialEq, Eq, Structural)]
pub enum EditCommand {
    Undo,
    Cut,
    CopyText,
    Paste,
    Delete,
    Find,
    FindNext,
    FindPrevious,
    Replace,
    GoTo,
    SelectAll,
    TimeDate,
    Font,
}

/// The entries of the Zoom submenu.
#[derive(Clone, Copy, Debug, PartialEq, Eq, Structural)]
pub enum ZoomCommand {
    ZoomIn,
    ZoomOut,
    Restore,
}

/// The entries of the View menu.
#[derive(Clone, Copy, Debug, PartialEq, Eq, Structural)]
pub enum ViewCommand {
    /// An entry of the Zoom submenu.
    Zoom(ZoomCommand),
    /// A click on the status bar checkbox.
    ToggleStatusBar,
    /// A click on the word wrap checkbox, which is not wired to anything.
    ToggleWordWrap,
}

/// Everything that can be clicked in the menu bar.
#[derive(Clone, Copy, Debug, PartialEq, Eq, Structural)]
pub enum MenuCommand {
    File(FileCommand),
    Edit(EditCommand),
    View(ViewCommand),
    /// The settings button at the right end of the bar.
    Settings,
}

/// The entries of the editor's context menu. None of them has an effect yet.
#[derive(Clone, Copy, Debug, PartialEq, Eq, Structural)]
pub enum ContextCommand {
    Undo,
    Cut,
    CopyText,
    Paste,
    Delete,
    SelectAll,
}

/// What can be clicked in the settings panel.
#[derive(Clone, Copy, Debug, PartialEq, Eq, Structural)]
pub enum SettingsCommand {
    /// Back to the editor.
    Back,
}

/// What a dialog reports.
#[derive(Debug, PartialEq, Eq)]
pub enum DialogEvent {
    /// The path field now holds this text.
    PathEdited(String),
    /// The button that opens or saves was clicked.
    Confirm,
    /// The cancel button was clicked.
    Cancel,
}

/// What the text widget hands back after a frame.
#[derive(Debug, PartialEq, Eq)]
pub struct EditorOutput {
    /// The text after the frame's typing and pasting, if it changed.
    pub text: Option<String>,
    /// The caret, if the widget has one to report.
    pub caret: Option<ReportedPosition>,
    /// The entry of the context menu that was clicked, if any.
    pub context: Option<ContextCommand>,
}

/// Why a file could not be read or written.
#[derive(Debug, PartialEq, Eq)]
pub struct IoError {
    /// The file system's words.
    pub message: String,
}

/// Why a new window could not be started.
#[derive(Debug, PartialEq, Eq)]
pub struct SpawnError {
    /// The host's words.
    pub message: String,
}

/// One thing that happened, in a form the editor can decide on.
#[derive(Debug, PartialEq, Eq)]
pub enum Event {
    /// The frame's zoom shortcuts and gesture.
    Zoom(ZoomInput),
    /// A report of the Open dialog.
    OpenDialog(DialogEvent),
    /// The read that the Open dialog asked for has ended.
    OpenFinished(Result<String, IoError>),
    /// A report of the Save dialog.
    SaveDialog(DialogEvent),
    /// The write that the Save dialog asked for has ended.
    SaveFinished(Result<(), IoError>),
    /// The start of a new window has ended.
    SpawnFinished(Result<(), SpawnError>),
    /// A click in the settings panel.
    Settings(SettingsCommand),
    /// A click in the menu bar.
    Menu(MenuCommand),
    /// The text widget's output.
    Editor(EditorOutput),
}

/// What the editor asks its host to do after an event.
#[derive(Debug, PartialEq, Eq)]
pub enum Action {
    /// Nothing is asked.
    Nothing,
    /// Start a second, independent instance of the program.
    SpawnWindow,
    /// Close the window and end the program.
    Exit,
    /// Read the file at `path` and hand back its text.
    ReadFile { path: String },
    /// Write `text` to the file at `path`.
    WriteFile { path: String, text: String },
    /// Put `message` on the diagnostic channel.
    Report { message: String },
}

/// An action as a value.
pub enum ActionModel {
    Nothing,
    SpawnWindow,
    Exit,
    ReadFile { path: Seq<char> },
    WriteFile { path: Seq<char>, text: Seq<char> },
    Report { message: Seq<char> },
}

impl View for Action {
    type V = ActionModel;

    open spec fn view(&self) -> ActionModel {
        match *self {
            Action::Nothing => ActionModel::Nothing,
            Action::SpawnWindow => ActionModel::SpawnWindow,
            Action::Exit => ActionModel::Exit,
            Action::ReadFile { path } => ActionModel::ReadFile { path: path@ },
            Action::WriteFile { path, text } => ActionModel::WriteFile { path: path@, text: text@ },
            Action::Report { message } => ActionModel::Report { message: message@ },
        }
    }
}

} // verus!
