//! The state of one modal dialog that asks for a file path.

use vstd::prelude::*;

verus! {

/// What a dialog is, as a value: the text of its path field and whether it
/// is on screen.
pub struct DialogModel {
    /// The characters in the path field.
    pub path_input: Seq<char>,
    /// Whether the dialog is on screen.
    pub visible: bool,
}

impl DialogModel {
    /// A hidden dialog with an empty path field.
    pub open spec fn initial() -> DialogModel {
        DialogModel { path_input: Seq::<char>::empty(), visible: false }
    }

    /// The dialog on screen, its path field untouched.
    pub open spec fn opened(self) -> DialogModel {
        DialogModel { visible: true, ..self }
    }

    /// The dialog off screen, its path field untouched.
    pub open spec fn dismissed(self) -> DialogModel {
        DialogModel { visible: false, ..self }
    }

    /// The dialog with `path` in its path field.
    pub open spec fn with_path(self, path: Seq<char>) -> DialogModel {
        DialogModel { path_input: path, ..self }
    }
}

/// One modal dialog: the path typed so far and whether the dialog is shown.
/// There is one for opening and one for saving.
#[derive(Debug)]
pub struct DialogState {
    path_input: String,
    visible: bool,
}

impl View for DialogState {
    type V = DialogModel;

    closed spec fn view(&self) -> DialogModel {
        DialogModel { path_input: self.path_input@, visible: self.visible }
    }
}

impl DialogState {
    /// A hidden dialog with an empty path field.
    pub fn new() -> (dialog: Self)
        ensures
            dialog@ == DialogModel::initial(),
    {
        DialogState { path_input: String::new(), visible: false }
    }

    /// The path typed so far.
    pub fn path_input(&self) -> (path: &str)
        ensures
            path@ == self@.path_input,
    {
        self.path_input.as_str()
    }

    /// A copy of the path typed so far.
    pub fn path_to_owned(&self) -> (path: String)
        ensures
            path@ == self@.path_input,
    {
        self.path_input.clone()
    }

    /// Whether the dialog is on screen.
    pub fn is_visible(&self) -> (visible: bool)
        ensures
            visible == self@.visible,
    {
        self.visible
    }

    /// Shows the dialog. On a dialog that is already shown this changes
    /// nothing.
    pub fn open(&mut self)
        ensures
            final(self)@ == old(self)@.opened(),
            old(self)@.visible ==> final(self)@ == old(self)@,
        no_unwind
    {
        self.visible = true;
    }

    /// Hides the dialog and keeps what was typed.
    pub fn close(&mut self)
        ensures
            final(self)@ == old(self)@.dismissed(),
        no_unwind
    {
        self.visible = false;
    }

    /// Takes over the content of the path field after an edit.
    pub fn set_path_input(&mut self, path: String)
        ensures
            final(self)@ == old(self)@.with_path(path@),
        no_unwind
    {
        self.path_input = path;
    }
}

impl Default for DialogState {
    fn default() -> (dialog: Self)
        ensures
            dialog@ == DialogModel::initial(),
    {
        DialogState::new()
    }
}

/// Showing a dialog twice is showing it once, and neither showing nor hiding
/// touches the path.
pub proof fn lemma_open_is_idempotent(dialog: DialogModel)
    ensures
        dialog.opened().opened() == dialog.opened(),
        dialog.opened().visible,
        dialog.opened().path_input == dialog.path_input,
        !dialog.dismissed().visible,
        dialog.dismissed().path_input == dialog.path_input,
        dialog.visible ==> dialog.opened() == dialog,
{
}

} // verus!
