//! The editor itself: one value that owns all state and is handed every
//! event of a frame in turn.

use vstd::prelude::*;
use vstd::string::StringExecFns;
use crate::buffer::DocumentBuffer;
use crate::command::{
    Action, ActionModel, ContextCommand, DialogEvent, EditCommand, EditorOutput, Event,
    FileCommand, IoError, MenuCommand, SettingsCommand, SpawnError, ViewCommand, ZoomCommand,
};
use crate::cursor::{acceptable, CursorLocator, CursorPosition};
use crate::dialog::DialogState;
use crate::model::{
    edit_menu_step, event_acceptable, file_menu_step, main_panel_step, menu_bar_step,
    open_dialog_step, open_finished_step, regions_of, right_click_menu_step, save_dialog_step,
    save_finished_step, settings_panel_step, spawn_finished_step, update_step, view_menu_step,
    zoom_input_step, zoom_menu_step, AppModel, RegionState, Regions, ViewState,
};
use crate::status::{
    encoding_label, line_ending_label, position_label, status_labels, zoom_label, StatusBar,
};
use crate::style::{base_size, StyleRole};
use crate::zoom::{on_ladder, scaled_size, FontSize, ZoomInput, ZoomState};

verus! {

/// The editor: document, zoom, caret, the view on screen and the two
/// dialogs. Every value of this type is consistent in the sense of
/// [`AppModel::consistent`].
#[derive(Debug)]
pub struct RustpadApp {
    text: DocumentBuffer,
    font_size: u32,
    zoom: ZoomState,
    cursor: CursorLocator,
    show_status_bar: bool,
    view: ViewState,
    open_dialog_state: DialogState,
    save_dialog_state: DialogState,
}

impl View for RustpadApp {
    type V = AppModel;

    closed spec fn view(&self) -> AppModel {
        AppModel {
            text: self.text@,
            font_size: self.font_size as int,
            zoom: self.zoom@,
            cursor: self.cursor@,
            show_status_bar: self.show_status_bar,
            view: self.view,
            open_dialog: self.open_dialog_state@,
            save_dialog: self.save_dialog_state@,
        }
    }
}

impl RustpadApp {
    /// What every editor satisfies.
    #[verifier::type_invariant]
    pub open spec fn inv(&self) -> bool {
        self@.consistent()
    }

    /// The editor at start-up: an empty document at the default zoom, the
    /// caret at home, the status bar on, the editing view and no dialog.
    pub fn new() -> (app: Self)
        ensures
            app@ == AppModel::initial(),
            app@.consistent(),
    {
        RustpadApp {
            text: DocumentBuffer::new(),
            font_size: base_size(StyleRole::Monospace),
            zoom: ZoomState::new(),
            cursor: CursorLocator::new(),
            show_status_bar: true,
            view: ViewState::Editing,
            open_dialog_state: DialogState::new(),
            save_dialog_state: DialogState::new(),
        }
    }

    /// Whether a dialog is on screen.
    pub fn any_dialog_shown(&self) -> (shown: bool)
        ensures
            shown == self@.any_dialog_shown(),
    {
        self.open_dialog_state.is_visible() || self.save_dialog_state.is_visible()
    }

    /// Whether the menu bar and the text take input.
    pub fn input_enabled(&self) -> (enabled: bool)
        ensures
            enabled == self@.input_enabled(),
    {
        self.view == ViewState::Editing && !self.any_dialog_shown()
    }

    /// An entry of the File menu was clicked. While a dialog is up, or in
    /// the settings view, the click is dropped.
    pub fn file_menu(&mut self, command: FileCommand) -> (action: Action)
        ensures
            final(self)@ == file_menu_step(old(self)@, command).state,
            action@ == file_menu_step(old(self)@, command).action,
            final(self)@.consistent(),
    {
        proof {
            use_type_invariant(&*self);
        }
        if !self.input_enabled() {
            return Action::Nothing;
        }
        match command {
            FileCommand::New => Action::Nothing,
            FileCommand::NewWindow => Action::SpawnWindow,
            FileCommand::Open => {
                self.open_dialog_state.open();
                Action::Nothing
            },
            FileCommand::Save => {
                self.save_dialog_state.open();
                Action::Nothing
            },
            FileCommand::SaveAs => {
                self.save_dialog_state.open();
                Action::Nothing
            },
            FileCommand::PageSetup => Action::Nothing,
            FileCommand::Print => Action::Nothing,
            FileCommand::Exit => Action::Exit,
        }
    }

    /// Something happened in the Open dialog.
    pub fn open_dialog(&mut self, event: DialogEvent) -> (action: Action)
        ensures
            final(self)@ == open_dialog_step(old(self)@, event).state,
            action@ == open_dialog_step(old(self)@, event).action,
            final(self)@.consistent(),
    {
        proof {
            use_type_invariant(&*self);
        }
        if !self.open_dialog_state.is_visible() {
            return Action::Nothing;
        }
        match event {
            DialogEvent::PathEdited(path) => {
                self.open_dialog_state.set_path_input(path);
                Action::Nothing
            },
            DialogEvent::Confirm => Action::ReadFile {
                path: self.open_dialog_state.path_to_owned(),
            },
            DialogEvent::Cancel => {
                self.open_dialog_state.close();
                Action::Nothing
            },
        }
    }

    /// The read that the Open dialog asked for has ended.
    pub fn open_finished(&mut self, outcome: Result<String, IoError>) -> (action: Action)
        ensures
            final(self)@ == open_finished_step(old(self)@, outcome).state,
            action@ == open_finished_step(old(self)@, outcome).action,
            final(self)@.consistent(),
    {
        proof {
            use_type_invariant(&*self);
        }
        if !self.open_dialog_state.is_visible() {
            return Action::Nothing;
        }
        match outcome {
            Ok(contents) => {
                self.text.replace(contents);
                self.open_dialog_state.close();
                Action::Nothing
            },
            Err(error) => {
                let message = String::from_str("Failed to open file: ").concat(
                    error.message.as_str(),
                );
                Action::Report { message }
            },
        }
    }

    /// Something happened in the Save dialog.
    pub fn save_dialog(&mut self, event: DialogEvent) -> (action: Action)
        ensures
            final(self)@ == save_dialog_step(old(self)@, event).state,
            action@ == save_dialog_step(old(self)@, event).action,
            final(self)@.consistent(),
    {
        proof {
            use_type_invariant(&*self);
        }
        if !self.save_dialog_state.is_visible() {
            return Action::Nothing;
        }
        match event {
            DialogEvent::PathEdited(path) => {
                self.save_dialog_state.set_path_input(path);
                Action::Nothing
            },
            DialogEvent::Confirm => Action::WriteFile {
                path: self.save_dialog_state.path_to_owned(),
                text: self.text.to_owned_text(),
            },
            DialogEvent::Cancel => {
                self.save_dialog_state.close();
                Action::Nothing
            },
        }
    }

    /// The write that the Save dialog asked for has ended.
    pub fn save_finished(&mut self, outcome: Result<(), IoError>) -> (action: Action)
        ensures
            final(self)@ == save_finished_step(old(self)@, outcome).state,
            action@ == save_finished_step(old(self)@, outcome).action,
            final(self)@.consistent(),
    {
        proof {
            use_type_invariant(&*self);
        }
        if !self.save_dialog_state.is_visible() {
            return Action::Nothing;
        }
        match outcome {
            Ok(_) => {
                self.save_dialog_state.close();
                Action::Nothing
            },
            Err(error) => {
                let message = String::from_str("Failed to save file: ").concat(
                    error.message.as_str(),
                );
                Action::Report { message }
            },
        }
    }

    /// The attempt to start a new window has ended.
    pub fn spawn_finished(&mut self, outcome: Result<(), SpawnError>) -> (action: Action)
        ensures
            final(self)@ == old(self)@,
            action@ == spawn_finished_step(old(self)@, outcome).action,
            final(self)@.consistent(),
    {
        proof {
            use_type_invariant(&*self);
        }
        match outcome {
            Ok(_) => Action::Nothing,
            Err(error) => {
                let message = String::from_str("Failed to start new app: ").concat(
                    error.message.as_str(),
                );
                Action::Report { message }
            },
        }
    }

    /// An entry of the editor's context menu was clicked. No entry does
    /// anything yet.
    pub fn right_click_menu(&mut self, command: ContextCommand) -> (action: Action)
        ensures
            final(self)@ == right_click_menu_step(old(self)@, command).state,
            action@ == right_click_menu_step(old(self)@, command).action,
            final(self)@ == old(self)@,
            action@ == ActionModel::Nothing,
    {
        match command {
            ContextCommand::Undo => Action::Nothing,
            ContextCommand::Cut => Action::Nothing,
            ContextCommand::CopyText => Action::Nothing,
            ContextCommand::Paste => Action::Nothing,
            ContextCommand::Delete => Action::Nothing,
            ContextCommand::SelectAll => Action::Nothing,
        }
    }

    /// The text widget has drawn a frame. While a dialog is up, or in the
    /// settings view, whatever it hands back is dropped.
    pub fn main_panel(&mut self, output: EditorOutput) -> (action: Action)
        requires
            acceptable(output.caret),
        ensures
            final(self)@ == main_panel_step(old(self)@, output).state,
            action@ == main_panel_step(old(self)@, output).action,
            !old(self)@.input_enabled() ==> final(self)@ == old(self)@,
            final(self)@.consistent(),
    {
        proof {
            use_type_invariant(&*self);
        }
        if !self.input_enabled() {
            return Action::Nothing;
        }
        let EditorOutput { text, caret, context } = output;
        if let Some(edited) = text {
            self.text.replace(edited);
        }
        self.cursor.update(caret);
        match context {
            Some(command) => self.right_click_menu(command),
            None => Action::Nothing,
        }
    }

    /// An entry of the Edit menu was clicked. No entry does anything yet.
    pub fn edit_menu(&mut self, command: EditCommand) -> (action: Action)
        ensures
            final(self)@ == edit_menu_step(old(self)@, command).state,
            action@ == edit_menu_step(old(self)@, command).action,
            final(self)@ == old(self)@,
            action@ == ActionModel::Nothing,
    {
        match command {
            EditCommand::Undo => Action::Nothing,
            EditCommand::Cut => Action::Nothing,
            EditCommand::CopyText => Action::Nothing,
            EditCommand::Paste => Action::Nothing,
            EditCommand::Delete => Action::Nothing,
            EditCommand::Find => Action::Nothing,
            EditCommand::FindNext => Action::Nothing,
            EditCommand::FindPrevious => Action::Nothing,
            EditCommand::Replace => Action::Nothing,
            EditCommand::GoTo => Action::Nothing,
            EditCommand::SelectAll => Action::Nothing,
            EditCommand::TimeDate => Action::Nothing,
            EditCommand::Font => Action::Nothing,
        }
    }

    /// The frame's zoom shortcuts and gesture. They work in every view and
    /// under every dialog.
    pub fn handle_zoom_inputs(&mut self, input: ZoomInput)
        ensures
            final(self)@ == zoom_input_step(old(self)@, input).state,
            final(self)@.consistent(),
    {
        proof {
            use_type_invariant(&*self);
        }
        self.zoom.handle_input(input);
    }

    /// An entry of the Zoom submenu was clicked. While a dialog is up, or in
    /// the settings view, the click is dropped.
    pub fn zoom_menu(&mut self, command: ZoomCommand) -> (action: Action)
        ensures
            final(self)@ == zoom_menu_step(old(self)@, command).state,
            action@ == ActionModel::Nothing,
            final(self)@.consistent(),
    {
        proof {
            use_type_invariant(&*self);
        }
        if !self.input_enabled() {
            return Action::Nothing;
        }
        match command {
            ZoomCommand::ZoomIn => self.zoom.zoom_in(),
            ZoomCommand::ZoomOut => self.zoom.zoom_out(),
            ZoomCommand::Restore => self.zoom.zoom_reset(),
        }
        Action::Nothing
    }

    /// An entry of the View menu was clicked. While a dialog is up, or in
    /// the settings view, the click is dropped.
    pub fn view_menu(&mut self, command: ViewCommand) -> (action: Action)
        ensures
            final(self)@ == view_menu_step(old(self)@, command).state,
            action@ == ActionModel::Nothing,
            final(self)@.consistent(),
    {
        proof {
            use_type_invariant(&*self);
        }
        if !self.input_enabled() {
            return Action::Nothing;
        }
        match command {
            ViewCommand::Zoom(zoom) => self.zoom_menu(zoom),
            ViewCommand::ToggleStatusBar => {
                self.show_status_bar = !self.show_status_bar;
                Action::Nothing
            },
            ViewCommand::ToggleWordWrap => Action::Nothing,
        }
    }

    /// Something was clicked in the menu bar. While a dialog is up, or in
    /// the settings view, the click is dropped.
    pub fn menu_bar(&mut self, command: MenuCommand) -> (action: Action)
        ensures
            final(self)@ == menu_bar_step(old(self)@, command).state,
            action@ == menu_bar_step(old(self)@, command).action,
            !old(self)@.input_enabled() ==> final(self)@ == old(self)@ && action@
                == ActionModel::Nothing,
            final(self)@.consistent(),
    {
        proof {
            use_type_invariant(&*self);
        }
        if !self.input_enabled() {
            return Action::Nothing;
        }
        match command {
            MenuCommand::File(file) => self.file_menu(file),
            MenuCommand::Edit(edit) => self.edit_menu(edit),
            MenuCommand::View(view) => self.view_menu(view),
            MenuCommand::Settings => {
                self.view = ViewState::Settings;
                Action::Nothing
            },
        }
    }

    /// Something was clicked in the settings panel. In the editing view the
    /// panel is not there and the click is dropped.
    pub fn settings_panel(&mut self, command: SettingsCommand) -> (action: Action)
        ensures
            final(self)@ == settings_panel_step(old(self)@, command).state,
            action@ == settings_panel_step(old(self)@, command).action,
            final(self)@.consistent(),
    {
        proof {
            use_type_invariant(&*self);
        }
        if self.view == ViewState::Settings {
            match command {
                SettingsCommand::Back => {
                    self.view = ViewState::Editing;
                },
            }
        }
        Action::Nothing
    }

    /// Hands one event to the region it belongs to and returns what the host
    /// is asked to do. The host sends a frame's events in this order: zoom
    /// input, the Open dialog, the Save dialog, then the settings panel or
    /// else the menu bar and the text; it carries out each request before
    /// the next event and hands back how a read, a write or a spawn ended.
    pub fn update(&mut self, event: Event) -> (action: Action)
        requires
            event_acceptable(event),
        ensures
            final(self)@ == update_step(old(self)@, event).state,
            action@ == update_step(old(self)@, event).action,
            final(self)@.consistent(),
    {
        match event {
            Event::Zoom(input) => {
                self.handle_zoom_inputs(input);
                Action::Nothing
            },
            Event::OpenDialog(report) => self.open_dialog(report),
            Event::OpenFinished(outcome) => self.open_finished(outcome),
            Event::SaveDialog(report) => self.save_dialog(report),
            Event::SaveFinished(outcome) => self.save_finished(outcome),
            Event::SpawnFinished(outcome) => self.spawn_finished(outcome),
            Event::Settings(command) => self.settings_panel(command),
            Event::Menu(command) => self.menu_bar(command),
            Event::Editor(output) => self.main_panel(output),
        }
    }

    /// The document's text.
    pub fn text(&self) -> (text: &str)
        ensures
            text@ == self@.text,
    {
        self.text.get()
    }

    /// The zoom percentage.
    pub fn zoom(&self) -> (percent: usize)
        ensures
            percent == self@.zoom,
            on_ladder(self@.zoom),
    {
        self.zoom.percent()
    }

    /// Base size of the editor's font, in points.
    pub fn font_size(&self) -> (points: u32)
        ensures
            points == self@.font_size,
    {
        self.font_size
    }

    /// The size at which the editor's text is drawn: the base size scaled by
    /// the zoom, computed anew on every call.
    pub fn effective_font_size(&self) -> (size: FontSize)
        ensures
            size == scaled_size(self@.font_size, self@.zoom),
            size.normal(),
            size.in_hundredths() == self@.font_size * self@.zoom,
    {
        self.zoom.effective_font_size(self.font_size)
    }

    /// The caret position on display.
    pub fn cursor(&self) -> (position: CursorPosition)
        ensures
            position == self@.cursor,
            position.line >= 1,
            position.column >= 1,
    {
        self.cursor.position()
    }

    /// Whether the user wants the status bar.
    pub fn show_status_bar(&self) -> (shown: bool)
        ensures
            shown == self@.show_status_bar,
    {
        self.show_status_bar
    }

    /// The view on screen.
    pub fn view_state(&self) -> (view: ViewState)
        ensures
            view == self@.view,
    {
        self.view
    }

    /// The dialog that asks which file to open.
    pub fn open_dialog_state(&self) -> (dialog: &DialogState)
        ensures
            dialog@ == self@.open_dialog,
    {
        &self.open_dialog_state
    }

    /// The dialog that asks where to save.
    pub fn save_dialog_state(&self) -> (dialog: &DialogState)
        ensures
            dialog@ == self@.save_dialog,
    {
        &self.save_dialog_state
    }

    /// What the next frame shows, and which of it takes input.
    pub fn regions(&self) -> (regions: Regions)
        ensures
            regions == regions_of(self@),
            self@.consistent(),
    {
        proof {
            use_type_invariant(self);
        }
        let body = if self.view == ViewState::Settings {
            RegionState::Hidden
        } else if self.any_dialog_shown() {
            RegionState::Disabled
        } else {
            RegionState::Enabled
        };
        Regions {
            open_dialog: self.open_dialog_state.is_visible(),
            save_dialog: self.save_dialog_state.is_visible(),
            settings_panel: self.view == ViewState::Settings,
            menu_bar: body,
            status_bar: self.view == ViewState::Editing && self.show_status_bar,
            main_panel: body,
        }
    }

    /// The labels of the status bar.
    pub fn status_bar(&self) -> (bar: StatusBar)
        ensures
            bar.position@ == position_label(self@.cursor),
            bar.zoom@ == zoom_label(self@.zoom as nat),
            bar.line_ending@ == line_ending_label(),
            bar.encoding@ == encoding_label(),
    {
        status_labels(self.cursor.position(), self.zoom.percent())
    }
}

impl Default for RustpadApp {
    /// The editor at start-up, as [`RustpadApp::new`] gives it.
    fn default() -> (app: Self)
        ensures
            app@ == AppModel::initial(),
            app@.consistent(),
    {
        RustpadApp::new()
    }
}

} // verus!
