//! The editor as a state machine over plain values: what each region does to
//! the state when something reaches it, and what it asks of the host.

use vstd::prelude::*;
use crate::command::{
    ActionModel, ContextCommand, DialogEvent, EditCommand, EditorOutput, Event, FileCommand,
    IoError, MenuCommand, SettingsCommand, SpawnError, ViewCommand, ZoomCommand,
};
use crate::cursor::{acceptable, home, located, CursorPosition};
use crate::dialog::DialogModel;
use crate::style::{base_points, StyleRole};
use crate::zoom::{after_input, on_ladder, step_down, step_up, ZoomInput, ZOOM_DEFAULT};

verus! {

/// The two top-level views. Exactly one is on screen.
#[derive(Clone, Copy, Debug, PartialEq, Eq, Structural)]
pub enum ViewState {
    /// Menu bar, status bar and text.
    Editing,
    /// The settings panel, alone.
    Settings,
}

/// The whole state of the editor, as a value.
pub struct AppModel {
    /// The document.
    pub text: Seq<char>,
    /// Base size of the editor's font, in points.
    pub font_size: int,
    /// The zoom percentage.
    pub zoom: int,
    /// The caret position on display.
    pub cursor: CursorPosition,
    /// Whether the user wants the status bar.
    pub show_status_bar: bool,
    /// The view on screen.
    pub view: ViewState,
    /// The dialog that asks which file to open.
    pub open_dialog: DialogModel,
    /// The dialog that asks where to save.
    pub save_dialog: DialogModel,
}

/// The outcome of one event: the state after it and the request to the host.
pub struct Step {
    /// The state after the event.
    pub state: AppModel,
    /// What the host is asked to do.
    pub action: ActionModel,
}

impl AppModel {
    /// The state at start-up.
    pub open spec fn initial() -> AppModel {
        AppModel {
            text: Seq::<char>::empty(),
            font_size: base_points(StyleRole::Monospace),
            zoom: ZOOM_DEFAULT as int,
            cursor: home(),
            show_status_bar: true,
            view: ViewState::Editing,
            open_dialog: DialogModel::initial(),
            save_dialog: DialogModel::initial(),
        }
    }

    /// Whether a dialog is on screen.
    pub open spec fn any_dialog_shown(self) -> bool {
        self.open_dialog.visible || self.save_dialog.visible
    }

    /// Whether the menu bar and the text take input: only in the editing
    /// view, and only while no dialog is on screen.
    pub open spec fn input_enabled(self) -> bool {
        self.view == ViewState::Editing && !self.any_dialog_shown()
    }

    /// What holds of every state the editor can be in: the zoom is on its
    /// ladder, the caret position counts from one, at most one dialog is on
    /// screen, and none is while the settings are.
    pub open spec fn consistent(self) -> bool {
        &&& on_ladder(self.zoom)
        &&& self.cursor.line >= 1
        &&& self.cursor.column >= 1
        &&& !(self.open_dialog.visible && self.save_dialog.visible)
        &&& self.view == ViewState::Settings ==> !self.any_dialog_shown()
    }

    /// This state and no request.
    pub open spec fn quiet(self) -> Step {
        Step { state: self, action: ActionModel::Nothing }
    }

    /// This state and the request `action`.
    pub open spec fn asking(self, action: ActionModel) -> Step {
        Step { state: self, action }
    }
}

/// The line put on the diagnostic channel when a file could not be read.
pub open spec fn open_failure(reason: Seq<char>) -> Seq<char> {
    "Failed to open file: "@ + reason
}

/// The line put on the diagnostic channel when a file could not be written.
pub open spec fn save_failure(reason: Seq<char>) -> Seq<char> {
    "Failed to save file: "@ + reason
}

/// The line put on the diagnostic channel when no new window could be
/// started.
pub open spec fn spawn_failure(reason: Seq<char>) -> Seq<char> {
    "Failed to start new app: "@ + reason
}

/// The zoom shortcuts and the gesture work in every view, dialog or not.
pub open spec fn zoom_input_step(state: AppModel, input: ZoomInput) -> Step {
    AppModel { zoom: after_input(state.zoom, input), ..state }.quiet()
}

/// The File menu. Open and both Save entries show their dialog; a new window
/// and the exit are requests to the host; the other entries do nothing.
/// While the menu bar takes no input, no entry does anything.
pub open spec fn file_menu_step(state: AppModel, command: FileCommand) -> Step {
    if !state.input_enabled() {
        state.quiet()
    } else {
        match command {
            FileCommand::NewWindow => state.asking(ActionModel::SpawnWindow),
            FileCommand::Open => AppModel {
                open_dialog: state.open_dialog.opened(),
                ..state
            }.quiet(),
            FileCommand::Save | FileCommand::SaveAs => AppModel {
                save_dialog: state.save_dialog.opened(),
                ..state
            }.quiet(),
            FileCommand::Exit => state.asking(ActionModel::Exit),
            FileCommand::New | FileCommand::PageSetup | FileCommand::Print => state.quiet(),
        }
    }
}

/// The Edit menu: no entry does anything.
pub open spec fn edit_menu_step(state: AppModel, command: EditCommand) -> Step {
    state.quiet()
}

/// The Zoom submenu. While the menu bar takes no input, no entry does
/// anything.
pub open spec fn zoom_menu_step(state: AppModel, command: ZoomCommand) -> Step {
    if !state.input_enabled() {
        state.quiet()
    } else {
        let zoom = match command {
            ZoomCommand::ZoomIn => step_up(state.zoom),
            ZoomCommand::ZoomOut => step_down(state.zoom),
            ZoomCommand::Restore => ZOOM_DEFAULT as int,
        };
        AppModel { zoom, ..state }.quiet()
    }
}

/// The View menu. While the menu bar takes no input, no entry does anything.
pub open spec fn view_menu_step(state: AppModel, command: ViewCommand) -> Step {
    if !state.input_enabled() {
        state.quiet()
    } else {
        match command {
            ViewCommand::Zoom(zoom) => zoom_menu_step(state, zoom),
            ViewCommand::ToggleStatusBar => AppModel {
                show_status_bar: !state.show_status_bar,
                ..state
            }.quiet(),
            ViewCommand::ToggleWordWrap => state.quiet(),
        }
    }
}

/// The menu bar. While it takes no input, nothing that reaches it has an
/// effect.
pub open spec fn menu_bar_step(state: AppModel, command: MenuCommand) -> Step {
    if !state.input_enabled() {
        state.quiet()
    } else {
        match command {
            MenuCommand::File(file) => file_menu_step(state, file),
            MenuCommand::Edit(edit) => edit_menu_step(state, edit),
            MenuCommand::View(view) => view_menu_step(state, view),
            MenuCommand::Settings => AppModel { view: ViewState::Settings, ..state }.quiet(),
        }
    }
}

/// The editor's context menu: no entry does anything.
pub open spec fn right_click_menu_step(state: AppModel, command: ContextCommand) -> Step {
    state.quiet()
}

/// The text region. While it takes input, an edited text replaces the
/// document and the caret is located anew; while it takes none, nothing that
/// reaches it has an effect.
pub open spec fn main_panel_step(state: AppModel, output: EditorOutput) -> Step {
    if !state.input_enabled() {
        state.quiet()
    } else {
        let edited = AppModel {
            text: match output.text {
                Some(text) => text@,
                None => state.text,
            },
            cursor: located(state.cursor, output.caret),
            ..state
        };
        match output.context {
            Some(command) => right_click_menu_step(edited, command),
            None => edited.quiet(),
        }
    }
}

/// The settings panel, which is there only in the settings view.
pub open spec fn settings_panel_step(state: AppModel, command: SettingsCommand) -> Step {
    if state.view == ViewState::Settings {
        match command {
            SettingsCommand::Back => AppModel { view: ViewState::Editing, ..state }.quiet(),
        }
    } else {
        state.quiet()
    }
}

/// The Open dialog, which is there only while it is shown. Confirming asks
/// the host to read the file at the path typed and leaves the dialog up
/// until the read has ended.
pub open spec fn open_dialog_step(state: AppModel, event: DialogEvent) -> Step {
    if !state.open_dialog.visible {
        state.quiet()
    } else {
        match event {
            DialogEvent::PathEdited(path) => AppModel {
                open_dialog: state.open_dialog.with_path(path@),
                ..state
            }.quiet(),
            DialogEvent::Confirm => state.asking(
                ActionModel::ReadFile { path: state.open_dialog.path_input },
            ),
            DialogEvent::Cancel => AppModel {
                open_dialog: state.open_dialog.dismissed(),
                ..state
            }.quiet(),
        }
    }
}

/// The end of a read. What was read replaces the document and the dialog
/// goes; after a failure nothing changes and the failure is reported.
pub open spec fn open_finished_step(state: AppModel, outcome: Result<String, IoError>) -> Step {
    if !state.open_dialog.visible {
        state.quiet()
    } else {
        match outcome {
            Ok(contents) => AppModel {
                text: contents@,
                open_dialog: state.open_dialog.dismissed(),
                ..state
            }.quiet(),
            Err(error) => state.asking(
                ActionModel::Report { message: open_failure(error.message@) },
            ),
        }
    }
}

/// The Save dialog, which is there only while it is shown. Confirming asks
/// the host to write the document to the path typed and leaves the dialog up
/// until the write has ended.
pub open spec fn save_dialog_step(state: AppModel, event: DialogEvent) -> Step {
    if !state.save_dialog.visible {
        state.quiet()
    } else {
        match event {
            DialogEvent::PathEdited(path) => AppModel {
                save_dialog: state.save_dialog.with_path(path@),
                ..state
            }.quiet(),
            DialogEvent::Confirm => state.asking(
                ActionModel::WriteFile { path: state.save_dialog.path_input, text: state.text },
            ),
            DialogEvent::Cancel => AppModel {
                save_dialog: state.save_dialog.dismissed(),
                ..state
            }.quiet(),
        }
    }
}

/// The end of a write. After a success the dialog goes; after a failure
/// nothing changes and the failure is reported.
pub open spec fn save_finished_step(state: AppModel, outcome: Result<(), IoError>) -> Step {
    if !state.save_dialog.visible {
        state.quiet()
    } else {
        match outcome {
            Ok(_) => AppModel { save_dialog: state.save_dialog.dismissed(), ..state }.quiet(),
            Err(error) => state.asking(
                ActionModel::Report { message: save_failure(error.message@) },
            ),
        }
    }
}

/// The end of an attempt to start a new window. It never touches this
/// window's state; a failure is reported.
pub open spec fn spawn_finished_step(state: AppModel, outcome: Result<(), SpawnError>) -> Step {
    match outcome {
        Ok(_) => state.quiet(),
        Err(error) => state.asking(
            ActionModel::Report { message: spawn_failure(error.message@) },
        ),
    }
}

/// One event, handed to the region it belongs to.
pub open spec fn update_step(state: AppModel, event: Event) -> Step {
    match event {
        Event::Zoom(input) => zoom_input_step(state, input),
        Event::OpenDialog(report) => open_dialog_step(state, report),
        Event::OpenFinished(outcome) => open_finished_step(state, outcome),
        Event::SaveDialog(report) => save_dialog_step(state, report),
        Event::SaveFinished(outcome) => save_finished_step(state, outcome),
        Event::SpawnFinished(outcome) => spawn_finished_step(state, outcome),
        Event::Settings(command) => settings_panel_step(state, command),
        Event::Menu(command) => menu_bar_step(state, command),
        Event::Editor(output) => main_panel_step(state, output),
    }
}

/// An event can be handled when the caret it reports, if any, can be
/// displayed.
pub open spec fn event_acceptable(event: Event) -> bool {
    match event {
        Event::Editor(output) => acceptable(output.caret),
        _ => true,
    }
}

/// How a region of the window stands in a frame.
#[derive(Clone, Copy, Debug, PartialEq, Eq, Structural)]
pub enum RegionState {
    /// Not drawn.
    Hidden,
    /// Drawn, but takes no input.
    Disabled,
    /// Drawn and takes input.
    Enabled,
}

/// What a frame shows, region by region.
#[derive(Clone, Copy, Debug, PartialEq, Eq, Structural)]
pub struct Regions {
    /// The Open dialog is drawn.
    pub open_dialog: bool,
    /// The Save dialog is drawn.
    pub save_dialog: bool,
    /// The settings panel is drawn.
    pub settings_panel: bool,
    /// The menu bar.
    pub menu_bar: RegionState,
    /// The status bar is drawn.
    pub status_bar: bool,
    /// The text.
    pub main_panel: RegionState,
}

/// The regions of a frame follow from the state alone. The settings view
/// hides menu bar, status bar and text; a dialog disables menu bar and text
/// but leaves them on screen.
pub open spec fn regions_of(state: AppModel) -> Regions {
    let body = if state.view == ViewState::Settings {
        RegionState::Hidden
    } else if state.any_dialog_shown() {
        RegionState::Disabled
    } else {
        RegionState::Enabled
    };
    Regions {
        open_dialog: state.open_dialog.visible,
        save_dialog: state.save_dialog.visible,
        settings_panel: state.view == ViewState::Settings,
        menu_bar: body,
        status_bar: state.view == ViewState::Editing && state.show_status_bar,
        main_panel: body,
    }
}

/// The state after a run of events, handled one after the other.
pub open spec fn after_events(state: AppModel, events: Seq<Event>) -> AppModel
    decreases events.len(),
{
    if events.len() == 0 {
        state
    } else {
        update_step(after_events(state, events.drop_last()), events.last()).state
    }
}

/// No event leads out of the consistent states.
pub proof fn lemma_update_keeps_consistent(state: AppModel, event: Event)
    requires
        state.consistent(),
        event_acceptable(event),
    ensures
        update_step(state, event).state.consistent(),
{
}

/// Whatever events arrive, in whatever order, the editor stays consistent:
/// in particular the zoom stays on its ladder, at most one dialog is up, and
/// none is up in the settings view.
pub proof fn lemma_events_keep_consistent(state: AppModel, events: Seq<Event>)
    requires
        state.consistent(),
        forall|i: int| 0 <= i < events.len() ==> event_acceptable(#[trigger] events[i]),
    ensures
        after_events(state, events).consistent(),
        on_ladder(after_events(state, events).zoom),
    decreases events.len(),
{
    if events.len() > 0 {
        let earlier = events.drop_last();
        assert forall|i: int| 0 <= i < earlier.len() implies event_acceptable(
            #[trigger] earlier[i],
        ) by {
            assert(earlier[i] == events[i]);
        }
        lemma_events_keep_consistent(state, earlier);
        lemma_update_keeps_consistent(after_events(state, earlier), events.last());
    }
}

/// The start-up state is consistent, takes input, and shows no dialog.
pub proof fn lemma_initial_is_consistent()
    ensures
        AppModel::initial().consistent(),
        AppModel::initial().input_enabled(),
        regions_of(AppModel::initial()) == (Regions {
            open_dialog: false,
            save_dialog: false,
            settings_panel: false,
            menu_bar: RegionState::Enabled,
            status_bar: true,
            main_panel: RegionState::Enabled,
        }),
{
}

/// Restoring the default zoom gives one hundred percent from every state,
/// by the menu and by the shortcut alike.
pub proof fn lemma_restore_gives_default(state: AppModel, input: ZoomInput)
    requires
        state.input_enabled(),
        input.reset,
        !input.step_in,
        !input.step_out,
    ensures
        menu_bar_step(state, MenuCommand::View(ViewCommand::Zoom(ZoomCommand::Restore))).state.zoom
            == ZOOM_DEFAULT,
        zoom_input_step(state, input).state.zoom == ZOOM_DEFAULT,
{
}

/// Asking for the Save dialog twice in a row is asking for it once: from the
/// editing view exactly one dialog is up afterwards, and the second request
/// changed nothing.
pub proof fn lemma_save_twice_shows_one_dialog(state: AppModel)
    requires
        state.consistent(),
        state.view == ViewState::Editing,
    ensures
        ({
            let save = MenuCommand::File(FileCommand::Save);
            let once = menu_bar_step(state, save).state;
            let twice = menu_bar_step(once, save);
            &&& twice == once.quiet()
            &&& once.open_dialog.visible != once.save_dialog.visible
            &&& state.input_enabled() ==> once.save_dialog.visible
        }),
{
}

/// A read or a write that failed leaves everything as it was: the document,
/// the dialog still up, and the path that was tried still in its field.
pub proof fn lemma_failure_changes_nothing(state: AppModel, error: IoError)
    ensures
        open_finished_step(state, Err(error)).state == state,
        save_finished_step(state, Err(error)).state == state,
        state.open_dialog.visible ==> open_finished_step(state, Err(error)).action
            == (ActionModel::Report { message: open_failure(error.message@) }),
        state.save_dialog.visible ==> save_finished_step(state, Err(error)).action
            == (ActionModel::Report { message: save_failure(error.message@) }),
{
}

/// Saving and then opening what was saved gives the document back: if the
/// read hands back the text that the Save dialog asked to be written, the
/// document after the read is the document at the time of the save.
pub proof fn lemma_save_then_open_round_trips(
    saved: AppModel,
    reopened: AppModel,
    contents: String,
)
    requires
        saved.save_dialog.visible,
        reopened.open_dialog.visible,
        save_dialog_step(saved, DialogEvent::Confirm).action == (ActionModel::WriteFile {
            path: reopened.open_dialog.path_input,
            text: contents@,
        }),
    ensures
        open_dialog_step(reopened, DialogEvent::Confirm).action == (ActionModel::ReadFile {
            path: saved.save_dialog.path_input,
        }),
        open_finished_step(reopened, Ok(contents)).state.text == saved.text,
        !open_finished_step(reopened, Ok(contents)).state.open_dialog.visible,
        !save_finished_step(saved, Ok(())).state.save_dialog.visible,
        save_finished_step(saved, Ok(())).state.text == saved.text,
{
}

/// While a dialog is up, nothing that reaches the menu bar or the text has
/// any effect.
pub proof fn lemma_dialog_blocks_menu_and_text(
    state: AppModel,
    command: MenuCommand,
    output: EditorOutput,
)
    requires
        state.any_dialog_shown(),
    ensures
        menu_bar_step(state, command) == state.quiet(),
        main_panel_step(state, output) == state.quiet(),
        forall|file: FileCommand| file_menu_step(state, file) == state.quiet(),
        forall|edit: EditCommand| edit_menu_step(state, edit) == state.quiet(),
        forall|view: ViewCommand| view_menu_step(state, view) == state.quiet(),
        forall|zoom: ZoomCommand| zoom_menu_step(state, zoom) == state.quiet(),
        forall|context: ContextCommand| right_click_menu_step(state, context) == state.quiet(),
        regions_of(state).menu_bar != RegionState::Enabled,
        regions_of(state).main_panel != RegionState::Enabled,
{
}

/// A frame in which the text widget reports no caret leaves the displayed
/// position where it was.
pub proof fn lemma_caret_stays_without_report(state: AppModel, output: EditorOutput)
    requires
        output.caret is None,
    ensures
        main_panel_step(state, output).state.cursor == state.cursor,
{
}

} // verus!
