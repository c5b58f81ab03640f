//! The interaction state of a small plain-text editor: the document buffer,
//! the caret position shown in the status bar, the zoom ladder, and the
//! view and dialog state machine that decides which regions take input.
//!
//! The editor draws nothing and touches no file. Its host draws the frame,
//! hands every click, edit and result to [`RustpadApp::update`] as an
//! [`command::Event`], and carries out the [`command::Action`] that comes
//! back.

pub mod app;
pub mod buffer;
pub mod command;
pub mod cursor;
pub mod dialog;
pub mod model;
pub mod status;
pub mod style;
pub mod zoom;

pub use app::RustpadApp;
pub use dialog::DialogState;
