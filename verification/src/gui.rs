//! The windows and dialogs: what their widgets show and what the user's actions do to them.
//!
//! A widget's state is held as plain values. The surrounding program builds the widgets from them,
//! hands the toolkit's signals in and carries the results out.

pub mod clues_dialog;
pub mod filter_now_dialog;
pub mod folder_browser;
pub mod gtk_runtime;
pub mod manager_window;
pub mod mapi_folder_provider;
pub mod message_boxes;
pub mod progress_dialog;
pub mod slider;
pub mod tabs;
pub mod wizard_window;
