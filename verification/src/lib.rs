//! Decision logic of an Outlook spam-filtering add-in.
//!
//! The add-in is a COM server that Outlook loads. This crate holds what it decides and computes:
//! the surrounding program performs the calls into Outlook, the registry, the file system and the
//! widget toolkit, and hands their results in as plain values.

pub mod civil_date;
pub mod com;
pub mod config;
pub mod double;
pub mod gui;
pub mod help_content;
pub mod help_dialog;
pub mod help_dialog_template;
pub mod logger;
pub mod manager_dlg;
pub mod notification;
pub mod registry;
pub mod ribbon;
pub mod splash_window;
pub mod statistics;
pub mod sync_sink;
pub mod text;
pub mod wide;

pub use com::{
    class_object_status, dll_add_ref, dll_can_unload_now, dll_lock_count, dll_release, AppError,
    LockCount, SPAMBAYES_CLSID, SPAMBAYES_CLSID_STR,
};
pub use logger::LogLevel;
