//! Help texts, tooltips and guidance on errors, apart from the dialogs that show them.

use vstd::prelude::*;

pub mod errors;
pub mod sections;
pub mod tooltips;

verus! {

/// A help text.
#[derive(Debug, Clone, Copy)]
pub struct HelpEntry {
    /// What the text is about.
    pub title: &'static str,
    /// The text.
    pub description: &'static str,
    /// Practical hints.
    pub tips: Option<&'static str>,
}

/// The tooltip of a control.
#[derive(Debug, Clone, Copy)]
pub struct TooltipText {
    pub control_id: u16,
    pub text: &'static str,
}

} // verus!
