//! The help dialog: its texts, its template and its state.

use spambayes_addin::help_content::sections;
use spambayes_addin::help_content::tooltips::{manager_tooltips, wizard_tooltips};
use spambayes_addin::help_dialog::{
    help_dlg_proc, help_section_for_control, update_help_content, HelpDialogState, HelpDlgAction,
    HelpRequest,
};
use spambayes_addin::help_dialog_template::{
    align_dword, create_help_dialog_template, push_u16, push_u32, push_wide_string, DS_MODALFRAME,
    DS_SETFONT, IDC_HELP_CLOSE, IDC_HELP_DESCRIPTION, IDC_HELP_TIPS, IDC_HELP_TITLE, IDD_HELP,
    WS_CAPTION, WS_POPUP, WS_SYSMENU,
};

#[test]
fn help_section_mapping_filter_settings() {
    for id in 3010..=3015 {
        let entry = help_section_for_control(id);
        assert!(entry.is_some(), "Control ID {id} should have a help mapping");
        assert_eq!(entry.unwrap().title, sections::filter_settings().title);
    }
}

#[test]
fn help_section_mapping_folder_config() {
    for id in 3020..=3024 {
        let entry = help_section_for_control(id);
        assert!(entry.is_some(), "Control ID {id} should have a help mapping");
        assert_eq!(entry.unwrap().title, sections::folder_config().title);
    }
    for id in 3030..=3034 {
        let entry = help_section_for_control(id);
        assert!(entry.is_some(), "Control ID {id} should have a help mapping");
        assert_eq!(entry.unwrap().title, sections::folder_config().title);
    }
}

#[test]
fn help_section_mapping_train_now() {
    let entry = help_section_for_control(3040);
    assert!(entry.is_some(), "Control ID 3040 should have a help mapping");
    assert_eq!(entry.unwrap().title, sections::training().title);
}

#[test]
fn help_section_mapping_filter_now() {
    let entry = help_section_for_control(3041);
    assert!(entry.is_some(), "Control ID 3041 should have a help mapping");
    assert_eq!(entry.unwrap().title, sections::filter_settings().title);
}

#[test]
fn help_section_mapping_cleanup() {
    for id in 3050..=3051 {
        let entry = help_section_for_control(id);
        assert!(entry.is_some(), "Control ID {id} should have a help mapping");
        assert_eq!(entry.unwrap().title, sections::cleanup().title);
    }
}

#[test]
fn help_section_mapping_notification() {
    for id in 3060..=3061 {
        let entry = help_section_for_control(id);
        assert!(entry.is_some(), "Control ID {id} should have a help mapping");
        assert_eq!(entry.unwrap().title, sections::notification().title);
    }
}

#[test]
fn help_section_mapping_statistics_returns_none() {
    for id in 3001..=3009 {
        assert!(
            help_section_for_control(id).is_none(),
            "Statistics control {id} should return None"
        );
    }
}

#[test]
fn help_section_mapping_unknown_returns_none() {
    assert!(help_section_for_control(0).is_none());
    assert!(help_section_for_control(1000).is_none());
    assert!(help_section_for_control(9999).is_none());
    assert!(help_section_for_control(u16::MAX).is_none());
}

#[test]
fn help_section_mapping_ok_cancel_returns_none() {
    assert!(help_section_for_control(3042).is_none());
    assert!(help_section_for_control(3043).is_none());
    assert!(help_section_for_control(3044).is_none());
}

#[test]
fn tooltips_name_their_controls() {
    let wizard = wizard_tooltips();
    assert_eq!(wizard.len(), 4);
    assert_eq!(wizard[0].control_id, 2001);
    let manager = manager_tooltips();
    assert_eq!(manager[0].control_id, 3010);
    for tip in wizard.iter().chain(manager.iter()) {
        assert!(!tip.text.is_empty());
    }
}

#[test]
fn sections_have_texts() {
    for entry in [
        sections::wizard_welcome(),
        sections::wizard_watch_folders(),
        sections::wizard_spam_folder(),
        sections::wizard_unsure_folder(),
        sections::wizard_training_folders(),
        sections::wizard_finish(),
    ] {
        assert!(!entry.title.is_empty());
        assert!(!entry.description.is_empty());
        assert!(entry.tips.is_some());
    }
}

#[test]
fn template_is_dword_aligned() {
    let template = create_help_dialog_template();
    assert!(!template.is_empty());
    assert!(template.len() > 50, "Template too small: {} bytes", template.len());
}

#[test]
fn template_header_has_correct_item_count() {
    let template = create_help_dialog_template();
    let cdit = u16::from_le_bytes([template[8], template[9]]);
    assert_eq!(cdit, 4, "Expected 4 dialog items (title, description, tips, close)");
}

#[test]
fn template_header_has_correct_dimensions() {
    let template = create_help_dialog_template();
    let cx = u16::from_le_bytes([template[14], template[15]]);
    let cy = u16::from_le_bytes([template[16], template[17]]);
    assert_eq!(cx, 350, "Dialog width should be 350 DLU");
    assert_eq!(cy, 300, "Dialog height should be 300 DLU");
}

#[test]
fn dialog_style_has_required_flags() {
    let template = create_help_dialog_template();
    let style = u32::from_le_bytes([template[0], template[1], template[2], template[3]]);
    assert_ne!(style & DS_MODALFRAME, 0, "Missing DS_MODALFRAME");
    assert_ne!(style & WS_POPUP, 0, "Missing WS_POPUP");
    assert_ne!(style & WS_CAPTION, 0, "Missing WS_CAPTION");
    assert_ne!(style & WS_SYSMENU, 0, "Missing WS_SYSMENU");
    assert_ne!(style & DS_SETFONT, 0, "Missing DS_SETFONT");
}

#[test]
fn control_ids_are_in_expected_range() {
    assert_eq!(IDD_HELP, 4000);
    assert_eq!(IDC_HELP_TITLE, 4001);
    assert_eq!(IDC_HELP_DESCRIPTION, 4002);
    assert_eq!(IDC_HELP_TIPS, 4003);
    assert_eq!(IDC_HELP_CLOSE, 4004);
}

#[test]
fn template_items_stand_at_aligned_places() {
    let template = create_help_dialog_template();
    for (at, id) in [(80, 4001u16), (108, 4002), (136, 4003), (164, 4004)] {
        assert_eq!(at % 4, 0);
        assert_eq!(u16::from_le_bytes([template[at + 16], template[at + 17]]), id);
    }
}

#[test]
fn template_building_blocks() {
    let mut buf = Vec::new();
    push_u16(&mut buf, 0x1234);
    push_u32(&mut buf, 0x5678_9abc);
    assert_eq!(buf, [0x34, 0x12, 0xbc, 0x9a, 0x78, 0x56]);
    align_dword(&mut buf);
    assert_eq!(buf.len(), 8);
    align_dword(&mut buf);
    assert_eq!(buf.len(), 8);
    let mut text = Vec::new();
    push_wide_string(&mut text, "a€😀");
    assert_eq!(text, [0x61, 0, 0xac, 0x20, 0x3d, 0xd8, 0x00, 0xde, 0, 0]);
}

#[test]
fn one_help_dialog_at_a_time() {
    let mut state = HelpDialogState::default();
    assert_eq!(state.show_help(false), HelpRequest::Create);
    state.opened(7, 9);
    assert_eq!(state.show_help(true), HelpRequest::Update(7));
    assert_eq!(state.show_help(false), HelpRequest::Create);
    assert_eq!(state.destroyed(), Some(9));
    assert_eq!(state.destroyed(), None);
    assert_eq!(state.show_help(true), HelpRequest::Create);
}

#[test]
fn a_help_dialog_that_could_not_be_created_is_not_remembered() {
    let mut state = HelpDialogState::default();
    state.opened(0, 9);
    assert_eq!(state.show_help(true), HelpRequest::Create);
}

#[test]
fn messages_to_the_help_dialog() {
    assert_eq!(help_dlg_proc(0x0110, 0), HelpDlgAction::AcceptFocus);
    assert_eq!(help_dlg_proc(0x0111, 4004), HelpDlgAction::Destroy);
    assert_eq!(help_dlg_proc(0x0111, 2), HelpDlgAction::Destroy);
    assert_eq!(help_dlg_proc(0x0111, 4003), HelpDlgAction::Ignore);
    assert_eq!(help_dlg_proc(0x0010, 0), HelpDlgAction::Destroy);
}

#[test]
fn help_texts_go_to_their_controls() {
    let mut entry = sections::training();
    entry.tips = None;
    let texts = update_help_content(&entry);
    assert_eq!(texts[0], (IDC_HELP_TITLE, entry.title));
    assert_eq!(texts[1], (IDC_HELP_DESCRIPTION, entry.description));
    assert_eq!(texts[2], (IDC_HELP_TIPS, ""));
}
