//! The in-process server: its locks, its registration and the ribbon's callbacks.

use spambayes_addin::com::{
    query_interface_status, RefCount, CLASS_E_CLASSNOTAVAILABLE, DISP_E_UNKNOWNNAME,
    E_NOINTERFACE, E_POINTER, IID_ICLASS_FACTORY, IID_IUNKNOWN, S_FALSE, S_OK,
};
use spambayes_addin::registry::{
    clsid_key_path, clsid_progid_key_path, get_dll_path, inproc_server32_key_path,
    progid_clsid_key_path, register_server, registration_step, unregister_server, value_bytes,
    RegRoot, RegValue, E_FAIL, OUTLOOK_ADDINS_SUBKEY, PROG_ID,
};
use spambayes_addin::ribbon::{
    answer, extract_first_bstr_param, find_image_path, get_dll_directory, get_ids_of_names,
    image_file, invoke, is_ribbon_argument, variant_bool, RibbonAction, RibbonExtensibility,
    RibbonQuestion, IID_RIBBON_EXTENSIBILITY,
};
use spambayes_addin::{
    class_object_status, dll_add_ref, dll_can_unload_now, dll_lock_count, dll_release, AppError,
    LockCount, SPAMBAYES_CLSID, SPAMBAYES_CLSID_STR,
};

fn wide(text: &str) -> Vec<u16> {
    text.encode_utf16().collect()
}

#[test]
fn releasing_a_lock_undoes_taking_it() {
    let mut locks = LockCount { count: 0 };
    assert_eq!(dll_can_unload_now(&locks), S_OK);
    dll_add_ref(&mut locks);
    dll_add_ref(&mut locks);
    assert_eq!(dll_lock_count(&locks), 2);
    assert_eq!(dll_can_unload_now(&locks), S_FALSE);
    dll_release(&mut locks);
    dll_release(&mut locks);
    assert_eq!(dll_can_unload_now(&locks), S_OK);
}

#[test]
fn lock_counter_wraps() {
    let mut locks = LockCount { count: u32::MAX };
    dll_add_ref(&mut locks);
    assert_eq!(dll_lock_count(&locks), 0);
    dll_release(&mut locks);
    assert_eq!(dll_lock_count(&locks), u32::MAX);
}

#[test]
fn class_objects() {
    let clsid = Some(SPAMBAYES_CLSID);
    let factory = Some(IID_ICLASS_FACTORY);
    assert_eq!(class_object_status(true, clsid, factory), S_OK);
    assert_eq!(class_object_status(true, clsid, Some(IID_IUNKNOWN)), S_OK);
    assert_eq!(class_object_status(false, clsid, factory), E_POINTER);
    assert_eq!(class_object_status(true, None, factory), E_POINTER);
    assert_eq!(class_object_status(true, clsid, None), E_POINTER);
    assert_eq!(class_object_status(true, Some(1), factory), CLASS_E_CLASSNOTAVAILABLE);
    assert_eq!(class_object_status(true, clsid, Some(1)), E_NOINTERFACE);
}

#[test]
fn class_identifier_and_its_text_agree() {
    assert_eq!(
        u128::from_str_radix(&SPAMBAYES_CLSID_STR.replace('-', ""), 16),
        Ok(SPAMBAYES_CLSID)
    );
}

#[test]
fn reference_counts() {
    let mut refs = RefCount::new();
    assert_eq!(refs.add_ref(), 2);
    assert_eq!(refs.release(), 1);
    assert_eq!(refs.release(), 0);
    assert_eq!(query_interface_status(false, Some(7), 7), E_POINTER);
    assert_eq!(query_interface_status(true, None, 7), E_POINTER);
    assert_eq!(query_interface_status(true, Some(7), 7), S_OK);
    assert_eq!(query_interface_status(true, Some(8), 7), E_NOINTERFACE);
}

#[test]
fn errors_as_texts() {
    for (error, text) in [
        (AppError::Classifier("a".to_string()), "a"),
        (AppError::Storage("b".to_string()), "b"),
        (AppError::Config("c".to_string()), "c"),
        (AppError::Mapi("d".to_string()), "d"),
    ] {
        let message = error.message();
        assert!(message.ends_with(text), "{message}");
        assert!(message.len() > text.len(), "{message}");
    }
}

#[test]
fn registry_paths() {
    let braced = format!("{{{SPAMBAYES_CLSID_STR}}}");
    assert_eq!(clsid_key_path(), format!("CLSID\\{braced}"));
    assert_eq!(inproc_server32_key_path(), format!("CLSID\\{braced}\\InprocServer32"));
    assert_eq!(clsid_progid_key_path(), format!("CLSID\\{braced}\\ProgID"));
    assert_eq!(progid_clsid_key_path(), format!("{PROG_ID}\\CLSID"));
}

#[test]
fn registration_without_a_path_fails() {
    assert_eq!(register_server(None).unwrap_err(), E_FAIL);
}

#[test]
fn registration_ends_at_the_first_key_that_cannot_be_created() {
    assert_eq!(registration_step(true, false), None);
    assert_eq!(registration_step(true, true), Some(0));
    assert_eq!(registration_step(false, false), Some(E_FAIL));
    assert_eq!(registration_step(false, true), Some(E_FAIL));
}

#[test]
fn unregistering_removes_what_registering_wrote() {
    let keys = register_server(Some("C:\\x\\spambayes.dll")).unwrap();
    assert_eq!(keys.len(), 6);
    assert_eq!(keys[0].values, [(String::new(), RegValue::Text(PROG_ID.to_string()))]);
    assert_eq!(
        keys[1].values,
        [
            (String::new(), RegValue::Text("C:\\x\\spambayes.dll".to_string())),
            ("ThreadingModel".to_string(), RegValue::Text("Apartment".to_string())),
        ]
    );
    assert_eq!(keys[5].path, OUTLOOK_ADDINS_SUBKEY);
    assert_eq!(keys[5].root, RegRoot::CurrentUser);
    assert_eq!(keys[5].values[2], ("LoadBehavior".to_string(), RegValue::Number(3)));
    assert_eq!(keys[5].values[3], ("CommandLineSafe".to_string(), RegValue::Number(0)));
    let (removed, status) = unregister_server();
    assert_eq!(status, 0);
    for key in &keys {
        assert_eq!(
            removed.iter().filter(|(root, path)| *root == key.root && *path == key.path).count(),
            1
        );
    }
    assert_eq!(removed.len(), keys.len());
    for (i, (_, child)) in removed.iter().enumerate() {
        for (_, parent) in &removed[..i] {
            assert!(!child.starts_with(&format!("{parent}\\")));
        }
    }
}

#[test]
fn registry_values_as_bytes() {
    assert_eq!(value_bytes(&RegValue::Number(0x0102_0304)), [4, 3, 2, 1]);
    assert_eq!(value_bytes(&RegValue::Text("a€".to_string())), [0x61, 0, 0xac, 0x20, 0, 0]);
}

#[test]
fn path_of_the_server() {
    let buffer = wide("C:\\x\\y.dll");
    assert_eq!(get_dll_path(&buffer, 0), None);
    let mut padded = buffer.clone();
    padded.resize(100, 0);
    assert_eq!(get_dll_path(&padded, buffer.len()), Some("C:\\x\\y.dll".to_string()));
    assert_eq!(get_dll_directory(&padded, buffer.len()), Some("C:\\x".to_string()));
    assert_eq!(get_dll_directory(&padded, 0), None);
}

#[test]
fn callbacks_by_name_and_number() {
    for (name, id, action) in [
        ("OnSpamClick", 101, RibbonAction::TrainAsSpam),
        ("OnNotSpamClick", 102, RibbonAction::TrainAsHam),
        ("OnManagerClick", 103, RibbonAction::LaunchManager),
        ("Ribbon_OnLoad", 104, RibbonAction::StoreRibbon),
        ("GetSpamEnabled", 105, RibbonAction::Answer(RibbonQuestion::ButtonsEnabled)),
        ("GetNotSpamEnabled", 106, RibbonAction::Answer(RibbonQuestion::ButtonsEnabled)),
        ("GetNotSpamVisible", 107, RibbonAction::Answer(RibbonQuestion::NotSpamVisible)),
        ("LoadImage", 108, RibbonAction::LoadImage),
        ("GetSpamVisible", 109, RibbonAction::Answer(RibbonQuestion::SpamVisible)),
        ("OnShowCluesClick", 110, RibbonAction::ShowClues),
        ("GetShowCluesEnabled", 111, RibbonAction::Answer(RibbonQuestion::CluesEnabled)),
        ("wireCall", 1, RibbonAction::Nothing),
        ("wireCall2", 1, RibbonAction::Nothing),
        ("GetCustomUI", 2, RibbonAction::Nothing),
    ] {
        assert_eq!(get_ids_of_names(true, 1, Some(&wide(name))), (S_OK, Some(id)));
        assert_eq!(invoke(id), (S_OK, action));
    }
    let unknown = (DISP_E_UNKNOWNNAME, Some(-1));
    assert_eq!(get_ids_of_names(true, 1, Some(&wide("onspamclick"))), unknown);
    assert_eq!(get_ids_of_names(true, 1, Some(&[])), unknown);
    assert_eq!(get_ids_of_names(true, 1, None), (DISP_E_UNKNOWNNAME, None));
    assert_eq!(get_ids_of_names(true, 0, None), (E_POINTER, None));
    assert_eq!(get_ids_of_names(false, 1, Some(&wide("LoadImage"))), (E_POINTER, None));
}

#[test]
fn one_of_the_buttons_is_shown() {
    for in_spam in [false, true] {
        for in_either in [in_spam, true] {
            let spam = answer(RibbonQuestion::SpamVisible, in_either, in_spam, true);
            let ham = answer(RibbonQuestion::NotSpamVisible, in_either, in_spam, true);
            assert!(spam || ham);
        }
    }
    assert!(answer(RibbonQuestion::ButtonsEnabled, false, false, false));
    assert!(!answer(RibbonQuestion::CluesEnabled, false, false, false));
}

#[test]
fn answers_as_variants() {
    assert_eq!(variant_bool(true), [11, 0, 0, 0, 0, 0, 0, 0, 0xff, 0xff]);
    assert_eq!(variant_bool(false), [11, 0, 0, 0, 0, 0, 0, 0, 0, 0]);
}

#[test]
fn arguments_of_callbacks() {
    assert!(is_ribbon_argument(9, false));
    assert!(is_ribbon_argument(13, false));
    assert!(!is_ribbon_argument(9, true));
    assert!(!is_ribbon_argument(8, false));
    let name = wide("spam.bmp");
    assert_eq!(extract_first_bstr_param(8, Some(&name)), Some("spam.bmp".to_string()));
    assert_eq!(extract_first_bstr_param(8, None), None);
    assert_eq!(extract_first_bstr_param(9, Some(&name)), None);
}

#[test]
fn images_of_the_ribbon() {
    assert!(image_file("delete_as_spam").is_some());
    assert_eq!(image_file("something else"), None);
    let places = find_image_path(
        &Some("C:\\app\\bin\\x64".to_string()),
        &Some("C:\\data".to_string()),
        "a.bmp",
    );
    assert_eq!(
        places,
        [
            "C:\\app\\bin\\images\\a.bmp",
            "C:\\app\\images\\a.bmp",
            "C:\\data\\SpamBayes\\images\\a.bmp"
        ]
    );
    assert_eq!(
        find_image_path(&None, &Some("C:\\data\\".to_string()), "a.bmp"),
        ["C:\\data\\SpamBayes\\images\\a.bmp"]
    );
    assert_eq!(
        find_image_path(&None, &Some(String::new()), "a.bmp"),
        ["SpamBayes\\images\\a.bmp"]
    );
    assert_eq!(
        find_image_path(&Some("C:\\app".to_string()), &None, "a.bmp"),
        ["C:\\images\\a.bmp"]
    );
    assert_eq!(find_image_path(&None, &None, "a.bmp"), Vec::<String>::new());
}

#[test]
fn ribbon_object_holds_a_lock_while_it_lives() {
    let mut locks = LockCount { count: 0 };
    let mut ribbon = RibbonExtensibility::new(&mut locks);
    assert_eq!(dll_lock_count(&locks), 1);
    assert_eq!(ribbon.query_interface(true, Some(IID_RIBBON_EXTENSIBILITY)), S_OK);
    assert_eq!(ribbon.refs.count, 2);
    assert_eq!(ribbon.query_interface(true, Some(1)), E_NOINTERFACE);
    assert_eq!(ribbon.release(&mut locks), 1);
    assert_eq!(dll_lock_count(&locks), 1);
    assert_eq!(ribbon.release(&mut locks), 0);
    assert_eq!(dll_lock_count(&locks), 0);
}
