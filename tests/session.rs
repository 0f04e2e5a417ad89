use custom_dialog::desktop::{
    final_result, is_modal, window_spec, CustomDialog, DialogSettings, ParentGuard,
};
use custom_dialog::error::Error;
use custom_dialog::registry::SessionRegistry;
use custom_dialog::session::{sanitize_prefix, DialogSession};
use custom_dialog::{DialogInstanceData, DialogResult};

fn settings() -> DialogSettings {
    DialogSettings {
        title: None,
        has_size: false,
        resizable: None,
        always_on_top: None,
        is_modal: None,
    }
}

#[test]
fn prefix_keeps_only_label_characters() {
    assert_eq!(sanitize_prefix("my dialog!/x:y_z-1"), "mydialog/x:y_z-1");
    assert_eq!(sanitize_prefix(""), "");
    assert_eq!(sanitize_prefix("é ü"), "éü");
    assert_eq!(sanitize_prefix("?? .."), "");
}

#[test]
fn session_identifiers_follow_their_formats() {
    let s = DialogSession::with_id("set tings", "abc".to_string(), Some("main".to_string()), true);
    assert_eq!(s.window_label, "settings-abc");
    assert_eq!(s.event_name, "dialog-result-abc");
    assert_eq!(s.parent_label, Some("main".to_string()));
    assert!(s.is_modal);
}

#[test]
fn fresh_sessions_get_distinct_ids() {
    let a = DialogSession::new("dlg", None, false);
    let b = DialogSession::new("dlg", None, false);
    assert_eq!(a.id.len(), 36);
    assert_ne!(a.id, b.id);
    assert_eq!(a.window_label, format!("dlg-{}", a.id));
    assert_eq!(a.event_name, format!("dialog-result-{}", a.id));
}

#[test]
fn registry_register_lookup_overwrite_remove() {
    let mut reg = SessionRegistry::new();
    let label = "dlg-1".to_string();
    assert_eq!(reg.lookup(&label), None);
    reg.register(label.clone(), DialogInstanceData { event_name: "e1".to_string() });
    reg.register("dlg-2".to_string(), DialogInstanceData { event_name: "e2".to_string() });
    assert_eq!(reg.lookup(&label), Some("e1".to_string()));
    reg.register(label.clone(), DialogInstanceData { event_name: "e3".to_string() });
    assert_eq!(reg.lookup(&label), Some("e3".to_string()));
    reg.remove(&label);
    assert_eq!(reg.lookup(&label), None);
    assert_eq!(reg.lookup(&"dlg-2".to_string()), Some("e2".to_string()));
}

#[test]
fn finish_for_registered_surface_names_its_event() {
    let mut dialogs = CustomDialog::new();
    let s = dialogs.open_session("confirm", Some("main".to_string()), &None);
    assert!(!s.is_modal);
    match dialogs.finish_dialog(&s.window_label) {
        Ok(name) => assert_eq!(name, s.event_name),
        Err(_) => panic!("registered session not found"),
    }
    dialogs.close_session(&s.window_label);
    assert!(matches!(
        dialogs.finish_dialog(&s.window_label),
        Err(Error::SessionNotFound(_))
    ));
}

#[test]
fn finish_for_unknown_surface_fails_and_keeps_sessions() {
    let mut dialogs = CustomDialog::new();
    let s = dialogs.open_session("a", None, &None);
    match dialogs.finish_dialog(&"unknown".to_string()) {
        Err(Error::SessionNotFound(label)) => assert_eq!(label, "unknown"),
        _ => panic!("expected SessionNotFound"),
    }
    match dialogs.finish_dialog(&s.window_label) {
        Ok(name) => assert_eq!(name, s.event_name),
        Err(_) => panic!("active session lost"),
    }
}

#[test]
fn error_messages_name_their_kind() {
    assert_eq!(Error::Tauri("x".to_string()).message(), "Tauri error: x");
    assert_eq!(Error::WindowNotFound("w".to_string()).message(), "Window not found: w");
    assert_eq!(Error::UrlParse("u".to_string()).message(), "Url parse error: u");
    assert_eq!(Error::DialogSetup("d".to_string()).message(), "Dialog setup error: d");
    assert_eq!(Error::SessionNotFound("s".to_string()).message(), "Session not found: s");
}

#[test]
fn window_defaults_apply_to_unset_options() {
    let w = window_spec(&None);
    assert_eq!(w.title, "Dialog");
    assert!(w.default_size && !w.resizable && w.always_on_top);
    let w = window_spec(&Some(settings()));
    assert_eq!(w.title, "Dialog");
    assert!(w.default_size && !w.resizable && w.always_on_top);
}

#[test]
fn window_options_override_defaults() {
    let mut o = settings();
    o.title = Some("Pick".to_string());
    o.has_size = true;
    o.resizable = Some(true);
    o.always_on_top = Some(false);
    let w = window_spec(&Some(o));
    assert_eq!(w.title, "Pick");
    assert!(!w.default_size && w.resizable && !w.always_on_top);
}

#[test]
fn modal_only_when_asked() {
    assert!(!is_modal(&None));
    assert!(!is_modal(&Some(settings())));
    let mut o = settings();
    o.is_modal = Some(true);
    assert!(is_modal(&Some(o)));
}

#[test]
fn modal_parent_is_disabled_and_restored_on_every_path() {
    let g = ParentGuard::acquire(true, Some(true));
    assert!(g.present && g.disabled && g.restore);
    assert!(g.on_abort());
    let t = g.on_resolved();
    assert!(t.close_window && t.enable_parent && t.focus_parent);
}

#[test]
fn parent_left_alone_when_not_modal_or_not_found() {
    let g = ParentGuard::acquire(false, Some(true));
    assert!(!g.disabled && !g.restore && !g.on_abort() && !g.on_resolved().enable_parent);
    let g = ParentGuard::acquire(true, None);
    assert!(!g.present && !g.disabled);
    let t = g.on_resolved();
    assert!(t.close_window && !t.focus_parent);
}

#[test]
fn unresolved_outcome_falls_back_to_closed() {
    assert!(matches!(final_result(None), DialogResult::Closed));
    assert!(matches!(final_result(Some(DialogResult::Cancel)), DialogResult::Cancel));
}

#[test]
fn modal_session_disables_parent_that_was_already_disabled_and_leaves_it_so() {
    let g = ParentGuard::acquire(true, Some(false));
    assert!(g.present && g.disabled && !g.restore);
    assert!(!g.on_abort());
    let t = g.on_resolved();
    assert!(t.close_window && !t.enable_parent && t.focus_parent);
}

#[test]
fn fresh_ids_have_the_hyphenated_form() {
    let s = DialogSession::new("x", None, false);
    for (i, c) in s.id.chars().enumerate() {
        if i == 8 || i == 13 || i == 18 || i == 23 {
            assert_eq!(c, '-');
        } else {
            assert!(c.is_ascii_digit() || ('a'..='f').contains(&c));
        }
    }
}
