use fractalwonder_ui::palette_editor::{
    delete_button_enabled, delete_button_label, dialog_confirm_label, dialog_message, dialog_title, edit_mode_for,
    editor_step, fallback_palette_name, remove_gradient_stop, DialogKind, EditorCommand, EditorEvent,
};
use fractalwonder_ui::palette_names::EditMode;

#[test]
fn cancel_on_dirty_session_asks_first() {
    let (dialog, cmd) = editor_step(None, EditorEvent::CancelClicked, true, true, false);
    assert_eq!(dialog, Some(DialogKind::Cancel));
    assert_eq!(cmd, EditorCommand::Stay);
    let (dialog, cmd) = editor_step(dialog, EditorEvent::CancelConfirmed, true, true, false);
    assert_eq!(dialog, None);
    assert_eq!(cmd, EditorCommand::Close);
}

#[test]
fn cancel_on_clean_session_closes() {
    let (dialog, cmd) = editor_step(None, EditorEvent::CancelClicked, true, false, false);
    assert_eq!(dialog, None);
    assert_eq!(cmd, EditorCommand::Close);
}

#[test]
fn delete_click_opens_reset_for_shadowed_factory_palette() {
    assert_eq!(editor_step(None, EditorEvent::DeleteClicked, true, false, true).0, Some(DialogKind::Reset));
    assert_eq!(editor_step(None, EditorEvent::DeleteClicked, true, false, false).0, Some(DialogKind::Delete));
    assert_eq!(delete_button_label(EditMode::Edit, true), "Reset");
    assert_eq!(delete_button_label(EditMode::Edit, false), "Delete");
    assert_eq!(delete_button_label(EditMode::Duplicate, true), "Delete");
    assert!(delete_button_enabled(EditMode::Edit));
    assert!(!delete_button_enabled(EditMode::Duplicate));
}

#[test]
fn confirmations_run_their_command_and_clear_dialog() {
    let d = Some(DialogKind::Delete);
    assert_eq!(editor_step(d, EditorEvent::DeleteConfirmed, true, false, false), (None, EditorCommand::DeleteSource));
    let r = Some(DialogKind::Reset);
    assert_eq!(editor_step(r, EditorEvent::ResetConfirmed, true, false, true), (None, EditorCommand::ResetSource));
    assert_eq!(editor_step(r, EditorEvent::DialogDismissed, true, false, true), (None, EditorCommand::Stay));
    assert_eq!(editor_step(None, EditorEvent::DeleteConfirmed, false, false, false), (None, EditorCommand::Close));
}

#[test]
fn apply_and_duplicate_need_an_open_session() {
    assert_eq!(editor_step(None, EditorEvent::ApplyClicked, true, true, false), (None, EditorCommand::SaveAndActivate));
    assert_eq!(editor_step(None, EditorEvent::ApplyClicked, false, false, false), (None, EditorCommand::Stay));
    assert_eq!(editor_step(None, EditorEvent::DuplicateClicked, true, false, false), (None, EditorCommand::DuplicateWorking));
    assert_eq!(editor_step(None, EditorEvent::DuplicateClicked, false, false, false), (None, EditorCommand::Stay));
}

#[test]
fn dialog_texts() {
    assert_eq!(dialog_title(Some(DialogKind::Cancel)), "Unsaved Changes");
    assert_eq!(dialog_title(Some(DialogKind::Delete)), "Delete Palette");
    assert_eq!(dialog_title(Some(DialogKind::Reset)), "Reset Palette");
    assert_eq!(dialog_title(None), "");
    assert_eq!(dialog_confirm_label(Some(DialogKind::Cancel)), "Continue");
    assert_eq!(dialog_confirm_label(Some(DialogKind::Reset)), "Reset");
    assert_eq!(
        dialog_message(Some(DialogKind::Delete), "Fire"),
        "Are you sure you want to delete \"Fire\"?"
    );
    assert_eq!(
        dialog_message(Some(DialogKind::Reset), "Fire"),
        "Are you sure you want to reset \"Fire\" to factory defaults?"
    );
    assert_eq!(
        dialog_message(Some(DialogKind::Cancel), "Fire"),
        "There are unsaved changes that will be lost. Continue?"
    );
    assert_eq!(dialog_message(None, "Fire"), "");
}

#[test]
fn fallback_after_delete() {
    let names = vec!["Classic".to_string(), "Fire".to_string()];
    assert_eq!(fallback_palette_name(&names), "Classic");
    assert_eq!(fallback_palette_name(&[]), "Default");
}

#[test]
fn factory_palette_without_stored_copy_opens_as_duplicate() {
    let factory = vec!["Classic".to_string(), "Fire".to_string()];
    assert_eq!(edit_mode_for(&factory, &"Fire".to_string(), false), EditMode::Duplicate);
    assert_eq!(edit_mode_for(&factory, &"Fire".to_string(), true), EditMode::Edit);
    assert_eq!(edit_mode_for(&factory, &"Mine".to_string(), false), EditMode::Edit);
}

#[test]
fn gradient_keeps_at_least_two_stops() {
    let mut stops = vec!['a', 'b', 'c'];
    let mut mids = vec![0.3f64, 0.7];
    assert!(remove_gradient_stop(&mut stops, &mut mids, 1, 0.5));
    assert_eq!(stops, vec!['a', 'c']);
    assert_eq!(mids, vec![0.3]);
    assert!(!remove_gradient_stop(&mut stops, &mut mids, 0, 0.5));
    assert_eq!(stops, vec!['a', 'c']);
    let mut stops = vec![1, 2, 3, 4];
    let mut mids: Vec<f64> = vec![];
    assert!(!remove_gradient_stop(&mut stops, &mut mids, 4, 0.5));
    assert!(remove_gradient_stop(&mut stops, &mut mids, 0, 0.5));
    assert_eq!(stops, vec![2, 3, 4]);
    assert_eq!(mids, vec![0.5, 0.5]);
}
