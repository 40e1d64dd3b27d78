//! Decisions of the palette editor panel: which confirmation dialog opens,
//! what each button and confirmation does, and the texts shown. The view
//! layer holds the palettes and performs the storage operations that the
//! returned command names.

use vstd::prelude::*;
use crate::palette_names::{EditMode, name_views};

verus! {

/// The confirmation dialog the editor can show.
#[derive(Clone, Copy, Debug, PartialEq, Eq, Structural)]
pub enum DialogKind {
    /// Discard unsaved changes.
    Cancel,
    /// Delete a custom palette.
    Delete,
    /// Drop the edited copy of a factory palette.
    Reset,
}

/// A user action in the editor.
#[derive(Clone, Copy, Debug, PartialEq, Eq, Structural)]
pub enum EditorEvent {
    ApplyClicked,
    CancelClicked,
    CancelConfirmed,
    DuplicateClicked,
    DeleteClicked,
    DeleteConfirmed,
    ResetConfirmed,
    DialogDismissed,
}

/// What the view layer does after an event.
#[derive(Clone, Copy, Debug, PartialEq, Eq, Structural)]
pub enum EditorCommand {
    /// Nothing.
    Stay,
    /// Close the editor, keeping the active palette.
    Close,
    /// Save the working palette, make it the active palette, close.
    SaveAndActivate,
    /// Continue the session in duplicate mode under a fresh unique name.
    DuplicateWorking,
    /// Delete the source palette from storage, activate the fallback
    /// palette, close.
    DeleteSource,
    /// Delete the stored copy of the source palette, activate its factory
    /// version, close.
    ResetSource,
}

/// The dialog and command after `event`, for an editor that is `open` (a
/// session exists), whose session is `dirty`, and whose source palette
/// `shadows_factory`, with `dialog` showing before the event.
pub open spec fn editor_transition(
    dialog: Option<DialogKind>,
    event: EditorEvent,
    open: bool,
    dirty: bool,
    shadows_factory: bool,
) -> (Option<DialogKind>, EditorCommand) {
    match event {
        EditorEvent::ApplyClicked => (dialog, if open { EditorCommand::SaveAndActivate } else { EditorCommand::Stay }),
        EditorEvent::CancelClicked => if dirty {
            (Some(DialogKind::Cancel), EditorCommand::Stay)
        } else {
            (dialog, EditorCommand::Close)
        },
        EditorEvent::CancelConfirmed => (None, EditorCommand::Close),
        EditorEvent::DuplicateClicked => (dialog, if open { EditorCommand::DuplicateWorking } else { EditorCommand::Stay }),
        EditorEvent::DeleteClicked => (
            Some(if shadows_factory { DialogKind::Reset } else { DialogKind::Delete }),
            EditorCommand::Stay,
        ),
        EditorEvent::DeleteConfirmed => (None, if open { EditorCommand::DeleteSource } else { EditorCommand::Close }),
        EditorEvent::ResetConfirmed => (None, if open { EditorCommand::ResetSource } else { EditorCommand::Close }),
        EditorEvent::DialogDismissed => (None, EditorCommand::Stay),
    }
}

/// Handle one editor event (see `editor_transition`).
pub fn editor_step(
    dialog: Option<DialogKind>,
    event: EditorEvent,
    open: bool,
    dirty: bool,
    shadows_factory: bool,
) -> (r: (Option<DialogKind>, EditorCommand))
    ensures
        r == editor_transition(dialog, event, open, dirty, shadows_factory),
{
    match event {
        EditorEvent::ApplyClicked => (dialog, if open { EditorCommand::SaveAndActivate } else { EditorCommand::Stay }),
        EditorEvent::CancelClicked => if dirty {
            (Some(DialogKind::Cancel), EditorCommand::Stay)
        } else {
            (dialog, EditorCommand::Close)
        },
        EditorEvent::CancelConfirmed => (None, EditorCommand::Close),
        EditorEvent::DuplicateClicked => (dialog, if open { EditorCommand::DuplicateWorking } else { EditorCommand::Stay }),
        EditorEvent::DeleteClicked => {
            let kind = if shadows_factory { DialogKind::Reset } else { DialogKind::Delete };
            (Some(kind), EditorCommand::Stay)
        },
        EditorEvent::DeleteConfirmed => (None, if open { EditorCommand::DeleteSource } else { EditorCommand::Close }),
        EditorEvent::ResetConfirmed => (None, if open { EditorCommand::ResetSource } else { EditorCommand::Close }),
        EditorEvent::DialogDismissed => (None, EditorCommand::Stay),
    }
}

/// Whether a command ends the editing session.
pub open spec fn closes_editor(c: EditorCommand) -> bool {
    c != EditorCommand::Stay && c != EditorCommand::DuplicateWorking
}

/// Unsaved changes are never dropped without a confirmation: a dirty
/// session ends only on Apply (which saves them) or on a confirmed dialog;
/// cancelling it asks first. Every confirmation and every dismissal clears
/// the dialog.
pub proof fn lemma_no_silent_discard(
    dialog: Option<DialogKind>,
    event: EditorEvent,
    open: bool,
    shadows_factory: bool,
)
    ensures
        closes_editor(editor_transition(dialog, event, open, true, shadows_factory).1) ==> (
            event == EditorEvent::ApplyClicked || event == EditorEvent::CancelConfirmed
            || event == EditorEvent::DeleteConfirmed || event == EditorEvent::ResetConfirmed),
        editor_transition(dialog, EditorEvent::CancelClicked, open, true, shadows_factory).0 == Some(DialogKind::Cancel),
        (event == EditorEvent::CancelConfirmed || event == EditorEvent::DeleteConfirmed
            || event == EditorEvent::ResetConfirmed || event == EditorEvent::DialogDismissed)
            ==> editor_transition(dialog, event, open, true, shadows_factory).0 is None,
{
}

/// A delete click asks for the confirmation that matches the palette: Reset
/// for a palette that shadows a factory one, Delete for any other; never
/// the unsaved-changes dialog, and the same whether or not the session is
/// open or dirty and whatever dialog showed before. Nothing is done until
/// it is confirmed.
pub proof fn lemma_delete_click_asks_matching_confirmation(
    dialog: Option<DialogKind>,
    other_dialog: Option<DialogKind>,
    open: bool,
    other_open: bool,
    dirty: bool,
    other_dirty: bool,
    shadows_factory: bool,
)
    ensures
        editor_transition(dialog, EditorEvent::DeleteClicked, open, dirty, shadows_factory)
            == (if shadows_factory { Some(DialogKind::Reset) } else { Some(DialogKind::Delete) }, EditorCommand::Stay),
        editor_transition(dialog, EditorEvent::DeleteClicked, open, dirty, shadows_factory)
            == editor_transition(other_dialog, EditorEvent::DeleteClicked, other_open, other_dirty, shadows_factory),
        editor_transition(dialog, EditorEvent::DeleteClicked, open, dirty, shadows_factory).0 != Some(DialogKind::Cancel),
{
}

/// The delete button says "Reset" when editing a palette that shadows a
/// factory palette.
pub open spec fn delete_says_reset(mode: EditMode, shadows_factory: bool) -> bool {
    mode == EditMode::Edit && shadows_factory
}

/// Label of the delete button.
pub fn delete_button_label(mode: EditMode, shadows_factory: bool) -> (r: &'static str)
    ensures
        r@ == (if delete_says_reset(mode, shadows_factory) { "Reset"@ } else { "Delete"@ }),
{
    if mode == EditMode::Edit && shadows_factory {
        "Reset"
    } else {
        "Delete"
    }
}

/// The delete button is enabled only when editing an existing palette.
pub fn delete_button_enabled(mode: EditMode) -> (r: bool)
    ensures
        r == (mode == EditMode::Edit),
{
    mode == EditMode::Edit
}

/// What the delete button says is what its click asks to confirm: in Edit
/// mode (the only mode in which it is enabled), it says "Reset" exactly
/// when the click opens the Reset dialog.
pub proof fn lemma_delete_label_matches_dialog(
    dialog: Option<DialogKind>,
    open: bool,
    dirty: bool,
    shadows_factory: bool,
)
    ensures
        delete_says_reset(EditMode::Edit, shadows_factory)
            <==> editor_transition(dialog, EditorEvent::DeleteClicked, open, dirty, shadows_factory).0
            == Some(DialogKind::Reset),
        !delete_says_reset(EditMode::Duplicate, shadows_factory),
{
}

/// Title of a dialog (empty when none shows).
pub fn dialog_title(kind: Option<DialogKind>) -> (r: &'static str)
    ensures
        r@ == match kind {
            Some(DialogKind::Cancel) => "Unsaved Changes"@,
            Some(DialogKind::Delete) => "Delete Palette"@,
            Some(DialogKind::Reset) => "Reset Palette"@,
            None => ""@,
        },
{
    match kind {
        Some(DialogKind::Cancel) => "Unsaved Changes",
        Some(DialogKind::Delete) => "Delete Palette",
        Some(DialogKind::Reset) => "Reset Palette",
        None => "",
    }
}

/// Label of a dialog's confirm button (empty when none shows).
pub fn dialog_confirm_label(kind: Option<DialogKind>) -> (r: &'static str)
    ensures
        r@ == match kind {
            Some(DialogKind::Cancel) => "Continue"@,
            Some(DialogKind::Delete) => "Delete"@,
            Some(DialogKind::Reset) => "Reset"@,
            None => ""@,
        },
{
    match kind {
        Some(DialogKind::Cancel) => "Continue",
        Some(DialogKind::Delete) => "Delete",
        Some(DialogKind::Reset) => "Reset",
        None => "",
    }
}

/// The question a dialog asks about the palette named `palette_name`.
pub open spec fn dialog_text(kind: Option<DialogKind>, palette_name: Seq<char>) -> Seq<char> {
    match kind {
        Some(DialogKind::Cancel) => "There are unsaved changes that will be lost. Continue?"@,
        Some(DialogKind::Delete) => "Are you sure you want to delete \""@ + palette_name + "\"?"@,
        Some(DialogKind::Reset) => "Are you sure you want to reset \""@ + palette_name + "\" to factory defaults?"@,
        None => Seq::empty(),
    }
}

/// Message of a dialog about the palette named `palette_name`.
pub fn dialog_message(kind: Option<DialogKind>, palette_name: &str) -> (r: String)
    ensures
        r@ == dialog_text(kind, palette_name@),
{
    match kind {
        Some(DialogKind::Cancel) => String::from_str("There are unsaved changes that will be lost. Continue?"),
        Some(DialogKind::Delete) => {
            let mut s = String::from_str("Are you sure you want to delete \"");
            s.append(palette_name);
            s.append("\"?");
            s
        },
        Some(DialogKind::Reset) => {
            let mut s = String::from_str("Are you sure you want to reset \"");
            s.append(palette_name);
            s.append("\" to factory defaults?");
            s
        },
        None => String::new(),
    }
}

/// The palette activated after deleting one: the first factory palette,
/// or "Default" when there is none.
pub fn fallback_palette_name(factory_names: &[String]) -> (r: String)
    ensures
        factory_names@.len() > 0 ==> r@ == factory_names@[0]@,
        factory_names@.len() == 0 ==> r@ == "Default"@,
{
    if factory_names.len() > 0 {
        factory_names[0].clone()
    } else {
        String::from_str("Default")
    }
}

/// Mode of a session opened on the palette named `name`: a factory palette
/// without a stored edited copy opens as a new palette (Duplicate mode,
/// keeping its name so that saving shadows the factory one); any other
/// palette opens in Edit mode.
pub fn edit_mode_for(factory_names: &[String], name: &String, has_stored_copy: bool) -> (r: EditMode)
    ensures
        r == (if name_views(factory_names@).contains(name@) && !has_stored_copy {
            EditMode::Duplicate
        } else {
            EditMode::Edit
        }),
{
    if crate::palette_names::name_in_list(factory_names, name) && !has_stored_copy {
        EditMode::Duplicate
    } else {
        EditMode::Edit
    }
}


/// `s` resized to `len` entries: cut to its first `len`, or extended with
/// `fill`.
pub open spec fn resized<M>(s: Seq<M>, len: nat, fill: M) -> Seq<M> {
    if len <= s.len() { s.take(len as int) } else { s + Seq::new((len - s.len()) as nat, |i: int| fill) }
}

/// Remove color stop `index` of a gradient in the gradient editor. A
/// gradient keeps at least two stops, so with two or fewer nothing is
/// removed; neither is anything for an index past the end. After a removal
/// the midpoints (one between each pair of neighboring stops) are resized
/// to one fewer than the stops, new ones set to `default_midpoint`.
/// Returns whether a stop was removed.
pub fn remove_gradient_stop<S, M: Copy>(stops: &mut Vec<S>, midpoints: &mut Vec<M>, index: usize, default_midpoint: M) -> (removed: bool)
    ensures
        removed == (old(stops)@.len() > 2 && index < old(stops)@.len()),
        removed ==> final(stops)@ == old(stops)@.remove(index as int)
            && final(midpoints)@ == resized(old(midpoints)@, (old(stops)@.len() - 2) as nat, default_midpoint),
        !removed ==> final(stops)@ == old(stops)@ && final(midpoints)@ == old(midpoints)@,
{
    if stops.len() <= 2 || index >= stops.len() {
        return false;
    }
    stops.remove(index);
    let target = stops.len() - 1;
    let ghost old_mid = midpoints@;
    if target <= midpoints.len() {
        midpoints.truncate(target);
    } else {
        let start = midpoints.len();
        while midpoints.len() < target
            invariant
                start == old_mid.len(),
                start <= midpoints@.len() <= target,
                midpoints@.subrange(0, start as int) == old_mid,
                forall|k: int| start <= k < midpoints@.len() ==> midpoints@[k] == default_midpoint,
            decreases target - midpoints@.len(),
        {
            midpoints.push(default_midpoint);
        }
        proof {
            assert(midpoints@ =~= resized(old_mid, target as nat, default_midpoint));
        }
    }
    true
}

} // verus!
