//! The pinned note: one that stays docked beside the list, whatever the mode.
use crate::app::io::EditorTarget;
use crate::app::types::Mode;
use crate::app::{App, AppView};
use vstd::prelude::*;

verus! {

impl AppView {
    /// Pin the note open in the popup and give it the keyboard; or, where a note
    /// is pinned already, hand the keyboard over to it or back.
    pub open spec fn toggle_pin_focus(self) -> Self {
        if self.pinned is Some {
            AppView { pinned_focus: !self.pinned_focus, ..self }
        } else if self.popup.editor is Some {
            AppView {
                pinned: self.popup.editor,
                pinned_focus: true,
                mode: Mode::Normal,
                ..self.with_editor(EditorTarget::Popup, None)
            }
        } else {
            self
        }
    }

    /// The pinned note is closed; where there is none, nothing happens.
    pub open spec fn close_pinned_note(self) -> Self {
        if self.pinned is Some {
            AppView { pinned: None, pinned_focus: false, ..self }
        } else {
            self
        }
    }
}

impl App {
    /// Pin the note open in the popup, which closes, and give it the keyboard.
    /// Where a note is pinned already the keyboard goes to it, or back to the
    /// list. Otherwise there is nothing to pin and nothing happens.
    pub fn toggle_pin_focus(&mut self)
        ensures
            final(self)@ == old(self)@.toggle_pin_focus(),
    {
        if self.pinned_note.is_none() {
            if let Some(editor) = self.notes_popup.active_editor.take() {
                self.pinned_note = Some(editor);
                self.pinned_focus = true;
                self.mode = Mode::Normal;
            }
            return;
        }
        self.pinned_focus = !self.pinned_focus;
    }

    /// Close the pinned note, whether it has the keyboard or not. Unsaved edits
    /// are dropped. Where nothing is pinned nothing happens.
    pub fn close_pinned_note(&mut self)
        ensures
            final(self)@ == old(self)@.close_pinned_note(),
    {
        if self.pinned_note.is_some() {
            self.pinned_note = None;
            self.pinned_focus = false;
        }
    }
}

/// Pinning moves the note as it is, with its buffer and cursor; toggling twice
/// more brings the keyboard back to where it was and never unpins; closing
/// unpins whoever has the keyboard, and does nothing where nothing is pinned.
pub proof fn law_pinning(v: AppView)
    ensures
        v.pinned is None ==> v.toggle_pin_focus().pinned == v.popup.editor,
        v.pinned is Some ==> v.toggle_pin_focus().pinned == v.pinned,
        v.pinned is Some ==> v.toggle_pin_focus().toggle_pin_focus() == v,
        v.close_pinned_note().pinned is None,
        v.pinned is Some ==> !v.close_pinned_note().pinned_focus,
        v.pinned is None ==> v.close_pinned_note() == v,
        v.close_pinned_note().close_pinned_note() == v.close_pinned_note(),
        v.wf() ==> v.toggle_pin_focus().wf() && v.close_pinned_note().wf(),
{
}

} // verus!
