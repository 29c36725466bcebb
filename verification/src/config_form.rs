//! Keyboard editing of the Config Manager form: which field a key press goes
//! to, and when editing ends.

use vstd::prelude::*;

use crate::editing::{apply_text_key, key_effect};
use crate::entries::{clone_entry, entries_view};
use crate::settings_editor::SettingsEditor;
use crate::text::text_eq;

verus! {

/// Longest text, in UTF-8 bytes, that a form field takes.
pub const CONFIG_FIELD_MAX_BYTES: usize = 256;

/// The field being edited.
#[derive(Debug, Clone, Copy, PartialEq, Eq, Structural)]
pub enum EditTarget {
    Idle,
    Discovery,
    PortStart,
    PortEnd,
    NewKey,
    NewValue,
    ExtraKey(usize),
    ExtraValue(usize),
}

/// The text of the field `target` points at; `None` when nothing is edited
/// or the extra row is gone.
pub open spec fn field_text(e: SettingsEditor, target: EditTarget) -> Option<Seq<char>> {
    match target {
        EditTarget::Idle => None,
        EditTarget::Discovery => Some(e.discovery_server@),
        EditTarget::PortStart => Some(e.port_start@),
        EditTarget::PortEnd => Some(e.port_end@),
        EditTarget::NewKey => Some(e.new_key@),
        EditTarget::NewValue => Some(e.new_value@),
        EditTarget::ExtraKey(i) => if i < e.extras@.len() {
            Some(e.extras@[i as int].0@)
        } else {
            None
        },
        EditTarget::ExtraValue(i) => if i < e.extras@.len() {
            Some(e.extras@[i as int].1@)
        } else {
            None
        },
    }
}

/// Enter and Escape end editing.
pub open spec fn ends_editing(key: Seq<char>) -> bool {
    key == "escape"@ || key == "enter"@
}

/// The field `target` after the key press, when the press edits it.
pub open spec fn edited_text(
    e: SettingsEditor,
    target: EditTarget,
    key: Seq<char>,
    typed: Option<Seq<char>>,
) -> Seq<char> {
    key_effect(field_text(e, target).unwrap(), key, typed, CONFIG_FIELD_MAX_BYTES as nat).1
}

/// Whether the key press changes the field `target` (Enter and Escape only
/// end editing; a key with nothing being edited, or an extra row that is
/// gone, does nothing).
pub open spec fn edits_field(e: SettingsEditor, target: EditTarget, key: Seq<char>) -> bool {
    !ends_editing(key) && field_text(e, target) is Some
}

/// Apply a key press to the form: `editing` is the field being edited, `key`
/// the key's name, `typed` the text it produces. Returns the field edited
/// afterwards.
pub fn apply_edit_key(
    editor: &mut SettingsEditor,
    editing: EditTarget,
    key: &str,
    typed: Option<&str>,
) -> (r: EditTarget)
    ensures
        r == if editing is Idle || ends_editing(key@) {
            EditTarget::Idle
        } else {
            editing
        },
        ({
            let e = *old(editor);
            let typed_v = match typed {
                Some(t) => Some(t@),
                None => None,
            };
            let changes = edits_field(e, editing, key@);
            let t = edited_text(e, editing, key@, typed_v);
            &&& final(editor).discovery_server@ == if changes && editing is Discovery {
                t
            } else {
                e.discovery_server@
            }
            &&& final(editor).port_start@ == if changes && editing is PortStart {
                t
            } else {
                e.port_start@
            }
            &&& final(editor).port_end@ == if changes && editing is PortEnd {
                t
            } else {
                e.port_end@
            }
            &&& final(editor).new_key@ == if changes && editing is NewKey {
                t
            } else {
                e.new_key@
            }
            &&& final(editor).new_value@ == if changes && editing is NewValue {
                t
            } else {
                e.new_value@
            }
            &&& entries_view(final(editor).extras@) == match editing {
                EditTarget::ExtraKey(i) => if changes {
                    entries_view(e.extras@).update(i as int, (t, e.extras@[i as int].1@))
                } else {
                    entries_view(e.extras@)
                },
                EditTarget::ExtraValue(i) => if changes {
                    entries_view(e.extras@).update(i as int, (e.extras@[i as int].0@, t))
                } else {
                    entries_view(e.extras@)
                },
                _ => entries_view(e.extras@),
            }
            &&& final(editor).path == e.path
            &&& final(editor).status == e.status
            &&& final(editor).error == e.error
            &&& final(editor).unreadable == e.unreadable
        }),
{
    if editing == EditTarget::Idle {
        return EditTarget::Idle;
    }
    if text_eq(key, "escape") || text_eq(key, "enter") {
        return EditTarget::Idle;
    }
    match editing {
        EditTarget::Discovery => {
            apply_text_key(&mut editor.discovery_server, key, typed, CONFIG_FIELD_MAX_BYTES);
        },
        EditTarget::PortStart => {
            apply_text_key(&mut editor.port_start, key, typed, CONFIG_FIELD_MAX_BYTES);
        },
        EditTarget::PortEnd => {
            apply_text_key(&mut editor.port_end, key, typed, CONFIG_FIELD_MAX_BYTES);
        },
        EditTarget::NewKey => {
            apply_text_key(&mut editor.new_key, key, typed, CONFIG_FIELD_MAX_BYTES);
        },
        EditTarget::NewValue => {
            apply_text_key(&mut editor.new_value, key, typed, CONFIG_FIELD_MAX_BYTES);
        },
        EditTarget::ExtraKey(i) => {
            if i < editor.extras.len() {
                let (k, v) = clone_entry(&editor.extras[i]);
                let mut k = k;
                apply_text_key(&mut k, key, typed, CONFIG_FIELD_MAX_BYTES);
                let ghost before = editor.extras@;
                editor.extras.set(i, (k, v));
                assert(entries_view(editor.extras@) =~= entries_view(before).update(
                    i as int,
                    (k@, v@),
                ));
            }
        },
        EditTarget::ExtraValue(i) => {
            if i < editor.extras.len() {
                let (k, v) = clone_entry(&editor.extras[i]);
                let mut v = v;
                apply_text_key(&mut v, key, typed, CONFIG_FIELD_MAX_BYTES);
                let ghost before = editor.extras@;
                editor.extras.set(i, (k, v));
                assert(entries_view(editor.extras@) =~= entries_view(before).update(
                    i as int,
                    (k@, v@),
                ));
            }
        },
        EditTarget::Idle => {},
    }
    editing
}

} // verus!
