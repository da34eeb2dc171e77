//! Editable state of the chat composer's draft, kept apart from its control flow.
//!
//! The render state of the text area and the paste-burst detector belong to
//! the terminal UI and live with it; this is the part of the draft state that
//! is plain data: the text being edited, and what surrounds it.
use vstd::prelude::*;
use std::collections::HashMap;

verus! {

/// A mention that the user bound in the composer: the sigil it starts with,
/// the mention text, and the path it resolves to.
#[derive(Debug, Clone, PartialEq, Eq)]
pub struct ComposerMentionBinding {
    pub sigil: char,
    pub mention: String,
    pub path: String,
}

/// The text being edited in the composer and the cursor position in it (a
/// character index).
#[derive(Debug, Clone, PartialEq, Eq)]
pub struct TextArea {
    pub text: String,
    pub cursor: usize,
}

impl TextArea {
    /// An empty text area with the cursor at the start.
    pub fn new() -> (r: TextArea)
        ensures
            r.text@.len() == 0,
            r.cursor == 0,
    {
        TextArea { text: String::new(), cursor: 0 }
    }
}

/// A mention bound in a submitted message: the mention text and the path it
/// resolves to.
#[derive(Debug, Clone, PartialEq, Eq)]
pub struct MentionBinding {
    pub mention: String,
    pub path: String,
}

/// The plain-data part of the composer's draft state.
pub struct DraftState {
    /// The text being edited.
    pub textarea: TextArea,
    /// Whether the composer is in bash mode.
    pub is_bash_mode: bool,
    /// Pastes collapsed into placeholders: (placeholder, pasted text).
    pub pending_pastes: Vec<(String, String)>,
    /// Whether input is accepted.
    pub input_enabled: bool,
    /// What the composer shows while input is disabled.
    pub input_disabled_placeholder: Option<String>,
    /// Whether paste-burst detection is turned off.
    pub disable_paste_burst: bool,
    /// Mention bindings by id.
    pub mention_bindings: HashMap<u64, ComposerMentionBinding>,
    /// The mention bindings of the most recent submission.
    pub recent_submission_mention_bindings: Vec<MentionBinding>,
    /// Set by a first Escape press on a non-empty composer (outside popups,
    /// bash mode and Vim normal mode); a second, immediately following Escape
    /// while it is still set clears the draft. Arming first keeps a single
    /// Escape inert, as it is everywhere else (for instance, Escape pressed to
    /// dismiss a popup right before Enter submits).
    pub escape_clear_armed: bool,
}

impl DraftState {
    /// An empty draft: empty text area, input enabled, not in bash mode,
    /// nothing pending, no mention bindings, Escape not armed.
    pub fn new() -> (r: DraftState)
        ensures
            r.textarea.text@.len() == 0,
            r.textarea.cursor == 0,
            r.recent_submission_mention_bindings@.len() == 0,
            !r.is_bash_mode,
            r.pending_pastes@.len() == 0,
            r.input_enabled,
            r.input_disabled_placeholder is None,
            !r.disable_paste_burst,
            r.mention_bindings@ == Map::<u64, ComposerMentionBinding>::empty(),
            !r.escape_clear_armed,
    {
        DraftState {
            textarea: TextArea::new(),
            is_bash_mode: false,
            pending_pastes: Vec::new(),
            input_enabled: true,
            input_disabled_placeholder: None,
            disable_paste_burst: false,
            mention_bindings: HashMap::new(),
            recent_submission_mention_bindings: Vec::new(),
            escape_clear_armed: false,
        }
    }
}

} // verus!
