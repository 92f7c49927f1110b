//! The caret and the terminal cursor.
use crate::app::App;
use crate::app::Composer;
use crate::app::CaretOwner;
use crate::layout::Rect;
use crate::modal::Modal;
use crate::motion::clamp;
use crate::text::byte_len;
use crate::text::char_count;
use crate::text::lemma_byte_len_prefix;
use crate::text::utf8_len;
use vstd::prelude::*;

verus! {

/// The surface that owns the terminal cursor. The question overlay is a text
/// surface only while its free-text row is highlighted.
pub open spec fn cursor_owner(app: App, modal_owns_caret: bool) -> CaretOwner {
    if app.overlay.active_modal != Modal::Closed {
        if modal_owns_caret || (app.overlay.active_modal == Modal::Question && (app.question matches Some(q)
            && q.other_highlighted)) {
            CaretOwner::Modal
        } else {
            CaretOwner::Nobody
        }
    } else if app.view.focused_target is Some || app.view.focus_stack@.len() > 0 {
        CaretOwner::Nobody
    } else {
        CaretOwner::Composer
    }
}

impl App {
    /// The caret as a byte offset.
    pub fn byte_cursor(&self) -> (offset: usize)
        requires
            byte_len(self.composer.input@) <= usize::MAX,
        ensures
            offset == byte_len(
                self.composer.input@.take(clamp(self.composer.cursor_position as int, self.composer.input@.len() as int)),
            ),
    {
        let len: usize = char_count(self.composer.input.as_str());
        let at: usize = if self.composer.cursor_position < len {
            self.composer.cursor_position
        } else {
            len
        };
        let before: &str = self.composer.input.as_str().substring_char(0, at);
        proof {
            assert(before@ =~= self.composer.input@.take(at as int));
            lemma_byte_len_prefix(self.composer.input@, at as int, len as int);
            assert(self.composer.input@.take(len as int) =~= self.composer.input@);
        }
        utf8_len(before) as usize
    }

    /// Moves the caret; the terminal cursor follows before the next frame.
    pub fn set_cursor(&mut self, pos: usize)
        ensures
            *final(self) == (App {
                    composer: Composer {
                        cursor_position: pos,
                        cursor_sync_pending: true,
                        ..old(self).composer
                    },
                    ..*old(self)
                }),
    {
        self.composer.cursor_position = pos;
        self.composer.cursor_sync_pending = true;
    }

    /// Moves the caret behind the text.
    pub fn set_cursor_end(&mut self)
        ensures
            *final(self) == (App {
                    composer: Composer {
                        cursor_position: old(self).composer.input@.len() as usize,
                        cursor_sync_pending: true,
                        ..old(self).composer
                    },
                    ..*old(self)
                }),
            final(self).composer.cursor_position == final(self).composer.input@.len(),
    {
        let end: usize = char_count(self.composer.input.as_str());
        self.set_cursor(end);
    }

    /// Records where the composer was drawn.
    pub fn observe_input_rect(&mut self, rect: Rect)
        ensures
            *final(self) == (App {
                    composer: Composer {
                        last_input_rect: rect,
                        ..old(self).composer
                    },
                    ..*old(self)
                }),
    {
        self.composer.last_input_rect = rect;
    }

    /// Records that an input handler has moved the caret.
    pub fn note_cursor_moved(&mut self)
        ensures
            *final(self) == (App {
                    composer: Composer {
                        cursor_sync_pending: true,
                        ..old(self).composer
                    },
                    ..*old(self)
                }),
    {
        self.composer.cursor_sync_pending = true;
    }

    /// The surface that owns the terminal cursor. `modal_owns_caret` says
    /// whether the open overlay draws a caret of its own.
    pub fn caret_owner(&self, modal_owns_caret: bool) -> (owner: CaretOwner)
        ensures
            owner == cursor_owner(*self, modal_owns_caret),
    {
        if self.overlay.active_modal != Modal::Closed {
            let other: bool = match &self.question {
                Some(question) => question.other_highlighted,
                None => false,
            };
            return if modal_owns_caret || (self.overlay.active_modal == Modal::Question && other) {
                CaretOwner::Modal
            } else {
                CaretOwner::Nobody
            };
        }
        if self.view.focused_target.is_some() || self.view.focus_stack.len() > 0 {
            CaretOwner::Nobody
        } else {
            CaretOwner::Composer
        }
    }

    /// Whether the terminal cursor shows: some surface owns it and nothing is
    /// selected.
    pub fn caret_visible(&self, modal_owns_caret: bool) -> (visible: bool)
        ensures
            visible == (!self.view.selection.covers_something() && cursor_owner(*self, modal_owns_caret)
                != CaretOwner::Nobody),
    {
        !self.view.selection.is_active() && self.caret_owner(modal_owns_caret) != CaretOwner::Nobody
    }
}

/// The composer owns the cursor exactly when no overlay is open, nothing in
/// the transcript holds the focus and the view is not zoomed.
pub proof fn law_composer_owns_cursor(app: App, modal_owns_caret: bool)
    ensures
        cursor_owner(app, modal_owns_caret) == CaretOwner::Composer <==> (app.overlay.active_modal
            == Modal::Closed && app.view.focused_target is None && app.view.focus_stack@.len() == 0),
{
}

} // verus!
