//! What becomes of the clipboard's contents.
use crate::app::App;
use crate::app::Composer;
use crate::app::Toast;
use crate::attachments::image_chip;
use crate::attachments::image_label;
use crate::attachments::paste_chip;
use crate::attachments::paste_label;
use crate::attachments::ImagePart;
use crate::input::editing::insert_text;
use crate::input::editing::Line;
use crate::modal::Modal;
use crate::text::append_text;
use crate::text::char_count;
use crate::text::clip;
use crate::text::clipped;
use crate::text::decimal;
use crate::text::decimal_string;
use crate::text::to_chars;
use vstd::prelude::*;

verus! {

/// What the clipboard held.
#[derive(Debug)]
pub enum ClipboardRead {
    /// An image, encoded for transport.
    Image { data: String, mime: String },
    /// A text; `chip_lines` is its line count where it is too large to stand
    /// in the line itself.
    Text { text: String, chip_lines: Option<usize> },
    Empty,
}

/// How a copy went through.
#[derive(Debug, Clone, Copy, PartialEq, Eq, Structural)]
pub enum CopyOutcome {
    /// The system clipboard took it.
    Native,
    /// The terminal was asked to take it.
    Osc52,
}

/// The moment `ms` milliseconds after `now`.
pub open spec fn later(now: u64, ms: int) -> u64 {
    if now + ms <= u64::MAX {
        (now + ms) as u64
    } else {
        u64::MAX
    }
}

/// `n` things: the number, the noun, and an `s` unless there is one.
pub open spec fn counted(n: nat, noun: Seq<char>) -> Seq<char> {
    decimal(n) + noun + (if n == 1 {
        ""@
    } else {
        "s"@
    })
}

/// Counts `n` things in words.
pub fn count_text(n: usize, noun: &str) -> (text: String)
    ensures
        text@ == counted(n as nat, noun@),
{
    let mut text: String = decimal_string(n as u64);
    text.append(noun);
    text.append(
        if n == 1 {
            ""
        } else {
            "s"
        },
    );
    text
}

/// Whether `b` is `a` with a message shown until `until`.
pub open spec fn toasted(a: App, message: Seq<char>, failed: bool, until: u64, b: App) -> bool {
    &&& b.toast.copy_toast_message@ == message
    &&& b == (App {
        toast: Toast {
            copy_toast_message: b.toast.copy_toast_message,
            copy_toast_failed: failed,
            copy_toast_until: Some(until),
            ..a.toast
        },
        ..a
    })
}

/// Shows a message for `ms` milliseconds.
pub fn show_local_toast(app: &mut App, message: String, failed: bool, now: u64, ms: u64)
    ensures
        toasted(*old(app), message@, failed, later(now, ms as int), *final(app)),
{
    app.toast.copy_toast_message = message;
    app.toast.copy_toast_failed = failed;
    app.toast.copy_toast_until = Some(now.saturating_add(ms));
}

/// What a paste into the main prompt puts into the line.
pub open spec fn prompt_piece(a: App, read: ClipboardRead) -> Seq<char> {
    match read {
        ClipboardRead::Image { .. } => image_label(a.composer.pending_images@.len() + 1)
            + " "@,
        ClipboardRead::Text { text, chip_lines } => match chip_lines {
            Some(lines) => paste_label(a.composer.pending_text_pastes@.len() + 1, lines as nat)
                + " "@,
            None => text@,
        },
        ClipboardRead::Empty => Seq::empty(),
    }
}

/// The line of the composer.
pub open spec fn composer_line(composer: Composer) -> Line {
    Line { text: composer.input@, caret: composer.cursor_position as int }
}

/// Whether the main prompt took the paste: an image is staged behind a chip
/// if the model sees images, a large text is staged behind a chip, other text
/// goes into the line.
pub open spec fn prompt_pasted(a: App, read: ClipboardRead, vision: bool, now: u64, b: App) -> bool {
    let composer = b.composer;
    let line = composer_line(a.composer).with_inserted(prompt_piece(a, read));
    match read {
        ClipboardRead::Image { data, mime } => if !vision {
            toasted(
                a,
                a.session.current_model@ + " does not support images — paste ignored"@,
                true,
                later(now, 2000),
                b,
            )
        } else {
            &&& composer_line(composer) == line
            &&& composer.pending_images@ == a.composer.pending_images@.push(
                ImagePart { mime, data },
            )
            &&& toasted(
                App {
                    composer: Composer {
                        input: composer.input,
                        cursor_position: composer.cursor_position,
                        cursor_sync_pending: true,
                        pending_images: composer.pending_images,
                        ..a.composer
                    },
                    ..a
                },
                counted(composer.pending_images@.len(), " image"@) + " attached — enter to send"@,
                false,
                later(now, 1800),
                b,
            )
        },
        ClipboardRead::Text { text, chip_lines } => {
            &&& composer_line(composer) == line
            &&& composer.pending_text_pastes@ == (if chip_lines is Some {
                a.composer.pending_text_pastes@.push(text)
            } else {
                a.composer.pending_text_pastes@
            })
            &&& toasted(
                App {
                    composer: Composer {
                        input: composer.input,
                        cursor_position: composer.cursor_position,
                        cursor_sync_pending: true,
                        pending_text_pastes: composer.pending_text_pastes,
                        ..a.composer
                    },
                    ..a
                },
                match chip_lines {
                    Some(lines) => "pasted "@ + counted(lines as nat, " line"@) + " as a chip"@,
                    None => "pasted "@ + counted(text@.len(), " char"@),
                },
                false,
                later(now, 1200),
                b,
            )
        },
        ClipboardRead::Empty => toasted(a, "clipboard is empty"@, true, later(now, 1200), b),
    }
}

/// The first `n` characters of `text` without its line breaks.
pub open spec fn one_line(text: Seq<char>, n: int) -> Seq<char>
    decreases n,
{
    if n <= 0 {
        Seq::empty()
    } else if text[n - 1] == '\n' || text[n - 1] == '\r' {
        one_line(text, n - 1)
    } else {
        one_line(text, n - 1).push(text[n - 1])
    }
}

/// Whether a field of an overlay took the paste: text goes into the line
/// without its line breaks, images do not fit.
pub open spec fn field_pasted(a: App, read: ClipboardRead, now: u64, b: App) -> bool {
    match read {
        ClipboardRead::Text { text, .. } => {
            let piece = one_line(text@, text@.len() as int);
            if piece.len() == 0 {
                b == a
            } else {
                &&& composer_line(b.composer) == composer_line(a.composer).with_inserted(piece)
                &&& toasted(
                    App {
                        composer: Composer {
                            input: b.composer.input,
                            cursor_position: b.composer.cursor_position,
                            cursor_sync_pending: true,
                            ..a.composer
                        },
                        ..a
                    },
                    "pasted "@ + counted(piece.len(), " char"@),
                    false,
                    later(now, 1200),
                    b,
                )
            }
        },
        ClipboardRead::Image { .. } => toasted(
            a,
            "can't paste image into this field"@,
            true,
            later(now, 1200),
            b,
        ),
        ClipboardRead::Empty => toasted(a, "clipboard is empty"@, true, later(now, 1200), b),
    }
}

/// Whether the paste went where the user types: the main prompt or a field
/// that borrows the line. Other overlays drop it.
pub open spec fn pasted(a: App, read: ClipboardRead, vision: bool, now: u64, b: App) -> bool {
    match a.overlay.active_modal {
        Modal::Closed => prompt_pasted(a, read, vision, now, b),
        Modal::HistorySearch
        | Modal::Provider
        | Modal::ModelEditor
        | Modal::CustomProvider
        | Modal::AddModel
        | Modal::InputInjection => field_pasted(a, read, now, b),
        _ => b == a,
    }
}

/// Whether the caret and the counts leave room for the paste.
pub open spec fn paste_fits(a: App, read: ClipboardRead) -> bool {
    &&& a.composer.cursor_position + prompt_piece(a, read).len() <= usize::MAX
    &&& a.composer.pending_images@.len() < usize::MAX
    &&& a.composer.pending_text_pastes@.len() < usize::MAX
    &&& read matches ClipboardRead::Text { text, .. } ==> a.composer.cursor_position + text@.len()
        <= usize::MAX
}

/// Applies what the clipboard held. `vision` says whether the current model
/// sees images, `now` is the host's clock.
pub fn apply_clipboard_paste(app: &mut App, read: ClipboardRead, vision: bool, now: u64)
    requires
        paste_fits(*old(app), read),
    ensures
        pasted(*old(app), read, vision, now, *final(app)),
{
    match app.overlay.active_modal {
        Modal::Closed => apply_composer_paste(app, read, vision, now),
        Modal::HistorySearch
        | Modal::Provider
        | Modal::ModelEditor
        | Modal::CustomProvider
        | Modal::AddModel
        | Modal::InputInjection => apply_modal_field_paste(app, read, now),
        _ => {},
    }
}

/// Puts `chip` and a space into the line.
fn insert_chip_at_cursor(app: &mut App, chip: &str)
    requires
        old(app).composer.cursor_position + chip@.len() + 1 <= usize::MAX,
    ensures
        composer_line(final(app).composer) == composer_line(old(app).composer).with_inserted(
            chip@ + " "@,
        ),
        *final(app) == (App {
            composer: Composer {
                input: final(app).composer.input,
                cursor_position: final(app).composer.cursor_position,
                cursor_sync_pending: true,
                ..old(app).composer
            },
            ..*old(app)
        }),
{
    proof {
        reveal_strlit(" ");
    }
    let mut piece: String = chip.to_owned();
    piece.append(" ");
    insert_text(
        &mut app.composer.input,
        &mut app.composer.cursor_position,
        piece.as_str(),
    );
    app.note_cursor_moved();
}

/// Pastes into the main prompt.
pub fn apply_composer_paste(app: &mut App, read: ClipboardRead, vision: bool, now: u64)
    requires
        paste_fits(*old(app), read),
    ensures
        prompt_pasted(*old(app), read, vision, now, *final(app)),
{
    proof {
        reveal_strlit(" ");
    }
    match read {
        ClipboardRead::Image { data, mime } => {
            if !vision {
                let mut message: String = app.session.current_model.clone();
                message.append(" does not support images — paste ignored");
                show_local_toast(app, message, true, now, 2000);
                return ;
            }
            app.composer.pending_images.push(ImagePart { mime, data });
            let n: usize = app.composer.pending_images.len();
            let chip: String = image_chip(n);
            insert_chip_at_cursor(app, chip.as_str());
            let mut message: String = count_text(n, " image");
            message.append(" attached — enter to send");
            show_local_toast(app, message, false, now, 1800);
        },
        ClipboardRead::Text { text, chip_lines } => {
            let mut message: String = "pasted ".to_owned();
            match chip_lines {
                Some(lines) => {
                    let n: usize = app.composer.pending_text_pastes.len() + 1;
                    app.composer.pending_text_pastes.push(text);
                    let chip: String = paste_chip(n, lines);
                    insert_chip_at_cursor(app, chip.as_str());
                    let count: String = count_text(lines, " line");
                    message.append(count.as_str());
                    message.append(" as a chip");
                },
                None => {
                    insert_text(
                        &mut app.composer.input,
                        &mut app.composer.cursor_position,
                        text.as_str(),
                    );
                    app.note_cursor_moved();
                    let count: String = count_text(char_count(text.as_str()), " char");
                    message.append(count.as_str());
                },
            }
            show_local_toast(app, message, false, now, 1200);
        },
        ClipboardRead::Empty => {
            show_local_toast(app, "clipboard is empty".to_owned(), true, now, 1200);
        },
    }
}

fn strip_line_breaks(text: &str) -> (out: String)
    ensures
        out@ == one_line(text@, text@.len() as int),
        out@.len() <= text@.len(),
{
    let chars: Vec<char> = to_chars(text);
    let count: usize = chars.len();
    let mut out: String = String::new();
    let mut i: usize = 0;
    while i < count
        invariant
            i <= count,
            count == chars@.len(),
            out@ == one_line(chars@, i as int),
            out@.len() <= i,
        decreases count - i,
    {
        if chars[i] != '\n' && chars[i] != '\r' {
            out.push(chars[i]);
        }
        i += 1;
    }
    out
}

/// Pastes into a field of an overlay.
pub fn apply_modal_field_paste(app: &mut App, read: ClipboardRead, now: u64)
    requires
        read matches ClipboardRead::Text { text, .. } ==> old(app).composer.cursor_position
            + text@.len() <= usize::MAX,
    ensures
        field_pasted(*old(app), read, now, *final(app)),
{
    match read {
        ClipboardRead::Text { text, .. } => {
            let stripped: String = strip_line_breaks(text.as_str());
            let n: usize = char_count(stripped.as_str());
            if n == 0 {
                return ;
            }
            insert_text(
                &mut app.composer.input,
                &mut app.composer.cursor_position,
                stripped.as_str(),
            );
            app.note_cursor_moved();
            let mut message: String = "pasted ".to_owned();
            let count: String = count_text(n, " char");
            message.append(count.as_str());
            show_local_toast(app, message, false, now, 1200);
        },
        ClipboardRead::Image { .. } => {
            show_local_toast(app, "can't paste image into this field".to_owned(), true, now, 1200);
        },
        ClipboardRead::Empty => {
            show_local_toast(app, "clipboard is empty".to_owned(), true, now, 1200);
        },
    }
}

/// What the user is told about a copy.
pub open spec fn copy_message(result: Result<CopyOutcome, String>) -> Seq<char> {
    match result {
        Ok(CopyOutcome::Native) => "copied to clipboard"@,
        Ok(CopyOutcome::Osc52) => "copy sent via OSC52"@,
        Err(error) => "copy failed: "@ + clipped(error@, 48),
    }
}

/// Tells the user how a copy went.
pub fn set_copy_feedback(app: &mut App, result: Result<CopyOutcome, String>)
    ensures
        final(app).toast.copy_toast_message@ == copy_message(result),
        *final(app) == (App {
            toast: Toast {
                copy_toast_message: final(app).toast.copy_toast_message,
                copy_toast_failed: result is Err,
                ..old(app).toast
            },
            ..*old(app)
        }),
{
    match result {
        Ok(CopyOutcome::Native) => {
            app.toast.copy_toast_message = "copied to clipboard".to_owned();
            app.toast.copy_toast_failed = false;
        },
        Ok(CopyOutcome::Osc52) => {
            app.toast.copy_toast_message = "copy sent via OSC52".to_owned();
            app.toast.copy_toast_failed = false;
        },
        Err(error) => {
            let mut message: String = "copy failed: ".to_owned();
            let reason: String = clip(error.as_str(), 48);
            append_text(&mut message, reason.as_str());
            app.toast.copy_toast_message = message;
            app.toast.copy_toast_failed = true;
        },
    }
}

/// Tells the user how a copy that has just ended went. `now` is the host's
/// clock.
pub fn finish_copy(app: &mut App, result: Result<CopyOutcome, String>, now: u64)
    ensures
        toasted(
            *old(app),
            copy_message(result),
            result is Err,
            later(now, 1800),
            *final(app),
        ),
{
    set_copy_feedback(app, result);
    app.toast.copy_toast_until = Some(now.saturating_add(1800));
}

/// A paste into a field leaves no line break in it.
pub proof fn law_field_paste_is_one_line(text: Seq<char>, n: int)
    requires
        0 <= n <= text.len(),
    ensures
        forall|i: int|
            0 <= i < one_line(text, n).len() ==> (#[trigger] one_line(text, n)[i]) != '\n'
                && one_line(text, n)[i] != '\r',
    decreases n,
{
    if n > 0 {
        law_field_paste_is_one_line(text, n - 1);
        let shorter = one_line(text, n - 1);
        let out = one_line(text, n);
        assert forall|i: int| 0 <= i < out.len() implies (#[trigger] out[i]) != '\n' && out[i]
            != '\r' by {
            if i < shorter.len() {
                assert(out[i] == shorter[i]);
            }
        }
    }
}

} // verus!
