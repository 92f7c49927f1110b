//! The composer: edits, suggestions, and walking the input history.
use crate::app::composer::accepted_completion;
use crate::app::composer::reconciled;
use crate::app::composer::Completion;
use crate::app::App;
use crate::app::Composer;
use crate::app::TranscriptView;
use crate::text::is_boundary;
use crate::text::parse_number;
use crate::text::parsed_number;
use crate::text::starts_with_char;
use crate::text::take_string;
use vstd::prelude::*;

verus! {

/// The state after the line was edited, before its attachments are
/// reconciled: the menu is live again and no target is focused.
pub open spec fn touched(a: App) -> App {
    App {
        composer: Composer { suggestion_index: None, completion_dismissed: false, ..a.composer },
        view: TranscriptView { focused_target: None, ..a.view },
        ..a
    }
}

/// Takes note of an edit of the line.
pub fn note_edit(app: &mut App)
    ensures
        reconciled(touched(*old(app)), *final(app)),
{
    app.composer.suggestion_index = None;
    app.composer.completion_dismissed = false;
    app.view.focused_target = None;
    app.reconcile_attachments();
}

/// The suggestion behind or in front of the highlighted one among `count`,
/// wrapping; the first or the last where none was highlighted.
pub open spec fn next_suggestion(current: Option<usize>, forward: bool, count: int) -> int {
    match current {
        Some(i) => if forward {
            (i + 1) % count
        } else if i == 0 {
            count - 1
        } else {
            i - 1
        },
        None => if forward {
            0
        } else {
            count - 1
        },
    }
}

/// The state with the highlight moved by one suggestion.
pub open spec fn suggestion_moved(a: App, forward: bool, count: usize) -> App {
    if count == 0 {
        a
    } else {
        App {
            composer: Composer {
                suggestion_index: Some(
                    next_suggestion(a.composer.suggestion_index, forward, count as int) as usize,
                ),
                ..a.composer
            },
            ..a
        }
    }
}

/// Moves the highlight of the completion menu by one of `count` suggestions.
pub fn move_suggestion(app: &mut App, forward: bool, count: usize)
    requires
        old(app).composer.suggestion_index matches Some(i) ==> i < usize::MAX,
    ensures
        *final(app) == suggestion_moved(*old(app), forward, count),
{
    if count == 0 {
        return ;
    }
    let next: usize = match app.composer.suggestion_index {
        Some(i) => if forward {
            (i + 1) % count
        } else if i == 0 {
            count - 1
        } else {
            i - 1
        },
        None => if forward {
            0
        } else {
            count - 1
        },
    };
    app.composer.suggestion_index = Some(next);
}

/// The suggestion that the text of an action names.
pub open spec fn named_suggestion(index: Seq<char>) -> Option<usize> {
    match parsed_number(index, usize::MAX as nat) {
        Some(n) => Some(n as usize),
        None => None,
    }
}

/// Whether the named suggestion was accepted.
pub open spec fn named_accepted(
    a: App,
    completions: Seq<Completion>,
    index: Seq<char>,
    b: App,
) -> bool {
    match named_suggestion(index) {
        Some(idx) => accepted_completion(a, completions, idx, b),
        None => b == a,
    }
}

/// Whether every completion names a range of the line and leaves room for its
/// label.
pub open spec fn completions_fit(a: App, completions: Seq<Completion>) -> bool {
    forall|i: int|
        0 <= i < completions.len() ==> {
            let c = #[trigger] completions[i];
            &&& is_boundary(a.composer.input@, c.replace_start as int)
            &&& is_boundary(a.composer.input@, c.replace_end as int)
            &&& a.composer.input@.len() + c.label@.len() + 1 <= usize::MAX
        }
}

/// Accepts the suggestion whose number `index` is.
pub fn accept_suggestion(app: &mut App, completions: &Vec<Completion>, index: &str)
    requires
        completions_fit(*old(app), completions@),
    ensures
        named_accepted(*old(app), completions@, index@, *final(app)),
{
    if let Some(idx) = parse_number(index, usize::MAX) {
        app.accept_completion(completions, idx);
    }
}

/// The state with the completion menu closed until the next edit.
pub open spec fn menu_closed(a: App) -> App {
    App {
        composer: Composer { suggestion_index: None, completion_dismissed: true, ..a.composer },
        ..a
    }
}

/// Closes the completion menu until the next edit.
pub fn close_completion(app: &mut App)
    ensures
        *final(app) == menu_closed(*old(app)),
{
    app.composer.suggestion_index = None;
    app.composer.completion_dismissed = true;
}

/// Whether the named suggestion was accepted and the menu closed.
pub open spec fn committed(a: App, completions: Seq<Completion>, index: Seq<char>, b: App) -> bool {
    exists|mid: App|
        #[trigger] named_accepted(a, completions, index, mid) && b == menu_closed(mid)
}

/// Accepts the suggestion whose number `index` is and closes the menu.
pub fn commit_suggestion(app: &mut App, completions: &Vec<Completion>, index: &str)
    requires
        completions_fit(*old(app), completions@),
    ensures
        committed(*old(app), completions@, index@, *final(app)),
{
    accept_suggestion(app, completions, index);
    let ghost mid = *app;
    close_completion(app);
    assert(named_accepted(*old(app), completions@, index@, mid));
}

/// The state with `text` in the line, as if it had been recalled: the caret
/// stands behind it and the menu stays closed until the next edit.
pub open spec fn recalled(a: App, text: String, index: Option<usize>) -> App {
    App {
        composer: Composer {
            input: text,
            cursor_position: text@.len() as usize,
            cursor_sync_pending: true,
            history_index: index,
            suggestion_index: None,
            completion_dismissed: true,
            ..a.composer
        },
        ..a
    }
}

/// The entry that a step back in the history shows.
pub open spec fn older_entry(a: App) -> int {
    match a.composer.history_index {
        Some(i) => if i == 0 {
            0
        } else {
            i - 1
        },
        None => a.composer.input_history@.len() - 1,
    }
}

/// Whether the line went one step back in the history. The first step puts
/// the draft away.
pub open spec fn walked_back(a: App, b: App) -> bool {
    let history = a.composer.input_history@;
    let at = older_entry(a);
    if history.len() == 0 {
        b == a
    } else {
        b == recalled(
            App {
                composer: Composer {
                    history_draft: match a.composer.history_index {
                        Some(_) => a.composer.history_draft,
                        None => a.composer.input,
                    },
                    ..a.composer
                },
                ..a
            },
            history[at],
            Some(at as usize),
        )
    }
}

/// Whether the line went one step forward in the history. Behind the newest
/// entry the draft comes back.
pub open spec fn walked_forward(a: App, b: App) -> bool {
    let history = a.composer.input_history@;
    match a.composer.history_index {
        Some(i) => if i + 1 < history.len() {
            b == recalled(a, history[i + 1], Some((i + 1) as usize))
        } else {
            &&& b.composer.history_draft@ == Seq::<char>::empty()
            &&& b == recalled(
                App {
                    composer: Composer {
                        history_draft: b.composer.history_draft,
                        ..a.composer
                    },
                    ..a
                },
                a.composer.history_draft,
                None,
            )
        },
        None => b == a,
    }
}

/// Whether the shown history entry exists.
pub open spec fn history_index_valid(a: App) -> bool {
    a.composer.history_index matches Some(i) ==> i < a.composer.input_history@.len()
}

/// Goes one step back in the history.
pub fn history_prev(app: &mut App)
    requires
        old(app).composer.history_index matches Some(i) ==> i <= old(
            app,
        ).composer.input_history@.len(),
    ensures
        walked_back(*old(app), *final(app)),
        old(app).composer.input_history@.len() > 0 ==> history_index_valid(*final(app)),
{
    let count: usize = app.composer.input_history.len();
    if count == 0 {
        return ;
    }
    let at: usize = match app.composer.history_index {
        Some(i) => if i == 0 {
            0
        } else {
            i - 1
        },
        None => {
            app.composer.history_draft = take_string(&mut app.composer.input);
            count - 1
        },
    };
    app.composer.history_index = Some(at);
    app.composer.input = app.composer.input_history[at].clone();
    app.set_cursor_end();
    close_completion(app);
}

/// Goes one step forward in the history.
pub fn history_next(app: &mut App)
    ensures
        walked_forward(*old(app), *final(app)),
        history_index_valid(*final(app)),
{
    if let Some(i) = app.composer.history_index {
        let count: usize = app.composer.input_history.len();
        if count > 0 && i < count - 1 {
            app.composer.history_index = Some(i + 1);
            app.composer.input = app.composer.input_history[i + 1].clone();
        } else {
            app.composer.history_index = None;
            app.composer.input = take_string(&mut app.composer.history_draft);
        }
        app.set_cursor_end();
        close_completion(app);
    }
}

/// Whether the line became the command palette: a `/` opens its menu.
pub open spec fn palette_opened(a: App, b: App) -> bool {
    let ready = a.composer.input@.len() > 0 && a.composer.input@[0] == '/';
    if ready {
        b == (App { composer: Composer { suggestion_index: None, ..a.composer }, ..a })
    } else {
        &&& b.composer.input@ == "/"@
        &&& b == (App {
            composer: Composer {
                input: b.composer.input,
                cursor_position: 1,
                cursor_sync_pending: true,
                suggestion_index: None,
                ..a.composer
            },
            ..a
        })
    }
}

/// Opens the command palette.
pub fn open_commands(app: &mut App)
    ensures
        palette_opened(*old(app), *final(app)),
{
    if !starts_with_char(app.composer.input.as_str(), '/') {
        proof {
            reveal_strlit("/");
        }
        app.composer.input = "/".to_owned();
        app.set_cursor_end();
    }
    app.composer.suggestion_index = None;
}

/// A step back in the history and a step forward again bring the draft back.
pub proof fn law_history_gives_draft_back(a: App, b: App, c: App)
    requires
        a.composer.history_index is None,
        a.composer.input_history@.len() > 0,
        walked_back(a, b),
        walked_forward(b, c),
    ensures
        c.composer.input == a.composer.input,
        c.composer.history_index is None,
{
    let count: usize = a.composer.input_history.len();
    assert(older_entry(a) == count - 1);
}

/// Further back than the newest entry, a step forward undoes a step back.
pub proof fn law_history_steps_are_inverse(a: App, b: App, c: App)
    requires
        history_index_valid(a),
        a.composer.history_index matches Some(i) && i > 0,
        walked_back(a, b),
        walked_forward(b, c),
    ensures
        c.composer.history_index == a.composer.history_index,
        c.composer.input == a.composer.input_history@[a.composer.history_index->Some_0 as int],
        c.composer.history_draft == a.composer.history_draft,
{
}

/// A step forward and a step back of the highlight are inverse to each other
/// while it is on a suggestion.
pub proof fn law_suggestion_steps_are_inverse(i: usize, count: usize)
    requires
        i < count,
    ensures
        next_suggestion(
            Some(next_suggestion(Some(i), true, count as int) as usize),
            false,
            count as int,
        ) == i,
        next_suggestion(
            Some(next_suggestion(Some(i), false, count as int) as usize),
            true,
            count as int,
        ) == i,
{
    assert(next_suggestion(Some(i), true, count as int) == (if i + 1 == count {
        0
    } else {
        i + 1
    })) by {
        vstd::arithmetic::div_mod::lemma_small_mod(i as nat, count as nat);
        if i + 1 < count {
            vstd::arithmetic::div_mod::lemma_small_mod((i + 1) as nat, count as nat);
        } else {
            vstd::arithmetic::div_mod::lemma_mod_self_0(count as int);
        }
    }
    let back = next_suggestion(Some(i), false, count as int);
    if back + 1 < count {
        vstd::arithmetic::div_mod::lemma_small_mod((back + 1) as nat, count as nat);
    } else {
        vstd::arithmetic::div_mod::lemma_mod_self_0(count as int);
    }
}

} // verus!
