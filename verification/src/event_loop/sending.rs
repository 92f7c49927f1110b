//! Sending: chat messages, slash commands and shell commands, at once or
//! through the queue.
use crate::agent::AgentRequest;
use crate::app::composer::is_new_entry;
use crate::app::composer::is_queued_marker;
use crate::app::composer::recalled_queued;
use crate::app::composer::without_last_marker;
use crate::app::switching::fields_given_up;
use crate::app::switching::with_modal;
use crate::app::App;
use crate::app::Composer;
use crate::app::Effect;
use crate::app::QueuedDispatch;
use crate::app::ServeCommand;
use crate::app::TranscriptView;
use crate::attachments::ImagePart;
use crate::document::DeliveryStatus;
use crate::document::MessageKind;
use crate::document::Role;
use crate::document::TranscriptMessage;
use crate::document::UserMessageOrigin;
use crate::event_loop::permission::send;
use crate::event_loop::steps::open_selected_step;
use crate::event_loop::steps::selected_step_opened;
use crate::event_loop::UiRuntime;
use crate::modal::Modal;
use crate::staging::expand_paste_chips;
use crate::staging::expanded;
use crate::text::begins_with;
use crate::text::char_count;
use crate::text::decimal;
use crate::text::decimal_string;
use crate::text::parse_number;
use crate::text::parsed_number;
use crate::text::same_text;
use crate::text::second_word;
use crate::text::second_word_of;
use crate::text::starts_with;
use vstd::prelude::*;

verus! {

/// Whether `message` is the plain message `raw` of `role`, without a model
/// behind it.
pub open spec fn is_plain_message(
    message: TranscriptMessage,
    role: Role,
    raw: Seq<char>,
    origin: UserMessageOrigin,
    delivery: DeliveryStatus,
) -> bool {
    &&& message.role == role
    &&& message.raw@ == raw
    &&& message.kind == MessageKind::Text
    &&& message.delivery == delivery
    &&& message.origin == origin
    &&& message.provider@ == Seq::<char>::empty()
    &&& message.model@ == Seq::<char>::empty()
}

/// Whether `after` is `before` and a plain message.
pub open spec fn appended(
    before: Seq<TranscriptMessage>,
    role: Role,
    raw: Seq<char>,
    origin: UserMessageOrigin,
    delivery: DeliveryStatus,
    after: Seq<TranscriptMessage>,
) -> bool {
    &&& after.len() == before.len() + 1
    &&& after.drop_last() == before
    &&& is_plain_message(after.last(), role, raw, origin, delivery)
}

/// Whether `effect` sends a chat message.
pub open spec fn sends_chat(effect: Effect, text: Seq<char>, images: Seq<ImagePart>) -> bool {
    effect matches Effect::Send(AgentRequest::Chat { text: t, images: i }) && t@ == text && i@
        == images
}

/// The history with `entry` recorded.
pub open spec fn history_with(history: Seq<String>, entry: String) -> Seq<String> {
    if is_new_entry(history, entry@) {
        history.push(entry)
    } else {
        history
    }
}

/// The outbox once `entry` has been recorded in `history`.
pub open spec fn outbox_with_history(
    outbox: Seq<Effect>,
    history: Seq<String>,
    entry: String,
) -> Seq<Effect> {
    if is_new_entry(history, entry@) {
        outbox.push(Effect::SaveHistory(entry))
    } else {
        outbox
    }
}

/// The composer and the view once a prompt has left: `b`'s lists stand for
/// those that change.
pub open spec fn prompt_gone(a: App, b: App) -> App {
    let shown = with_modal(a, Modal::Closed, b);
    App {
        composer: Composer {
            suggestion_index: None,
            input_scroll: 0,
            pending_images: b.composer.pending_images,
            pending_text_pastes: b.composer.pending_text_pastes,
            pending_dispatch: b.composer.pending_dispatch,
            input_history: b.composer.input_history,
            history_index: None,
            history_draft: b.composer.history_draft,
            ..a.composer
        },
        view: TranscriptView { follow_bottom: true, pin_summary_line: None, ..shown.view },
        outbox: b.outbox,
        ..shown
    }
}

/// Whether a chat message was sent: `a` and `r` became `b` and `s`. While a
/// turn runs it waits in the queue, with a marker in the transcript; else it
/// goes to the agent with its staged texts in place of their chips.
pub open spec fn chat_sent(a: App, r: UiRuntime, text: String, b: App, s: UiRuntime) -> bool {
    let images = a.composer.pending_images@;
    let pastes = a.composer.pending_text_pastes@;
    let recorded = outbox_with_history(a.outbox@, a.composer.input_history@, text);
    &&& b == prompt_gone(a, b)
    &&& fields_given_up(Modal::Closed, b)
    &&& b.composer.pending_images@ == Seq::<ImagePart>::empty()
    &&& b.composer.pending_text_pastes@ == Seq::<String>::empty()
    &&& b.composer.input_history@ == history_with(a.composer.input_history@, text)
    &&& b.composer.history_draft@ == Seq::<char>::empty()
    &&& appended(
        r.messages@,
        Role::User,
        text@,
        UserMessageOrigin::Chat,
        if r.is_responding {
            DeliveryStatus::Queued
        } else {
            DeliveryStatus::Delivered
        },
        s.messages@,
    )
    &&& if r.is_responding {
        &&& b.outbox@ == recorded
        &&& b.composer.pending_dispatch@.len() == a.composer.pending_dispatch@.len() + 1
        &&& b.composer.pending_dispatch@.drop_last() == a.composer.pending_dispatch@
        &&& b.composer.pending_dispatch@.last().text == text
        &&& b.composer.pending_dispatch@.last().images@ == images
        &&& b.composer.pending_dispatch@.last().text_pastes@ == pastes
        &&& s == (UiRuntime { messages: s.messages, ..r })
    } else {
        &&& b.composer.pending_dispatch == a.composer.pending_dispatch
        &&& b.outbox@.len() == recorded.len() + 1
        &&& b.outbox@.drop_last() == recorded
        &&& sends_chat(b.outbox@.last(), expanded(text@, 0, pastes), images)
        &&& s.activity_status@ == "queued"@
        &&& s == (UiRuntime {
            messages: s.messages,
            is_responding: true,
            activity_status: s.activity_status,
            ..r
        })
    }
}

/// The composer once the prompt has been taken out of it.
pub open spec fn prompt_taken(a: App, b: App) -> App {
    App {
        composer: Composer {
            suggestion_index: None,
            input_scroll: 0,
            pending_images: b.composer.pending_images,
            pending_text_pastes: b.composer.pending_text_pastes,
            ..a.composer
        },
        ..with_modal(a, Modal::Closed, b)
    }
}

/// Whether the prompt `text` was submitted. One without text and images sends
/// nothing and opens the selected step instead.
pub open spec fn prompt_submitted(a: App, r: UiRuntime, text: String, b: App, s: UiRuntime) -> bool {
    if text@.len() > 0 || a.composer.pending_images@.len() > 0 {
        chat_sent(a, r, text, b, s)
    } else {
        &&& b.composer.pending_images@ == Seq::<ImagePart>::empty()
        &&& b.composer.pending_text_pastes@ == Seq::<String>::empty()
        &&& fields_given_up(Modal::Closed, b)
        &&& selected_step_opened(prompt_taken(a, b), r, b, s)
    }
}

fn queue_chat(
    app: &mut App,
    runtime: &mut UiRuntime,
    text: String,
    images: Vec<ImagePart>,
    text_pastes: Vec<String>,
)
    ensures
        ({
            let (a, b) = (*old(app), *final(app));
            let (r, s) = (*old(runtime), *final(runtime));
            let queue = b.composer.pending_dispatch@;
            &&& b.composer.input_history@ == history_with(a.composer.input_history@, text)
            &&& b.composer.history_draft@ == Seq::<char>::empty()
            &&& b.outbox@ == outbox_with_history(a.outbox@, a.composer.input_history@, text)
            &&& queue.len() == a.composer.pending_dispatch@.len() + 1
            &&& queue.drop_last() == a.composer.pending_dispatch@
            &&& queue.last() == (QueuedDispatch { text, images, text_pastes })
            &&& b == (App {
                composer: Composer {
                    pending_dispatch: b.composer.pending_dispatch,
                    input_history: b.composer.input_history,
                    history_index: None,
                    history_draft: b.composer.history_draft,
                    ..a.composer
                },
                outbox: b.outbox,
                ..a
            })
            &&& appended(
                r.messages@,
                Role::User,
                text@,
                UserMessageOrigin::Chat,
                DeliveryStatus::Queued,
                s.messages@,
            )
            &&& s == (UiRuntime { messages: s.messages, ..r })
        }),
{
    runtime.messages.push(TranscriptMessage::new(Role::User, text.clone()).queued());
    app.record_input_history(text.clone());
    app.composer.history_draft = String::new();
    app.composer.pending_dispatch.push_back(QueuedDispatch { text, images, text_pastes });
    proof {
        assert(app.composer.pending_dispatch@.drop_last() =~= old(app).composer.pending_dispatch@);
        assert(runtime.messages@.drop_last() =~= old(runtime).messages@);
    }
}

fn dispatch_chat(
    app: &mut App,
    runtime: &mut UiRuntime,
    text: String,
    images: Vec<ImagePart>,
    text_pastes: Vec<String>,
)
    ensures
        ({
            let (a, b) = (*old(app), *final(app));
            let (r, s) = (*old(runtime), *final(runtime));
            &&& b.composer.input_history@ == history_with(a.composer.input_history@, text)
            &&& b.composer.history_draft@ == Seq::<char>::empty()
            &&& b.outbox@.len() > 0
            &&& b.outbox@.drop_last() == outbox_with_history(
                a.outbox@,
                a.composer.input_history@,
                text,
            )
            &&& sends_chat(b.outbox@.last(), expanded(text@, 0, text_pastes@), images@)
            &&& b == (App {
                composer: Composer {
                    input_history: b.composer.input_history,
                    history_index: None,
                    history_draft: b.composer.history_draft,
                    ..a.composer
                },
                outbox: b.outbox,
                ..a
            })
            &&& appended(
                r.messages@,
                Role::User,
                text@,
                UserMessageOrigin::Chat,
                DeliveryStatus::Delivered,
                s.messages@,
            )
            &&& s.activity_status@ == "queued"@
            &&& s == (UiRuntime {
                messages: s.messages,
                is_responding: true,
                activity_status: s.activity_status,
                ..r
            })
        }),
{
    let whole: String = expand_paste_chips(text.as_str(), &text_pastes);
    runtime.is_responding = true;
    runtime.activity_status = "queued".to_owned();
    runtime.messages.push(TranscriptMessage::new(Role::User, text.clone()));
    app.record_input_history(text);
    app.composer.history_draft = String::new();
    let ghost recorded = app.outbox@;
    send(app, AgentRequest::Chat { text: whole, images });
    proof {
        assert(app.outbox@.drop_last() =~= recorded);
        assert(runtime.messages@.drop_last() =~= old(runtime).messages@);
    }
}

/// Takes the prompt's attachments out of the composer and closes what was
/// open over it.
fn take_prompt(app: &mut App) -> (staged: (Vec<ImagePart>, Vec<String>))
    ensures
        *final(app) == prompt_taken(*old(app), *final(app)),
        fields_given_up(Modal::Closed, *final(app)),
        final(app).composer.pending_images@ == Seq::<ImagePart>::empty(),
        final(app).composer.pending_text_pastes@ == Seq::<String>::empty(),
        staged.0 == old(app).composer.pending_images,
        staged.1 == old(app).composer.pending_text_pastes,
{
    app.switch_modal(Modal::Closed);
    app.composer.suggestion_index = None;
    app.composer.input_scroll = 0;
    let mut images: Vec<ImagePart> = Vec::new();
    std::mem::swap(&mut images, &mut app.composer.pending_images);
    let mut text_pastes: Vec<String> = Vec::new();
    std::mem::swap(&mut text_pastes, &mut app.composer.pending_text_pastes);
    (images, text_pastes)
}

/// Sends the prompt `text`, at once or through the queue.
fn ship_chat(
    app: &mut App,
    runtime: &mut UiRuntime,
    text: String,
    images: Vec<ImagePart>,
    text_pastes: Vec<String>,
    Ghost(a): Ghost<App>,
)
    requires
        *old(app) == prompt_taken(a, *old(app)),
        fields_given_up(Modal::Closed, *old(app)),
        old(app).composer.pending_images@ == Seq::<ImagePart>::empty(),
        old(app).composer.pending_text_pastes@ == Seq::<String>::empty(),
        images == a.composer.pending_images,
        text_pastes == a.composer.pending_text_pastes,
    ensures
        chat_sent(a, *old(runtime), text, *final(app), *final(runtime)),
{
    app.view.follow_bottom = true;
    app.view.pin_summary_line = None;
    if runtime.is_responding {
        queue_chat(app, runtime, text, images, text_pastes);
    } else {
        dispatch_chat(app, runtime, text, images, text_pastes);
    }
}

/// Submits the prompt `text` with what is staged for it.
pub fn send_chat(app: &mut App, runtime: &mut UiRuntime, text: String)
    ensures
        prompt_submitted(*old(app), *old(runtime), text, *final(app), *final(runtime)),
{
    let (images, text_pastes) = take_prompt(app);
    if char_count(text.as_str()) == 0 && images.len() == 0 {
        let ghost taken = *app;
        open_selected_step(app, runtime);
        proof {
            assert(prompt_taken(*old(app), *app) == taken);
        }
    } else {
        ship_chat(app, runtime, text, images, text_pastes, Ghost(*old(app)));
    }
}

/// The transcript with its first queued marker delivered.
pub open spec fn with_first_delivered(messages: Seq<TranscriptMessage>) -> Seq<TranscriptMessage>
    decreases messages.len(),
{
    if messages.len() == 0 {
        messages
    } else if is_queued_marker(messages[0]) {
        messages.update(
            0,
            TranscriptMessage { delivery: DeliveryStatus::Delivered, ..messages[0] },
        )
    } else {
        seq![messages[0]] + with_first_delivered(messages.drop_first())
    }
}

/// Whether the next queued message is due: no turn runs and one waits.
pub open spec fn queue_due(a: App, r: UiRuntime) -> bool {
    !r.is_responding && a.session.loop_status@ == "idle"@ && a.composer.pending_dispatch@.len()
        > 0
}

/// Whether the next queued message was sent, if it was due.
pub open spec fn queue_drained(a: App, r: UiRuntime, b: App, s: UiRuntime) -> bool {
    if queue_due(a, r) {
        let first = a.composer.pending_dispatch@[0];
        &&& b.composer.pending_dispatch@ == a.composer.pending_dispatch@.drop_first()
        &&& b.outbox@.len() == a.outbox@.len() + 1
        &&& b.outbox@.drop_last() == a.outbox@
        &&& sends_chat(
            b.outbox@.last(),
            expanded(first.text@, 0, first.text_pastes@),
            first.images@,
        )
        &&& b == (App {
            composer: Composer { pending_dispatch: b.composer.pending_dispatch, ..a.composer },
            outbox: b.outbox,
            ..a
        })
        &&& s.messages@ == with_first_delivered(r.messages@)
        &&& s.activity_status@ == "queued"@
        &&& s == (UiRuntime {
            messages: s.messages,
            is_responding: true,
            activity_status: s.activity_status,
            ..r
        })
    } else {
        b == a && s == r
    }
}

fn deliver_first_marker(messages: &mut Vec<TranscriptMessage>)
    ensures
        final(messages)@ == with_first_delivered(old(messages)@),
{
    let count: usize = messages.len();
    let ghost all = messages@;
    let mut i: usize = 0;
    proof {
        assert(all.skip(0) =~= all);
        assert(all.take(0) + with_first_delivered(all) =~= with_first_delivered(all));
    }
    while i < count
        invariant
            i <= count,
            count == messages@.len(),
            messages@ == all,
            all == old(messages)@,
            with_first_delivered(all) == all.take(i as int) + with_first_delivered(
                all.skip(i as int),
            ),
        decreases count - i,
    {
        let ghost tail = all.skip(i as int);
        proof {
            assert(tail[0] == all[i as int]);
            assert(tail.drop_first() =~= all.skip(i + 1));
        }
        if messages[i].role == Role::User && messages[i].delivery == DeliveryStatus::Queued {
            messages[i].delivery = DeliveryStatus::Delivered;
            proof {
                let flipped = TranscriptMessage {
                    delivery: DeliveryStatus::Delivered,
                    ..all[i as int]
                };
                assert(messages@ =~= all.update(i as int, flipped));
                assert(messages@ =~= all.take(i as int) + tail.update(0, flipped));
            }
            return ;
        }
        proof {
            assert(all.take(i as int) + (seq![all[i as int]] + with_first_delivered(
                all.skip(i + 1),
            )) =~= all.take(i + 1) + with_first_delivered(all.skip(i + 1)));
        }
        i += 1;
    }
    proof {
        assert(all.skip(count as int) =~= Seq::<TranscriptMessage>::empty());
        assert(all.take(count as int) + Seq::<TranscriptMessage>::empty() =~= all);
    }
}

/// Sends the next queued message, if it is due.
pub fn drain_queue(app: &mut App, runtime: &mut UiRuntime)
    ensures
        queue_drained(*old(app), *old(runtime), *final(app), *final(runtime)),
{
    if runtime.is_responding || !same_text(app.session.loop_status.as_str(), "idle")
        || app.composer.pending_dispatch.len() == 0 {
        return ;
    }
    if let Some(dispatch) = app.composer.pending_dispatch.pop_front() {
        proof {
            assert(app.composer.pending_dispatch@
                =~= old(app).composer.pending_dispatch@.drop_first());
        }
        deliver_first_marker(&mut runtime.messages);
        runtime.is_responding = true;
        runtime.activity_status = "queued".to_owned();
        let text: String = expand_paste_chips(dispatch.text.as_str(), &dispatch.text_pastes);
        send(app, AgentRequest::Chat { text, images: dispatch.images });
        proof {
            assert(app.outbox@.drop_last() =~= old(app).outbox@);
        }
    }
}

/// The state once a command that the agent runs has left.
pub open spec fn command_gone(a: App, b: App) -> App {
    App {
        composer: Composer {
            suggestion_index: None,
            input_scroll: 0,
            input_history: b.composer.input_history,
            history_index: None,
            history_draft: b.composer.history_draft,
            ..a.composer
        },
        view: TranscriptView { follow_bottom: true, pin_summary_line: None, ..a.view },
        outbox: b.outbox,
        ..a
    }
}

/// The state once a shell command has left: an open overlay closes too.
pub open spec fn shell_gone(a: App, b: App) -> App {
    command_gone(with_modal(a, Modal::Closed, b), b)
}

/// Whether the shell command `command` was sent; the transcript and the
/// history show it behind a `!`.
pub open spec fn shell_sent(a: App, r: UiRuntime, command: String, b: App, s: UiRuntime) -> bool {
    let shown = "!"@ + command@;
    let history = a.composer.input_history@;
    let new = is_new_entry(history, shown);
    &&& b == shell_gone(a, b)
    &&& fields_given_up(Modal::Closed, b)
    &&& b.composer.history_draft@ == Seq::<char>::empty()
    &&& b.composer.input_history@.len() == history.len() + (if new {
        1int
    } else {
        0int
    })
    &&& b.composer.input_history@.take(history.len() as int) == history
    &&& new ==> b.composer.input_history@.last()@ == shown
    &&& b.outbox@.len() == a.outbox@.len() + (if new {
        2int
    } else {
        1int
    })
    &&& b.outbox@.take(a.outbox@.len() as int) == a.outbox@
    &&& new ==> (b.outbox@[a.outbox@.len() as int] matches Effect::SaveHistory(entry) && entry@
        == shown)
    &&& b.outbox@.last() == Effect::Send(AgentRequest::ShellCommand { command })
    &&& appended(
        r.messages@,
        Role::User,
        shown,
        UserMessageOrigin::Shell,
        DeliveryStatus::Delivered,
        s.messages@,
    )
    &&& s.activity_status@ == "queued"@
    &&& s == (UiRuntime {
        messages: s.messages,
        is_responding: true,
        activity_status: s.activity_status,
        ..r
    })
}

/// Sends a shell command.
pub fn send_shell(app: &mut App, runtime: &mut UiRuntime, command: String)
    ensures
        shell_sent(*old(app), *old(runtime), command, *final(app), *final(runtime)),
{
    app.switch_modal(Modal::Closed);
    app.composer.suggestion_index = None;
    app.composer.input_scroll = 0;
    app.view.follow_bottom = true;
    app.view.pin_summary_line = None;
    runtime.is_responding = true;
    runtime.activity_status = "queued".to_owned();
    let mut shown: String = "!".to_owned();
    shown.append(command.as_str());
    runtime.messages.push(
        TranscriptMessage::new(Role::User, shown.clone()).with_origin(UserMessageOrigin::Shell),
    );
    app.record_input_history(shown);
    app.composer.history_draft = String::new();
    send(app, AgentRequest::ShellCommand { command });
    proof {
        let history = old(app).composer.input_history@;
        assert(app.composer.input_history@.take(history.len() as int) =~= history);
        assert(app.outbox@.take(old(app).outbox@.len() as int) =~= old(app).outbox@);
        assert(runtime.messages@.drop_last() =~= old(runtime).messages@);
    }
}

/// What a slash command does beside being shown.
pub ghost enum SlashMeaning {
    /// It goes to the agent.
    Forward,
    /// It attaches the session server at a port.
    ServeStart(u16),
    /// It detaches the session server.
    ServeStop,
    /// The server is attached already.
    ServeBusy,
}

/// The port that `/serve` names; 0 where it names none.
pub open spec fn serve_port(cmd: Seq<char>) -> u16 {
    match second_word_of(cmd) {
        Some(word) => match parsed_number(word, u16::MAX as nat) {
            Some(port) => port as u16,
            None => 0,
        },
        None => 0,
    }
}

/// What the slash command `cmd` means. `/serve` is this client's own: without
/// a port it detaches the server when one is attached.
pub open spec fn slash_meaning(cmd: Seq<char>, serving: bool) -> SlashMeaning {
    if cmd == "/serve"@ || begins_with(cmd, "/serve "@) {
        if !serving {
            SlashMeaning::ServeStart(serve_port(cmd))
        } else if cmd == "/serve"@ {
            SlashMeaning::ServeStop
        } else {
            SlashMeaning::ServeBusy
        }
    } else {
        SlashMeaning::Forward
    }
}

/// The message that answers a `/serve` that starts nothing.
pub open spec fn serve_answer(meaning: SlashMeaning) -> Option<Seq<char>> {
    match meaning {
        SlashMeaning::ServeStop => Some("Serve mode stopped."@),
        SlashMeaning::ServeBusy => Some("Serve already active. Use /serve (no port) to stop."@),
        _ => None,
    }
}

/// The effects of a slash command.
pub open spec fn slash_effects(cmd: String, meaning: SlashMeaning) -> Seq<Effect> {
    match meaning {
        SlashMeaning::Forward => seq![Effect::Send(AgentRequest::SlashCommand(cmd))],
        SlashMeaning::ServeStart(port) => seq![Effect::Serve(ServeCommand::Start(port))],
        SlashMeaning::ServeStop => seq![Effect::Serve(ServeCommand::Stop)],
        SlashMeaning::ServeBusy => Seq::empty(),
    }
}

/// Whether the slash command `cmd` was sent or carried out.
pub open spec fn slash_sent(
    a: App,
    r: UiRuntime,
    cmd: String,
    serving: bool,
    b: App,
    s: UiRuntime,
) -> bool {
    let meaning = slash_meaning(cmd@, serving);
    let count = r.messages@.len() as int;
    &&& b == command_gone(a, b)
    &&& b.composer.history_draft@ == Seq::<char>::empty()
    &&& b.composer.input_history@ == history_with(a.composer.input_history@, cmd)
    &&& b.outbox@ == outbox_with_history(a.outbox@, a.composer.input_history@, cmd) + slash_effects(
        cmd,
        meaning,
    )
    &&& appended(
        r.messages@,
        Role::User,
        cmd@,
        UserMessageOrigin::Slash,
        DeliveryStatus::Delivered,
        s.messages@.take(count + 1),
    )
    &&& match serve_answer(meaning) {
        Some(answer) => appended(
            s.messages@.take(count + 1),
            Role::Assistant,
            answer,
            UserMessageOrigin::Slash,
            DeliveryStatus::Delivered,
            s.messages@,
        ),
        None => s.messages@.len() == count + 1,
    }
    &&& s.activity_status@ == "queued"@
    &&& s == (UiRuntime {
        messages: s.messages,
        is_responding: meaning is Forward,
        activity_status: s.activity_status,
        ..r
    })
}

/// Sends or carries out a slash command. `serving` says whether the session
/// server is attached.
pub fn send_slash(app: &mut App, runtime: &mut UiRuntime, cmd: String, serving: bool)
    ensures
        slash_sent(*old(app), *old(runtime), cmd, serving, *final(app), *final(runtime)),
{
    app.composer.suggestion_index = None;
    app.composer.input_scroll = 0;
    app.view.follow_bottom = true;
    app.view.pin_summary_line = None;
    runtime.activity_status = "queued".to_owned();
    runtime.messages.push(
        TranscriptMessage::new(Role::User, cmd.clone()).with_origin(UserMessageOrigin::Slash),
    );
    let ghost shown = runtime.messages@;
    proof {
        assert(shown.drop_last() =~= old(runtime).messages@);
        assert(shown.take(shown.len() as int) =~= shown);
    }
    app.record_input_history(cmd.clone());
    app.composer.history_draft = String::new();
    let ghost recorded = app.outbox@;
    let bare: bool = same_text(cmd.as_str(), "/serve");
    if !bare && !starts_with(cmd.as_str(), "/serve ") {
        runtime.is_responding = true;
        send(app, AgentRequest::SlashCommand(cmd));
        proof {
            assert(app.outbox@ =~= recorded + slash_effects(cmd, SlashMeaning::Forward));
        }
        return ;
    }
    runtime.is_responding = false;
    if !serving {
        let port: u16 = match second_word(cmd.as_str()) {
            Some(word) => match parse_number(word.as_str(), u16::MAX as usize) {
                Some(port) => port as u16,
                None => 0,
            },
            None => 0,
        };
        app.outbox.push(Effect::Serve(ServeCommand::Start(port)));
        proof {
            assert(app.outbox@ =~= recorded + slash_effects(
                cmd,
                SlashMeaning::ServeStart(port),
            ));
        }
        return ;
    }
    let answer: String;
    if bare {
        app.outbox.push(Effect::Serve(ServeCommand::Stop));
        answer = "Serve mode stopped.".to_owned();
        proof {
            assert(app.outbox@ =~= recorded + slash_effects(cmd, SlashMeaning::ServeStop));
        }
    } else {
        answer = "Serve already active. Use /serve (no port) to stop.".to_owned();
        proof {
            assert(app.outbox@ =~= recorded + slash_effects(cmd, SlashMeaning::ServeBusy));
        }
    }
    runtime.messages.push(
        TranscriptMessage::new(Role::Assistant, answer).with_origin(UserMessageOrigin::Slash),
    );
    proof {
        assert(runtime.messages@.drop_last() =~= shown);
        assert(runtime.messages@.take(shown.len() as int) =~= shown);
    }
}

/// The message that the session server is up.
pub open spec fn serve_started_text(port: nat) -> Seq<char> {
    "Serve mode started on port "@ + decimal(port) + ". Open ws://localhost:"@ + decimal(port)
        + " in a WebSocket client."@
}

/// Reports the port that the session server listens on.
pub fn report_serving(runtime: &mut UiRuntime, port: u16)
    ensures
        appended(
            old(runtime).messages@,
            Role::Assistant,
            serve_started_text(port as nat),
            UserMessageOrigin::Slash,
            DeliveryStatus::Delivered,
            final(runtime).messages@,
        ),
        *final(runtime) == (UiRuntime { messages: final(runtime).messages, ..*old(runtime) }),
{
    let number: String = decimal_string(port as u64);
    let mut text: String = "Serve mode started on port ".to_owned();
    text.append(number.as_str());
    text.append(". Open ws://localhost:");
    text.append(number.as_str());
    text.append(" in a WebSocket client.");
    runtime.messages.push(
        TranscriptMessage::new(Role::Assistant, text).with_origin(UserMessageOrigin::Slash),
    );
    proof {
        assert(runtime.messages@.drop_last() =~= old(runtime).messages@);
    }
}

/// The texts of the queued markers, in transcript order.
pub open spec fn marker_texts(messages: Seq<TranscriptMessage>) -> Seq<Seq<char>>
    decreases messages.len(),
{
    if messages.len() == 0 {
        Seq::empty()
    } else if is_queued_marker(messages.last()) {
        marker_texts(messages.drop_last()).push(messages.last().raw@)
    } else {
        marker_texts(messages.drop_last())
    }
}

/// The texts of the queued messages, in queue order.
pub open spec fn queue_texts(queue: Seq<QueuedDispatch>) -> Seq<Seq<char>> {
    queue.map_values(|d: QueuedDispatch| d.text@)
}

/// Whether the transcript shows exactly the queued messages as markers, in
/// queue order.
pub open spec fn paired(queue: Seq<QueuedDispatch>, messages: Seq<TranscriptMessage>) -> bool {
    marker_texts(messages) == queue_texts(queue)
}

proof fn lemma_marker_texts_front(messages: Seq<TranscriptMessage>)
    requires
        messages.len() > 0,
    ensures
        marker_texts(messages) == (if is_queued_marker(messages[0]) {
            seq![messages[0].raw@]
        } else {
            Seq::empty()
        }) + marker_texts(messages.drop_first()),
    decreases messages.len(),
{
    let rest = messages.drop_first();
    let head = if is_queued_marker(messages[0]) {
        seq![messages[0].raw@]
    } else {
        Seq::empty()
    };
    if messages.len() == 1 {
        assert(rest =~= Seq::<TranscriptMessage>::empty());
        assert(messages.drop_last() =~= Seq::<TranscriptMessage>::empty());
        assert(marker_texts(messages) =~= head + marker_texts(rest));
    } else {
        lemma_marker_texts_front(messages.drop_last());
        assert(messages.drop_last().drop_first() =~= rest.drop_last());
        assert(marker_texts(messages) =~= head + marker_texts(rest));
    }
}

proof fn lemma_first_delivered(messages: Seq<TranscriptMessage>)
    ensures
        marker_texts(with_first_delivered(messages)) == (if marker_texts(messages).len() > 0 {
            marker_texts(messages).drop_first()
        } else {
            marker_texts(messages)
        }),
    decreases messages.len(),
{
    if messages.len() > 0 {
        lemma_marker_texts_front(messages);
        let after = with_first_delivered(messages);
        let rest = messages.drop_first();
        if is_queued_marker(messages[0]) {
            lemma_marker_texts_front(after);
            assert(after.drop_first() =~= rest);
            assert(marker_texts(after) =~= marker_texts(rest));
            assert(marker_texts(messages).drop_first() =~= marker_texts(rest));
        } else {
            lemma_first_delivered(rest);
            lemma_marker_texts_front(after);
            assert(after.drop_first() =~= with_first_delivered(rest));
            assert(marker_texts(messages) =~= marker_texts(rest));
            assert(marker_texts(after) =~= marker_texts(with_first_delivered(rest)));
        }
    }
}

proof fn lemma_last_removed(messages: Seq<TranscriptMessage>)
    ensures
        marker_texts(without_last_marker(messages)) == (if marker_texts(messages).len() > 0 {
            marker_texts(messages).drop_last()
        } else {
            marker_texts(messages)
        }),
    decreases messages.len(),
{
    if messages.len() > 0 {
        let rest = messages.drop_last();
        if is_queued_marker(messages.last()) {
            assert(marker_texts(messages).drop_last() =~= marker_texts(rest));
        } else {
            lemma_last_removed(rest);
            let after = without_last_marker(rest).push(messages.last());
            assert(after.drop_last() =~= without_last_marker(rest));
        }
    }
}

/// Queueing a message keeps the transcript's markers in step with the queue.
pub proof fn law_queueing_keeps_pairing(a: App, r: UiRuntime, text: String, b: App, s: UiRuntime)
    requires
        paired(a.composer.pending_dispatch@, r.messages@),
        chat_sent(a, r, text, b, s),
    ensures
        paired(b.composer.pending_dispatch@, s.messages@),
{
    let before = a.composer.pending_dispatch@;
    let after = b.composer.pending_dispatch@;
    if r.is_responding {
        assert(after =~= before.push(after.last()));
        assert(queue_texts(after) =~= queue_texts(before).push(text@));
    }
}

/// Dispatching the oldest queued message keeps the markers in step: the
/// marker that is delivered is the one of the message that was sent.
pub proof fn law_dispatch_keeps_pairing(a: App, r: UiRuntime, b: App, s: UiRuntime)
    requires
        paired(a.composer.pending_dispatch@, r.messages@),
        queue_drained(a, r, b, s),
    ensures
        paired(b.composer.pending_dispatch@, s.messages@),
{
    if queue_due(a, r) {
        lemma_first_delivered(r.messages@);
        let before = a.composer.pending_dispatch@;
        assert(queue_texts(before.drop_first()) =~= queue_texts(before).drop_first());
    }
}

/// Recalling the latest queued message keeps the markers in step: the marker
/// that goes is the one of the message that was taken back.
pub proof fn law_recall_keeps_pairing(
    a: App,
    before: Seq<TranscriptMessage>,
    b: App,
    after: Seq<TranscriptMessage>,
)
    requires
        paired(a.composer.pending_dispatch@, before),
        recalled_queued(a, before, b, after),
    ensures
        paired(b.composer.pending_dispatch@, after),
{
    let queue = a.composer.pending_dispatch@;
    if queue.len() > 0 {
        lemma_last_removed(before);
        assert(queue_texts(queue.drop_last()) =~= queue_texts(queue).drop_last());
    }
}

/// What is queued comes back by recall as it was typed, attachments included.
pub proof fn law_recall_returns_queued(
    a: App,
    r: UiRuntime,
    text: String,
    b: App,
    s: UiRuntime,
    c: App,
    after: Seq<TranscriptMessage>,
)
    requires
        r.is_responding,
        chat_sent(a, r, text, b, s),
        recalled_queued(b, s.messages@, c, after),
    ensures
        c.composer.input == text,
        c.composer.pending_images@ == a.composer.pending_images@,
        c.composer.pending_text_pastes@ == a.composer.pending_text_pastes@,
        c.composer.pending_dispatch@ == a.composer.pending_dispatch@,
        after == r.messages@,
{
}

} // verus!
