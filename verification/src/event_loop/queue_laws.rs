//! What sending is for: what the user submits reaches the agent, at once or
//! later, as it was submitted.
use crate::agent::AgentRequest;
use crate::app::App;
use crate::app::Effect;
use crate::app::ServeCommand;
use crate::attachments::ImagePart;
use crate::document::DeliveryStatus;
use crate::document::Role;
use crate::document::TranscriptMessage;
use crate::document::UserMessageOrigin;
use crate::event_loop::dispatch::carried_out;
use crate::event_loop::dispatch::on_sending;
use crate::event_loop::dispatch::ActionFacts;
use crate::event_loop::frame::frame_begun;
use crate::event_loop::frame::overlays_synced;
use crate::event_loop::frame::signals_taken;
use crate::event_loop::frame::tick_passed;
use crate::event_loop::frame::transcript_taken;
use crate::event_loop::scrolling::view_followed;
use crate::event_loop::sending::queue_drained;
use crate::event_loop::sending::with_first_delivered;
use crate::event_loop::UiRuntime;
use crate::input::InputAction;
use crate::modal::Modal;
use crate::staging::law_plain_text_unchanged;
use crate::text::decimal;
use crate::text::is_blank;
use crate::text::is_digit;
use crate::text::law_parse_undoes_decimal;
use crate::text::lemma_decimal_digits;
use crate::text::lemma_leading_blanks_unique;
use crate::text::word_len;
use crate::text_laws::is_word;
use crate::text_laws::law_number_is_read;
use crate::text_laws::law_second_word;
use vstd::prelude::*;

verus! {

/// Whether `after` is `before` and something behind it.
pub open spec fn continues(before: Seq<Effect>, after: Seq<Effect>) -> bool {
    &&& before.len() <= after.len()
    &&& forall|k: int| 0 <= k < before.len() ==> #[trigger] after[k] == before[k]
}

/// The text of a chat request.
pub open spec fn chat_text(effect: Effect) -> Seq<char> {
    match effect {
        Effect::Send(AgentRequest::Chat { text, .. }) => text@,
        _ => Seq::empty(),
    }
}

/// The images of a chat request.
pub open spec fn chat_images(effect: Effect) -> Seq<ImagePart> {
    match effect {
        Effect::Send(AgentRequest::Chat { images, .. }) => images@,
        _ => Seq::empty(),
    }
}

/// Whether an effect is a chat request.
pub open spec fn is_chat(effect: Effect) -> bool {
    effect matches Effect::Send(AgentRequest::Chat { .. })
}

/// Whether `after` shows one more message of the user.
pub open spec fn user_message_added(
    before: Seq<TranscriptMessage>,
    text: Seq<char>,
    origin: UserMessageOrigin,
    delivery: DeliveryStatus,
    after: Seq<TranscriptMessage>,
) -> bool {
    &&& after.len() == before.len() + 1
    &&& forall|k: int| 0 <= k < before.len() ==> #[trigger] after[k] == before[k]
    &&& after.last().role == Role::User
    &&& after.last().raw@ == text
    &&& after.last().kind is Text
    &&& after.last().origin == origin
    &&& after.last().delivery == delivery
}

proof fn lemma_user_message_added(before: Seq<TranscriptMessage>, after: Seq<TranscriptMessage>)
    requires
        after.len() == before.len() + 1,
        after.drop_last() == before,
    ensures
        forall|k: int| 0 <= k < before.len() ==> #[trigger] after[k] == before[k],
{
    assert forall|k: int| 0 <= k < before.len() implies #[trigger] after[k] == before[k] by {
        assert(after.drop_last()[k] == after[k]);
    }
}

proof fn lemma_continues(before: Seq<Effect>, mid: Seq<Effect>, after: Seq<Effect>)
    requires
        continues(before, mid),
        after.len() == mid.len() + 1,
        after.drop_last() == mid,
    ensures
        continues(before, after),
{
    assert forall|k: int| 0 <= k < before.len() implies #[trigger] after[k] == before[k] by {
        assert(after.drop_last()[k] == after[k]);
        assert(mid[k] == before[k]);
    }
}

/// A prompt that is submitted while no turn runs goes to the agent at once, with
/// every staged image; it shows in the transcript, its attachments are used up,
/// and the client is busy. A prompt without chips is sent word for word.
pub proof fn law_idle_prompt_is_sent(
    a: App,
    r: UiRuntime,
    text: String,
    facts: ActionFacts,
    b: App,
    s: UiRuntime,
)
    requires
        !r.is_responding,
        text@.len() > 0 || a.composer.pending_images@.len() > 0,
        carried_out(a, r, InputAction::SendChat(text), facts, b, s),
    ensures
        continues(a.outbox@, b.outbox@),
        is_chat(b.outbox@.last()),
        chat_images(b.outbox@.last()) == a.composer.pending_images@,
        (forall|k: int| 0 <= k < text@.len() ==> text@[k] != '[') ==> chat_text(b.outbox@.last())
            == text@,
        user_message_added(
            r.messages@,
            text@,
            UserMessageOrigin::Chat,
            DeliveryStatus::Delivered,
            s.messages@,
        ),
        b.composer.pending_images@.len() == 0,
        b.composer.pending_text_pastes@.len() == 0,
        b.composer.pending_dispatch == a.composer.pending_dispatch,
        b.overlay.active_modal == Modal::Closed,
        b.view.follow_bottom,
        s.is_responding,
        s.activity_status@ == "queued"@,
{
    reveal(on_sending);
    lemma_user_message_added(r.messages@, s.messages@);
    let recorded = b.outbox@.drop_last();
    assert(continues(a.outbox@, recorded));
    lemma_continues(a.outbox@, recorded, b.outbox@);
    if forall|k: int| 0 <= k < text@.len() ==> text@[k] != '[' {
        law_plain_text_unchanged(
            text@,
            0,
            Seq::empty(),
            Seq::empty(),
            a.composer.pending_text_pastes@,
        );
        assert(text@.skip(0) =~= text@);
    }
}

/// A prompt that is submitted while a turn runs waits behind those that wait
/// already, with its attachments; nothing is sent, and the transcript shows it as
/// waiting.
pub proof fn law_busy_prompt_waits(
    a: App,
    r: UiRuntime,
    text: String,
    facts: ActionFacts,
    b: App,
    s: UiRuntime,
)
    requires
        r.is_responding,
        text@.len() > 0 || a.composer.pending_images@.len() > 0,
        carried_out(a, r, InputAction::SendChat(text), facts, b, s),
    ensures
        forall|k: int|
            a.outbox@.len() <= k < b.outbox@.len() ==> (#[trigger] b.outbox@[k]) is SaveHistory,
        b.composer.pending_dispatch@.len() == a.composer.pending_dispatch@.len() + 1,
        b.composer.pending_dispatch@.drop_last() == a.composer.pending_dispatch@,
        b.composer.pending_dispatch@.last().text == text,
        b.composer.pending_dispatch@.last().images@ == a.composer.pending_images@,
        b.composer.pending_dispatch@.last().text_pastes@ == a.composer.pending_text_pastes@,
        user_message_added(
            r.messages@,
            text@,
            UserMessageOrigin::Chat,
            DeliveryStatus::Queued,
            s.messages@,
        ),
        b.composer.pending_images@.len() == 0,
        b.composer.pending_text_pastes@.len() == 0,
        s.is_responding,
{
    reveal(on_sending);
    lemma_user_message_added(r.messages@, s.messages@);
}

/// A prompt that waited reaches the agent as the request that it would have been
/// had it been sent at once: the same text and the same images.
pub proof fn law_queued_prompt_arrives_unchanged(
    a: App,
    busy: UiRuntime,
    idle: UiRuntime,
    text: String,
    facts: ActionFacts,
    b: App,
    s: UiRuntime,
    c: App,
    t: UiRuntime,
    d: App,
    u: UiRuntime,
    e: App,
    v: UiRuntime,
)
    requires
        busy.is_responding,
        !idle.is_responding,
        text@.len() > 0 || a.composer.pending_images@.len() > 0,
        carried_out(a, busy, InputAction::SendChat(text), facts, b, s),
        c.composer.pending_dispatch@.len() > 0,
        c.composer.pending_dispatch@[0] == b.composer.pending_dispatch@.last(),
        !t.is_responding,
        c.session.loop_status@ == "idle"@,
        queue_drained(c, t, d, u),
        carried_out(a, idle, InputAction::SendChat(text), facts, e, v),
    ensures
        is_chat(d.outbox@.last()),
        is_chat(e.outbox@.last()),
        chat_text(d.outbox@.last()) == chat_text(e.outbox@.last()),
        chat_images(d.outbox@.last()) == chat_images(e.outbox@.last()),
        chat_images(d.outbox@.last()) == a.composer.pending_images@,
        d.outbox@.drop_last() == c.outbox@,
        u.is_responding,
{
    reveal(on_sending);
}

/// Whether sending sees the same state.
spec fn same_to_send(a: App, b: App) -> bool {
    &&& b.composer == a.composer
    &&& b.outbox == a.outbox
    &&& b.session.loop_status == a.session.loop_status
}

proof fn lemma_synced(a: App, r: UiRuntime, b: App)
    requires
        overlays_synced(a, r, b),
    ensures
        same_to_send(a, b),
{
}

proof fn lemma_aged(a: App, responding: bool, now: u64, b: App)
    requires
        tick_passed(a, responding, now, b),
    ensures
        same_to_send(a, b),
{
}

proof fn lemma_taken(a: App, r: UiRuntime, b: App)
    requires
        transcript_taken(a, r, b),
    ensures
        same_to_send(a, b),
{
}

proof fn lemma_frame_steps(a: App, r: UiRuntime, now: u64, b: App, s: UiRuntime) -> (steps: (
    App,
    App,
))
    requires
        frame_begun(a, r, now, b, s),
    ensures
        steps.0.composer == a.composer,
        steps.0.outbox == a.outbox,
        steps.0.session.loop_status == a.session.loop_status,
        queue_drained(steps.0, signals_taken(r), steps.1, s),
        b == (App { view: view_followed(steps.1.view), ..steps.1 }),
{
    let (synced, aged, taken, sent) = choose|synced: App, aged: App, taken: App, sent: App|
        {
            &&& overlays_synced(a, r, synced)
            &&& #[trigger] tick_passed(synced, r.is_responding, now, aged)
            &&& #[trigger] transcript_taken(aged, r, taken)
            &&& #[trigger] queue_drained(taken, signals_taken(r), sent, s)
            &&& b == (App { view: view_followed(sent.view), ..sent })
        };
    lemma_synced(a, r, synced);
    lemma_aged(synced, r.is_responding, now, aged);
    lemma_taken(aged, r, taken);
    (taken, sent)
}

/// Once the turn is over, the next frame sends the message that has waited
/// longest, and the others wait on in their order; a message without chips is
/// sent word for word.
pub proof fn law_frame_sends_oldest(a: App, r: UiRuntime, now: u64, b: App, s: UiRuntime)
    requires
        !r.is_responding,
        a.session.loop_status@ == "idle"@,
        a.composer.pending_dispatch@.len() > 0,
        frame_begun(a, r, now, b, s),
    ensures
        ({
            let first = a.composer.pending_dispatch@[0];
            &&& b.outbox@.len() == a.outbox@.len() + 1
            &&& b.outbox@.drop_last() == a.outbox@
            &&& is_chat(b.outbox@.last())
            &&& chat_images(b.outbox@.last()) == first.images@
            &&& (forall|k: int| 0 <= k < first.text@.len() ==> first.text@[k] != '[')
                ==> chat_text(b.outbox@.last()) == first.text@
            &&& b.composer.pending_dispatch@.len() == a.composer.pending_dispatch@.len() - 1
            &&& forall|k: int|
                0 <= k < b.composer.pending_dispatch@.len() ==> #[trigger] b.composer.pending_dispatch@[k]
                    == a.composer.pending_dispatch@[k + 1]
            &&& s.is_responding
            &&& s.messages@.len() == r.messages@.len()
        }),
{
    let (taken, sent) = lemma_frame_steps(a, r, now, b, s);
    let first = a.composer.pending_dispatch@[0];
    lemma_first_delivered_len(r.messages@);
    if forall|k: int| 0 <= k < first.text@.len() ==> first.text@[k] != '[' {
        law_plain_text_unchanged(
            first.text@,
            0,
            Seq::empty(),
            Seq::empty(),
            first.text_pastes@,
        );
        assert(first.text@.skip(0) =~= first.text@);
    }
}

proof fn lemma_first_delivered_len(messages: Seq<TranscriptMessage>)
    ensures
        crate::event_loop::sending::with_first_delivered(messages).len() == messages.len(),
    decreases messages.len(),
{
    if messages.len() > 0 {
        lemma_first_delivered_len(messages.drop_first());
    }
}

/// While a turn runs, or the agent is not idle, or nothing waits, a frame sends
/// nothing and every message waits on.
pub proof fn law_frame_sends_nothing_else(a: App, r: UiRuntime, now: u64, b: App, s: UiRuntime)
    requires
        r.is_responding || a.session.loop_status@ != "idle"@
            || a.composer.pending_dispatch@.len() == 0,
        frame_begun(a, r, now, b, s),
    ensures
        b.outbox == a.outbox,
        b.composer.pending_dispatch == a.composer.pending_dispatch,
        s.messages == r.messages,
        s.is_responding == r.is_responding,
{
    let (taken, sent) = lemma_frame_steps(a, r, now, b, s);
}

/// Recalling takes the message back that was queued last, with its text and its
/// attachments; the others wait on, and nothing is sent.
pub proof fn law_recall_takes_back_newest(
    a: App,
    r: UiRuntime,
    facts: ActionFacts,
    b: App,
    s: UiRuntime,
)
    requires
        a.composer.pending_dispatch@.len() > 0,
        carried_out(a, r, InputAction::RecallQueued, facts, b, s),
    ensures
        ({
            let last = a.composer.pending_dispatch@.last();
            &&& b.composer.input == last.text
            &&& b.composer.cursor_position == last.text@.len() as usize
            &&& last.images@.len() > 0 ==> b.composer.pending_images == last.images
            &&& last.text_pastes@.len() > 0 ==> b.composer.pending_text_pastes == last.text_pastes
            &&& last.images@.len() == 0 ==> b.composer.pending_images == a.composer.pending_images
            &&& last.text_pastes@.len() == 0 ==> b.composer.pending_text_pastes
                == a.composer.pending_text_pastes
            &&& b.composer.history_index is None
            &&& b.composer.completion_dismissed
            &&& b.composer.input_history == a.composer.input_history
            &&& b.composer.pending_dispatch@ == a.composer.pending_dispatch@.drop_last()
            &&& b.outbox == a.outbox
            &&& s.is_responding == r.is_responding
        }),
{
    reveal(on_sending);
}

/// A shell command goes to the agent as it is; the transcript and the history
/// show it behind a `!`.
pub proof fn law_shell_command_is_sent(
    a: App,
    r: UiRuntime,
    command: String,
    facts: ActionFacts,
    b: App,
    s: UiRuntime,
)
    requires
        carried_out(a, r, InputAction::SendShell(command), facts, b, s),
    ensures
        continues(a.outbox@, b.outbox@),
        b.outbox@.last() == Effect::Send(AgentRequest::ShellCommand { command }),
        user_message_added(
            r.messages@,
            "!"@ + command@,
            UserMessageOrigin::Shell,
            DeliveryStatus::Delivered,
            s.messages@,
        ),
        b.composer.input_history@.len() > 0,
        b.composer.input_history@.last()@ == "!"@ + command@,
        s.is_responding,
{
    reveal(on_sending);
    reveal_strlit("!");
    lemma_user_message_added(r.messages@, s.messages@);
    let n = a.outbox@.len() as int;
    assert forall|k: int| 0 <= k < n implies #[trigger] b.outbox@[k] == a.outbox@[k] by {
        assert(b.outbox@.take(n)[k] == b.outbox@[k]);
    }
    let m = a.composer.input_history@.len() as int;
    assert(("!"@ + command@).len() > 0);
    if b.composer.input_history@.len() == m {
        assert(b.composer.input_history@.take(m) =~= b.composer.input_history@);
    }
}

/// A command goes to the agent as it is typed, unless it is this client's own
/// `/serve`; either way the transcript and the history show it.
pub proof fn law_slash_command_is_sent(
    a: App,
    r: UiRuntime,
    cmd: String,
    facts: ActionFacts,
    b: App,
    s: UiRuntime,
)
    requires
        carried_out(a, r, InputAction::SendSlash(cmd), facts, b, s),
        cmd@.len() > 0,
    ensures
        continues(a.outbox@, b.outbox@),
        b.composer.input_history@.len() > 0,
        b.composer.input_history@.last()@ == cmd@,
        r.messages@.len() < s.messages@.len(),
        s.messages@[r.messages@.len() as int].raw@ == cmd@,
        s.messages@[r.messages@.len() as int].origin == UserMessageOrigin::Slash,
        s.messages@[r.messages@.len() as int].role == Role::User,
        forall|k: int|
            0 <= k < r.messages@.len() ==> #[trigger] s.messages@[k] == r.messages@[k],
        cmd@ != "/serve"@ && !(cmd@.len() >= 7 && cmd@.take(7) == "/serve "@) ==> {
            &&& b.outbox@.last() == Effect::Send(AgentRequest::SlashCommand(cmd))
            &&& s.is_responding
            &&& s.messages@.len() == r.messages@.len() + 1
        },
        cmd@ == "/serve"@ && facts.serving ==> {
            &&& b.outbox@.last() == Effect::Serve(ServeCommand::Stop)
            &&& !s.is_responding
            &&& s.messages@.last().raw@ == "Serve mode stopped."@
        },
        cmd@ == "/serve"@ && !facts.serving ==> {
            &&& b.outbox@.last() == Effect::Serve(ServeCommand::Start(0))
            &&& !s.is_responding
        },
{
    reveal(on_sending);
    reveal_strlit("/serve ");
    reveal_strlit("/serve");
    let n = r.messages@.len() as int;
    let shown = s.messages@.take(n + 1);
    assert(shown.drop_last() == r.messages@);
    assert forall|k: int| 0 <= k < n implies #[trigger] s.messages@[k] == r.messages@[k] by {
        assert(shown.drop_last()[k] == s.messages@[k]);
    }
    assert(s.messages@[n] == shown.last());
    if cmd@ != "/serve"@ && !(cmd@.len() >= 7 && cmd@.take(7) == "/serve "@) {
        assert(cmd@.len() >= 7 ==> cmd@.subrange(0, 7) =~= cmd@.take(7));
    }
    if cmd@ == "/serve"@ && !facts.serving {
        lemma_one_word(cmd@);
    }
}

/// A port named behind `/serve` is the one that the server is to listen on.
pub proof fn law_serve_starts_at_port(
    a: App,
    r: UiRuntime,
    cmd: String,
    port: u16,
    facts: ActionFacts,
    b: App,
    s: UiRuntime,
)
    requires
        carried_out(a, r, InputAction::SendSlash(cmd), facts, b, s),
        cmd@ == "/serve "@ + decimal(port as nat),
        !facts.serving,
    ensures
        b.outbox@.last() == Effect::Serve(ServeCommand::Start(port)),
        !s.is_responding,
{
    reveal(on_sending);
    reveal_strlit("/serve ");
    reveal_strlit("/serve");
    let digits = decimal(port as nat);
    lemma_decimal_digits(port as nat);
    assert(cmd@.subrange(0, 7) =~= "/serve "@);
    lemma_leading_blanks_unique(cmd@, 0);
    assert(cmd@.skip(0) =~= cmd@);
    assert forall|i: int| 0 <= i < 6 implies !is_blank(#[trigger] cmd@[i]) by {
        assert(cmd@[i] == "/serve "@[i]);
    }
    assert(cmd@[6] == "/serve "@[6]);
    lemma_word_len(cmd@, 6);
    let tail = cmd@.skip(6);
    assert(tail[0] == ' ');
    assert forall|i: int| 1 <= i < tail.len() implies tail[i] == digits[i - 1] by {}
    assert(is_digit(digits[0]));
    assert(tail[1] == digits[0]);
    lemma_leading_blanks_unique(tail, 1);
    assert(tail.skip(1) =~= digits);
    assert forall|i: int| 0 <= i < digits.len() implies !is_blank(#[trigger] digits[i]) by {
        assert(is_digit(digits[i]));
    }
    lemma_word_len(digits, digits.len() as int);
    assert(digits.take(digits.len() as int) =~= digits);
    law_parse_undoes_decimal(port as nat, u16::MAX as nat);
}

/// A run without blanks that ends at a blank or at the end is the first word.
proof fn lemma_word_len(s: Seq<char>, k: int)
    requires
        0 <= k <= s.len(),
        forall|i: int| 0 <= i < k ==> !is_blank(#[trigger] s[i]),
        k < s.len() ==> is_blank(s[k]),
    ensures
        word_len(s) == k,
    decreases s.len(),
{
    if k > 0 {
        assert(!is_blank(s[0]));
        let rest = s.drop_first();
        assert forall|i: int| 0 <= i < k - 1 implies !is_blank(#[trigger] rest[i]) by {
            assert(rest[i] == s[i + 1]);
        }
        if k < s.len() {
            assert(rest[k - 1] == s[k]);
        }
        lemma_word_len(rest, k - 1);
    }
}

proof fn lemma_one_word(cmd: Seq<char>)
    requires
        cmd == "/serve"@,
    ensures
        crate::event_loop::sending::serve_port(cmd) == 0,
{
    reveal_strlit("/serve");
    lemma_leading_blanks_unique(cmd, 0);
    assert(cmd.skip(0) =~= cmd);
    lemma_word_len(cmd, 6);
    let rest = cmd.skip(6);
    assert(rest =~= Seq::<char>::empty());
    lemma_leading_blanks_unique(rest, 0);
    assert(rest.skip(0) =~= rest);
}

/// The message that a frame sends is the one whose marker comes first in the
/// transcript: it is shown as delivered, and every other message stays.
pub proof fn law_first_marker_is_delivered(messages: Seq<TranscriptMessage>, i: int)
    requires
        0 <= i < messages.len(),
        messages[i].role == Role::User,
        messages[i].delivery == DeliveryStatus::Queued,
        forall|k: int|
            0 <= k < i ==> !((#[trigger] messages[k]).role == Role::User && messages[k].delivery
                == DeliveryStatus::Queued),
    ensures
        with_first_delivered(messages) == messages.update(
            i,
            TranscriptMessage { delivery: DeliveryStatus::Delivered, ..messages[i] },
        ),
    decreases messages.len(),
{
    let done = TranscriptMessage { delivery: DeliveryStatus::Delivered, ..messages[i] };
    if i > 0 {
        let rest = messages.drop_first();
        assert forall|k: int| 0 <= k < i - 1 implies !((#[trigger] rest[k]).role == Role::User
            && rest[k].delivery == DeliveryStatus::Queued) by {
            assert(rest[k] == messages[k + 1]);
        }
        assert(rest[i - 1] == messages[i]);
        law_first_marker_is_delivered(rest, i - 1);
        assert(!(messages[0].role == Role::User && messages[0].delivery
            == DeliveryStatus::Queued));
        assert(seq![messages[0]] + rest.update(i - 1, done) =~= messages.update(i, done));
    }
}

/// While the server runs, `/serve` with a port starts nothing: the user is told how
/// to stop it.
pub proof fn law_busy_server_is_kept(
    a: App,
    r: UiRuntime,
    cmd: String,
    word: Seq<char>,
    facts: ActionFacts,
    b: App,
    s: UiRuntime,
)
    requires
        carried_out(a, r, InputAction::SendSlash(cmd), facts, b, s),
        cmd@ == "/serve "@ + word,
        facts.serving,
    ensures
        b.outbox@ == a.outbox@ || b.outbox@ == a.outbox@.push(Effect::SaveHistory(cmd)),
        s.messages@.len() == r.messages@.len() + 2,
        s.messages@.last().raw@ == "Serve already active. Use /serve (no port) to stop."@,
        s.messages@.last().role == Role::Assistant,
        !s.is_responding,
{
    reveal(on_sending);
    reveal_strlit("/serve ");
    reveal_strlit("/serve");
    assert(cmd@.subrange(0, 7) =~= "/serve "@);
    assert(cmd@.len() >= 7);
    assert(a.outbox@ + Seq::<Effect>::empty() =~= a.outbox@);
    let saved = a.outbox@.push(Effect::SaveHistory(cmd));
    assert(saved + Seq::<Effect>::empty() =~= saved);
}

/// A word that is no port lets the server choose one.
pub proof fn law_serve_without_port(
    a: App,
    r: UiRuntime,
    cmd: String,
    word: Seq<char>,
    i: int,
    facts: ActionFacts,
    b: App,
    s: UiRuntime,
)
    requires
        carried_out(a, r, InputAction::SendSlash(cmd), facts, b, s),
        cmd@ == "/serve "@ + word,
        is_word(word),
        0 < i < word.len(),
        !('0' <= word[i] <= '9'),
        !facts.serving,
    ensures
        b.outbox@.last() == Effect::Serve(ServeCommand::Start(0)),
        !s.is_responding,
{
    reveal(on_sending);
    reveal_strlit("/serve ");
    reveal_strlit("/serve");
    assert(cmd@.subrange(0, 7) =~= "/serve "@);
    let first = "/serve"@;
    assert forall|k: int| 0 <= k < first.len() implies !is_blank(#[trigger] first[k]) by {}
    let gap = seq![' '];
    assert(cmd@ =~= Seq::<char>::empty() + first + gap + word + Seq::<char>::empty());
    law_second_word(Seq::empty(), first, gap, word, Seq::empty());
    law_number_is_read(0, u16::MAX as nat, word, i);
}

} // verus!
