//! Handling a player's input: reserved commands, summarization of long
//! histories, and the exchange with the model, as a state machine.
//!
//! Handling starts with [`user_prompt`]. Each step hands back an [`Action`]:
//! either a list of messages to send to the model, or the text to give the
//! player. After a chat call, the model's reply goes to [`on_chat_reply`]
//! together with the [`Pending`] state, until a reply to the player comes out.
//! The store changes only in the last step of a turn, so a failed chat call
//! leaves it as it was.
use crate::conversation::{
    exchange, history_view, render_history, summary_entry, EntryView, SingleConversation,
};
use crate::message::{messages_view, ChatMessage, MessageView};
use crate::prompts::{
    build_conversation_context, build_initial_prompt, continuation_prompt, history_too_long,
    initial_prompt, prepare_summarization_prompt, summarization_prompt, too_long, START_GAME_PHRASE,
};
use crate::store::{get_history, history_of, update_history, ConversationStore, StoreView, UserId};
use vstd::prelude::*;

verus! {

/// The input that starts a game.
pub const START_COMMAND: &'static str = "/start";

/// The input that asks what the game is.
pub const ABOUT_COMMAND: &'static str = "/about";

/// The answer to the about command.
pub const ABOUT_TEXT: &'static str = "This is an interactive game where historical settings are blended with creative twists, that depends on you to decide. Build on ICP, and it is available at https://github.com/muhrifqii/dHisStoryGameAI";

/// What an input asks for.
#[derive(Clone, Copy, Debug, PartialEq, Eq, Structural)]
pub enum Command {
    /// Start the game with the model's greeting.
    Start,
    /// Describe the game.
    About,
    /// Anything else: a turn of the conversation.
    Conversation,
}

/// Commands are recognized by exact, case-sensitive match.
pub open spec fn command_of(input: Seq<char>) -> Command {
    if input == START_COMMAND@ {
        Command::Start
    } else if input == ABOUT_COMMAND@ {
        Command::About
    } else {
        Command::Conversation
    }
}

/// Tells which command, if any, `input` is.
pub fn parse_command(input: &str) -> (r: Command)
    ensures
        r == command_of(input@),
{
    let text = input.to_owned();
    if text == START_COMMAND.to_owned() {
        Command::Start
    } else if text == ABOUT_COMMAND.to_owned() {
        Command::About
    } else {
        Command::Conversation
    }
}

/// What a turn waits for while the model is asked.
pub ghost enum PendingView {
    Greeting { user: Seq<u8> },
    Summarizing { user: Seq<u8>, input: Seq<char> },
    Responding { user: Seq<u8>, input: Seq<char>, history: Seq<EntryView> },
}

/// A turn that waits for the model's reply.
pub enum Pending {
    /// The game-start prompt was sent; the reply greets `user`.
    Greeting { user: UserId },
    /// A summary of the history of `user` was asked for, before `input` is answered.
    Summarizing { user: UserId, input: String },
    /// `input` was sent with `history` as context; the reply answers it.
    Responding { user: UserId, input: String, history: Vec<SingleConversation> },
}

impl View for Pending {
    type V = PendingView;

    open spec fn view(&self) -> PendingView {
        match self {
            Pending::Greeting { user } => PendingView::Greeting { user: user@ },
            Pending::Summarizing { user, input } => PendingView::Summarizing {
                user: user@,
                input: input@,
            },
            Pending::Responding { user, input, history } => PendingView::Responding {
                user: user@,
                input: input@,
                history: history_view(history@),
            },
        }
    }
}

/// What is to be done next.
pub ghost enum ActionView {
    Chat(Seq<MessageView>),
    Reply(Seq<char>),
}

/// What the caller is to do next.
pub enum Action {
    /// Send these messages to the model and hand its reply back.
    Chat(Vec<ChatMessage>),
    /// Give this text to the player; the turn is over.
    Reply(String),
}

impl View for Action {
    type V = ActionView;

    open spec fn view(&self) -> ActionView {
        match self {
            Action::Chat(msgs) => ActionView::Chat(messages_view(msgs@)),
            Action::Reply(text) => ActionView::Reply(text@),
        }
    }
}

/// The view of an optional pending turn.
pub open spec fn pending_view(p: Option<Pending>) -> Option<PendingView> {
    match p {
        Some(p) => Some(p@),
        None => None,
    }
}

/// The next step of a conversation turn on `history`: ask for a summary
/// when the history is too long, else ask for the answer to `input`.
pub open spec fn turn_model(history: Seq<EntryView>, user: Seq<u8>, input: Seq<char>) -> (
    PendingView,
    Seq<MessageView>,
) {
    if too_long(history.len()) {
        (PendingView::Summarizing { user, input }, summarization_prompt(render_history(history)))
    } else {
        (
            PendingView::Responding { user, input, history },
            continuation_prompt(render_history(history), input),
        )
    }
}

/// The first step of handling `input` from `user`.
pub open spec fn begin_model(store: StoreView, user: Seq<u8>, input: Seq<char>) -> (
    Option<PendingView>,
    ActionView,
) {
    match command_of(input) {
        Command::Start => (Some(PendingView::Greeting { user }), ActionView::Chat(initial_prompt())),
        Command::About => (None, ActionView::Reply(ABOUT_TEXT@)),
        Command::Conversation => {
            let (p, msgs) = turn_model(history_of(store, user), user, input);
            (Some(p), ActionView::Chat(msgs))
        },
    }
}

/// The step taken on the model's `reply` to what `pending` asked: the
/// store after it, what is pending then, and what is to be done.
pub open spec fn reply_model(store: StoreView, pending: PendingView, reply: Seq<char>) -> (
    StoreView,
    Option<PendingView>,
    ActionView,
) {
    match pending {
        PendingView::Greeting { user } => {
            let seeded = if history_of(store, user).len() == 0 {
                store.insert(user, seq![exchange(START_GAME_PHRASE@, reply)])
            } else {
                store
            };
            (seeded, None, ActionView::Reply(reply))
        },
        PendingView::Summarizing { user, input } => {
            let history = seq![summary_entry(reply)];
            (
                store,
                Some(PendingView::Responding { user, input, history }),
                ActionView::Chat(continuation_prompt(render_history(history), input)),
            )
        },
        PendingView::Responding { user, input, history } => (
            store.insert(user, history.push(exchange(input, reply))),
            None,
            ActionView::Reply(reply),
        ),
    }
}

/// Decides the next step of a conversation turn for `user` on `history`:
/// a summary is asked for first when the history is past the threshold.
pub fn continue_conversation(history: Vec<SingleConversation>, user: UserId, input: &str) -> (r: (
    Pending,
    Vec<ChatMessage>,
))
    ensures
        (r.0@, messages_view(r.1@)) == turn_model(history_view(history@), user@, input@),
{
    if history_too_long(&history) {
        let msgs = prepare_summarization_prompt(&history);
        (Pending::Summarizing { user, input: input.to_owned() }, msgs)
    } else {
        let msgs = build_conversation_context(&history, input);
        (Pending::Responding { user, input: input.to_owned(), history }, msgs)
    }
}

/// Starts handling `input` from `user`: the about command is answered at
/// once, the start command asks the model for a greeting, and any other
/// input begins a conversation turn. The store is only read.
pub fn user_prompt(store: &ConversationStore, user: &UserId, input: &str) -> (r: (
    Option<Pending>,
    Action,
))
    requires
        store.wf(),
    ensures
        (pending_view(r.0), r.1@) == begin_model(store@, user@, input@),
{
    match parse_command(input) {
        Command::Start => {
            let msgs = build_initial_prompt();
            (Some(Pending::Greeting { user: user.copy() }), Action::Chat(msgs))
        },
        Command::About => (None, Action::Reply(ABOUT_TEXT.to_owned())),
        Command::Conversation => {
            let history = get_history(store, user);
            let (pending, msgs) = continue_conversation(history, user.copy(), input);
            (Some(pending), Action::Chat(msgs))
        },
    }
}

/// Takes the model's `reply` to what `pending` asked. A greeting is stored
/// as the first exchange of a user without history; a summary replaces the
/// whole history before the input is sent again with it; an answer is
/// appended to the history, which is then stored.
pub fn on_chat_reply(store: &mut ConversationStore, pending: Pending, reply: &str) -> (r: (
    Option<Pending>,
    Action,
))
    requires
        old(store).wf(),
    ensures
        final(store).wf(),
        (final(store)@, pending_view(r.0), r.1@) == reply_model(old(store)@, pending@, reply@),
{
    match pending {
        Pending::Greeting { user } => {
            let history = get_history(store, &user);
            if history.len() == 0 {
                let seed = vec![SingleConversation::new(START_GAME_PHRASE, reply)];
                assert(history_view(seed@) =~= seq![exchange(START_GAME_PHRASE@, reply@)]);
                update_history(store, user, seed);
            }
            (None, Action::Reply(reply.to_owned()))
        },
        Pending::Summarizing { user, input } => {
            let history = vec![SingleConversation::new_summary(reply)];
            assert(history_view(history@) =~= seq![summary_entry(reply@)]);
            let msgs = build_conversation_context(&history, input.as_str());
            (Some(Pending::Responding { user, input, history }), Action::Chat(msgs))
        },
        Pending::Responding { user, input, history } => {
            let mut history = history;
            let ghost before = history_view(history@);
            history.push(SingleConversation::new(input.as_str(), reply));
            assert(history_view(history@) =~= before.push(exchange(input@, reply@)));
            update_history(store, user, history);
            (None, Action::Reply(reply.to_owned()))
        },
    }
}

} // verus!
