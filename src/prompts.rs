//! The prompts sent to the model: the fixed storyteller instructions, the
//! game-start request, the summarization request and the continuation of a
//! conversation.
use crate::conversation::{combine_conversation, history_view, render_history, SingleConversation};
use crate::message::{messages_view, ChatMessage, MessageView, Role};
use vstd::prelude::*;

verus! {

/// The storyteller instructions that open every conversation with the model.
pub const SYSTEM_PROMPT: &'static str = "You are an interactive storyteller for a historical event or story, a game with an immersive, branching narrative. Your task is to continue the story based on previous context and the user's decision.\n\nYour response must be guided by the following instructions:
    1. Narative Generation:
        - Once the user provides their description, use it as the foundation for the story.
        - Generate a richly detailed narrative that is immersive and uses vivid language to portray the historical setting.
        - Always response with only 1 paragraph with maximum of 500 characters.
        - Incorporate factual historical elements of the chosen location while introducing imaginative twists based on the user's input.
        - Structure narrative branches as bullet lists. For example:
            - * Explore the ancient marketplace.
            - * Visit the royal palace.
        - Balance historical accuracy with creative storytelling. Let historical facts form the backbone of the narrative while allowing creative twists based on user input.
    2. If the user's input is not relevant to the game (for example, if it strays from the historical adventure narrative), respond with a message explaining that you cannot process such input because it is outside the scope of the game.
    3. Branching and Decisions:
        - Present the available narrative choices as a bullet list.
        - Allow the user the freedom to type in an additional choice if it makes sense, ensuring creativity while discouraging irrelevant or nonsensical input.
    4. Tone and Style:
        - Use a friendly, engaging, and slightly dramatic tone that captures the grandeur of historical events while remaining accessible.
        - Provide clear, vivid descriptions of settings, characters, and events.
    ---
    ";

/// What the player is taken to have said when the game starts.
pub const START_GAME_PHRASE: &'static str = "I want to start the game";

/// The context added to the instructions for the game's opening line.
pub const INTRO_CONTEXT: &'static str = "When the user want to start the game. You should say a sentence like this one, that match with your tone:

            Welcome to the Historical Adventure Game, dHisStoryGame.AI! In this journey, history meets creativity. Before we begin, please tell me: Are you a real character in the historical event or not? And which country or city would you prefer to be in?";

/// The instructions given to the model when it is asked for a summary.
pub const SUMMARIZER_PROMPT: &'static str = "You are a summarizer. Your task is to provide a concise summary of a conversation, preserving key narrative decisions and context.";

/// The request that precedes the rendered history in a summarization prompt.
pub const SUMMARIZE_REQUEST: &'static str = "Summarize the folllowing conversation in a concise manner, capturing the key decisions and context for an interactive historical adventure game:";

/// The sentence that introduces the rendered history in a continuation prompt.
pub const CONTEXT_CLUE: &'static str = "The current conversation context that consist of either a summary of previous context, user prompt, assistant prompt, or the combination of them:";

/// The number of entries a history may hold before it is summarized.
pub const HISTORY_THRESHOLD: usize = 5;

/// `first`, a blank line, then `second`.
pub open spec fn paragraphs(first: Seq<char>, second: Seq<char>) -> Seq<char> {
    first + "\n\n"@ + second
}

/// The instructions, followed after a blank line by the added context if any.
pub open spec fn system_content(added_context: Option<Seq<char>>) -> Seq<char> {
    match added_context {
        Some(c) => paragraphs(SYSTEM_PROMPT@, c),
        None => SYSTEM_PROMPT@,
    }
}

/// The system message with the instructions and the added context.
pub open spec fn system_message(added_context: Option<Seq<char>>) -> MessageView {
    MessageView { role: Role::System, content: system_content(added_context) }
}

/// The prompt for the game's opening line: the instructions with the intro
/// context, then the start phrase as the user's message.
pub open spec fn initial_prompt() -> Seq<MessageView> {
    seq![
        system_message(Some(INTRO_CONTEXT@)),
        MessageView { role: Role::User, content: START_GAME_PHRASE@ },
    ]
}

/// The prompt that asks for a summary of a rendered history.
pub open spec fn summarization_prompt(rendered: Seq<char>) -> Seq<MessageView> {
    seq![
        MessageView { role: Role::System, content: SUMMARIZER_PROMPT@ },
        MessageView { role: Role::User, content: paragraphs(SUMMARIZE_REQUEST@, rendered) },
    ]
}

/// The prompt that continues a conversation: the instructions with the
/// rendered history as context, then the new input as the user's message.
pub open spec fn continuation_prompt(rendered: Seq<char>, new_input: Seq<char>) -> Seq<MessageView> {
    seq![
        system_message(Some(paragraphs(CONTEXT_CLUE@, rendered))),
        MessageView { role: Role::User, content: new_input },
    ]
}

/// Whether a history of `len` entries is summarized before the next turn.
pub open spec fn too_long(len: nat) -> bool {
    len > HISTORY_THRESHOLD
}

/// The text of an optional string slice, if present.
pub open spec fn opt_str_view(o: Option<&str>) -> Option<Seq<char>> {
    match o {
        Some(s) => Some(s@),
        None => None,
    }
}

/// `first`, a blank line, then `second`.
fn join_paragraphs(first: &str, second: &str) -> (r: String)
    ensures
        r@ == paragraphs(first@, second@),
{
    let mut out = first.to_owned();
    out.append("\n\n");
    out.append(second);
    out
}

/// The system message: the instructions, with `added_context` appended
/// after a blank line when it is given.
pub fn system_message_prompt(added_context: Option<&str>) -> (r: ChatMessage)
    ensures
        r@ == system_message(opt_str_view(added_context)),
        r.role == Role::System,
        added_context.is_none() ==> r.content@ == SYSTEM_PROMPT@,
{
    let content = match added_context {
        Some(context) => join_paragraphs(SYSTEM_PROMPT, context),
        None => SYSTEM_PROMPT.to_owned(),
    };
    ChatMessage { role: Role::System, content }
}

/// The two messages that start a game.
pub fn build_initial_prompt() -> (r: Vec<ChatMessage>)
    ensures
        messages_view(r@) == initial_prompt(),
        r@.len() == 2,
        r@[0].role == Role::System,
        r@[1].role == Role::User,
        r@[1].content@ == START_GAME_PHRASE@,
{
    let system = system_message_prompt(Some(INTRO_CONTEXT));
    let user_intro = ChatMessage::new(Role::User, START_GAME_PHRASE);
    let r = vec![system, user_intro];
    assert(messages_view(r@) =~= initial_prompt());
    r
}

/// The two messages that ask the model to summarize `history`.
pub fn prepare_summarization_prompt(history: &Vec<SingleConversation>) -> (r: Vec<ChatMessage>)
    ensures
        messages_view(r@) == summarization_prompt(render_history(history_view(history@))),
        r@.len() == 2,
        r@[1].content@ == paragraphs(SUMMARIZE_REQUEST@, render_history(history_view(history@))),
{
    let combined = combine_conversation(history);
    let prompt = join_paragraphs(SUMMARIZE_REQUEST, combined.as_str());
    let r = vec![
        ChatMessage::new(Role::System, SUMMARIZER_PROMPT),
        ChatMessage { role: Role::User, content: prompt },
    ];
    assert(messages_view(r@) =~= summarization_prompt(render_history(history_view(history@))));
    r
}

/// The two messages that carry `new_input` to the model, with `history`
/// rendered into the system message.
pub fn build_conversation_context(history: &Vec<SingleConversation>, new_input: &str) -> (r: Vec<
    ChatMessage,
>)
    ensures
        messages_view(r@) == continuation_prompt(render_history(history_view(history@)), new_input@),
        r@.len() == 2,
        r@[1].role == Role::User,
        r@[1].content@ == new_input@,
{
    let combined = combine_conversation(history);
    let context = join_paragraphs(CONTEXT_CLUE, combined.as_str());
    let r = vec![
        system_message_prompt(Some(context.as_str())),
        ChatMessage::new(Role::User, new_input),
    ];
    assert(messages_view(r@) =~= continuation_prompt(
        render_history(history_view(history@)),
        new_input@,
    ));
    r
}

/// Whether `history` has grown past the threshold and is to be summarized.
pub fn history_too_long(history: &Vec<SingleConversation>) -> (r: bool)
    ensures
        r == too_long(history@.len()),
{
    history.len() > HISTORY_THRESHOLD
}

} // verus!
