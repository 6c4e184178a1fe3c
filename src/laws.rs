//! Properties of the turn state machine across several steps.
use crate::conversation::{exchange, render_history, summary_entry};
use crate::engine::{
    begin_model, command_of, reply_model, ActionView, Command, PendingView, ABOUT_COMMAND,
    ABOUT_TEXT, START_COMMAND,
};
use crate::prompts::{
    continuation_prompt, initial_prompt, summarization_prompt, HISTORY_THRESHOLD, START_GAME_PHRASE,
};
use crate::store::{history_of, StoreView};
use vstd::prelude::*;

verus! {

/// A conversation turn on a history of at most the threshold asks for no
/// summary: the input is sent at once with the history as context, and the
/// model's answer leaves the stored history one exchange longer.
pub proof fn short_history_is_not_summarized(
    store: StoreView,
    user: Seq<u8>,
    input: Seq<char>,
    response: Seq<char>,
)
    requires
        command_of(input) == Command::Conversation,
        history_of(store, user).len() <= HISTORY_THRESHOLD,
    ensures
        ({
            let history = history_of(store, user);
            let (pending, action) = begin_model(store, user, input);
            let after = reply_model(store, pending.unwrap(), response);
            &&& pending == Some(PendingView::Responding { user, input, history })
            &&& action == ActionView::Chat(continuation_prompt(render_history(history), input))
            &&& after.0 == store.insert(user, history.push(exchange(input, response)))
            &&& history_of(after.0, user).len() == history.len() + 1
            &&& after.2 == ActionView::Reply(response)
        }),
{
}

/// A conversation turn on a history past the threshold first asks for a
/// summary of it; the summary then stands alone as the history the input is
/// sent with, and the stored history becomes that summary and the new exchange.
pub proof fn long_history_is_summarized(
    store: StoreView,
    user: Seq<u8>,
    input: Seq<char>,
    summary: Seq<char>,
    response: Seq<char>,
)
    requires
        command_of(input) == Command::Conversation,
        history_of(store, user).len() > HISTORY_THRESHOLD,
    ensures
        ({
            let history = history_of(store, user);
            let summarized = seq![summary_entry(summary)];
            let (pending, action) = begin_model(store, user, input);
            let middle = reply_model(store, pending.unwrap(), summary);
            let last = reply_model(middle.0, middle.1.unwrap(), response);
            &&& pending == Some(PendingView::Summarizing { user, input })
            &&& action == ActionView::Chat(summarization_prompt(render_history(history)))
            &&& middle.0 == store
            &&& middle.1 == Some(PendingView::Responding { user, input, history: summarized })
            &&& middle.2 == ActionView::Chat(continuation_prompt(render_history(summarized), input))
            &&& last.0 == store.insert(user, seq![summary_entry(summary), exchange(input, response)])
            &&& last.2 == ActionView::Reply(response)
        }),
{
    let summarized = seq![summary_entry(summary)];
    assert(summarized.push(exchange(input, response)) =~= seq![
        summary_entry(summary),
        exchange(input, response),
    ]);
}

/// The about command is answered at once with the fixed description and
/// leaves nothing pending, so the store is never touched.
pub proof fn about_leaves_store_alone(store: StoreView, user: Seq<u8>)
    ensures
        begin_model(store, user, ABOUT_COMMAND@) == (
            None::<PendingView>,
            ActionView::Reply(ABOUT_TEXT@),
        ),
{
    reveal_strlit("/start");
    reveal_strlit("/about");
    assert(ABOUT_COMMAND@ != START_COMMAND@) by {
        assert(ABOUT_COMMAND@[1] != START_COMMAND@[1]);
    }
}

/// Starting the game twice for a user without history seeds the history
/// once: after both greetings it holds only the first one.
pub proof fn start_seeds_history_once(
    store: StoreView,
    user: Seq<u8>,
    first: Seq<char>,
    second: Seq<char>,
)
    requires
        history_of(store, user).len() == 0,
    ensures
        ({
            let (p1, a1) = begin_model(store, user, START_COMMAND@);
            let s1 = reply_model(store, p1.unwrap(), first);
            let (p2, a2) = begin_model(s1.0, user, START_COMMAND@);
            let s2 = reply_model(s1.0, p2.unwrap(), second);
            &&& a1 == ActionView::Chat(initial_prompt())
            &&& s1.0 == store.insert(user, seq![exchange(START_GAME_PHRASE@, first)])
            &&& s1.2 == ActionView::Reply(first)
            &&& a2 == ActionView::Chat(initial_prompt())
            &&& s2.0 == s1.0
            &&& history_of(s2.0, user) == seq![exchange(START_GAME_PHRASE@, first)]
            &&& s2.2 == ActionView::Reply(second)
        }),
{
}

} // verus!
