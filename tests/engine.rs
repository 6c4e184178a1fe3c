use backend::conversation::SingleConversation;
use backend::engine::{
    on_chat_reply, parse_command, user_prompt, Action, Command, Pending, ABOUT_TEXT,
};
use backend::message::{ChatMessage, Role};
use backend::prompts::{build_initial_prompt, START_GAME_PHRASE, SUMMARIZER_PROMPT};
use backend::store::{get_history, update_history, ConversationStore, UserId};

/// Runs one input to the end, answering every chat request with `chat`.
/// Returns the reply and the prompts that were sent.
fn run(
    store: &mut ConversationStore,
    user: &UserId,
    input: &str,
    chat: &dyn Fn(&[ChatMessage]) -> String,
) -> (String, Vec<Vec<ChatMessage>>) {
    let mut sent = Vec::new();
    let (mut pending, mut action) = user_prompt(store, user, input);
    loop {
        match action {
            Action::Reply(text) => {
                assert!(pending.is_none());
                return (text, sent);
            }
            Action::Chat(msgs) => {
                let reply = chat(&msgs);
                sent.push(msgs);
                let p = pending.take().expect("a chat request leaves a turn pending");
                let (next, act) = on_chat_reply(store, p, &reply);
                pending = next;
                action = act;
            }
        }
    }
}

fn echo(msgs: &[ChatMessage]) -> String {
    msgs.last().unwrap().content.clone()
}

fn entries(store: &ConversationStore, user: &UserId) -> Vec<String> {
    get_history(store, user).iter().map(|e| e.to_string()).collect()
}

#[test]
fn commands_match_exactly() {
    assert_eq!(parse_command("/start"), Command::Start);
    assert_eq!(parse_command("/about"), Command::About);
    assert_eq!(parse_command("/Start"), Command::Conversation);
    assert_eq!(parse_command("/start "), Command::Conversation);
    assert_eq!(parse_command("/star"), Command::Conversation);
    assert_eq!(parse_command(""), Command::Conversation);
}

#[test]
fn start_on_empty_history_seeds_greeting() {
    let mut store = ConversationStore::new();
    let user = UserId::new(vec![1]);
    let (reply, sent) = run(&mut store, &user, "/start", &|_| "Welcome...".to_string());
    assert_eq!(reply, "Welcome...");
    assert_eq!(sent.len(), 1);
    let expected = build_initial_prompt();
    assert_eq!(sent[0].len(), 2);
    assert_eq!(sent[0][0].content, expected[0].content);
    assert!(matches!(sent[0][0].role, Role::System));
    assert_eq!(sent[0][1].content, START_GAME_PHRASE);
    assert!(matches!(sent[0][1].role, Role::User));
    let history = get_history(&store, &user);
    assert_eq!(history.len(), 1);
    assert_eq!(history[0].user.as_deref(), Some("I want to start the game"));
    assert_eq!(history[0].assistant.as_deref(), Some("Welcome..."));
}

#[test]
fn start_twice_seeds_once() {
    let mut store = ConversationStore::new();
    let user = UserId::new(vec![2]);
    let (first, _) = run(&mut store, &user, "/start", &|_| "first".to_string());
    let (second, sent) = run(&mut store, &user, "/start", &|_| "second".to_string());
    assert_eq!(first, "first");
    assert_eq!(second, "second");
    assert_eq!(sent.len(), 1);
    assert_eq!(
        entries(&store, &user),
        vec!["user: I want to start the game\nassistant: first".to_string()]
    );
}

#[test]
fn about_leaves_store_unchanged() {
    let mut store = ConversationStore::new();
    let user = UserId::new(vec![3]);
    update_history(&mut store, user.clone(), vec![SingleConversation::new("a", "b")]);
    let (pending, action) = user_prompt(&store, &user, "/about");
    assert!(pending.is_none());
    match action {
        Action::Reply(text) => assert_eq!(text, ABOUT_TEXT),
        Action::Chat(_) => panic!("the about command needs no model"),
    }
    let (reply, sent) = run(&mut store, &user, "/about", &|_| unreachable!());
    assert_eq!(reply, ABOUT_TEXT);
    assert!(sent.is_empty());
    assert_eq!(entries(&store, &user), vec!["user: a\nassistant: b".to_string()]);
    let fresh = UserId::new(vec![4]);
    run(&mut store, &fresh, "/about", &|_| unreachable!());
    assert!(get_history(&store, &fresh).is_empty());
}

#[test]
fn short_history_grows_by_one_exchange() {
    let mut store = ConversationStore::new();
    let user = UserId::new(vec![5]);
    for i in 0..6 {
        let input = format!("turn {}", i);
        let (reply, sent) = run(&mut store, &user, &input, &echo);
        assert_eq!(reply, input);
        assert_eq!(sent.len(), 1);
        assert_eq!(get_history(&store, &user).len(), i + 1);
    }
    let history = entries(&store, &user);
    assert_eq!(history[5], "user: turn 5\nassistant: turn 5");
}

#[test]
fn long_history_is_replaced_by_summary() {
    let mut store = ConversationStore::new();
    let user = UserId::new(vec![6]);
    let six: Vec<SingleConversation> = (0..6)
        .map(|i| SingleConversation::new(&format!("q{}", i), &format!("a{}", i)))
        .collect();
    update_history(&mut store, user.clone(), six);
    let chat = |msgs: &[ChatMessage]| -> String {
        if msgs[0].content == SUMMARIZER_PROMPT {
            "the story so far".to_string()
        } else {
            "next scene".to_string()
        }
    };
    let (reply, sent) = run(&mut store, &user, "go north", &chat);
    assert_eq!(reply, "next scene");
    assert_eq!(sent.len(), 2);
    assert_eq!(sent[0][0].content, SUMMARIZER_PROMPT);
    assert!(sent[0][1].content.ends_with("user: q5\nassistant: a5"));
    assert!(sent[1][0]
        .content
        .ends_with("\n\nSummary of previous context: the story so far"));
    assert_eq!(sent[1][1].content, "go north");
    assert_eq!(
        entries(&store, &user),
        vec![
            "Summary of previous context: the story so far".to_string(),
            "user: go north\nassistant: next scene".to_string(),
        ]
    );
}

#[test]
fn failed_chat_leaves_store_unchanged() {
    let mut store = ConversationStore::new();
    let user = UserId::new(vec![8]);
    update_history(&mut store, user.clone(), vec![SingleConversation::new("a", "b")]);
    let (pending, action) = user_prompt(&store, &user, "hello");
    assert!(matches!(pending, Some(Pending::Responding { .. })));
    assert!(matches!(action, Action::Chat(_)));
    drop(pending);
    assert_eq!(entries(&store, &user), vec!["user: a\nassistant: b".to_string()]);
}
