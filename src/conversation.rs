//! Conversation entries: a user/assistant exchange or a summary of earlier
//! exchanges, and their textual rendering.
use vstd::prelude::*;

verus! {

/// What an entry holds, as text.
pub ghost struct EntryView {
    pub assistant: Option<Seq<char>>,
    pub user: Option<Seq<char>>,
    pub summary: Option<Seq<char>>,
}

/// One unit of conversation history.
///
/// An entry built by [`SingleConversation::new`] holds a user input and the
/// assistant's reply; one built by [`SingleConversation::new_summary`] holds
/// only a summary of the conversation so far.
#[derive(Clone, Debug)]
pub struct SingleConversation {
    pub assistant: Option<String>,
    pub user: Option<String>,
    pub summary: Option<String>,
}

/// The text of an optional string, if present.
pub open spec fn opt_view(o: Option<String>) -> Option<Seq<char>> {
    match o {
        Some(s) => Some(s@),
        None => None,
    }
}

impl View for SingleConversation {
    type V = EntryView;

    open spec fn view(&self) -> EntryView {
        EntryView {
            assistant: opt_view(self.assistant),
            user: opt_view(self.user),
            summary: opt_view(self.summary),
        }
    }
}

/// An exchange of one user input and one assistant reply.
pub open spec fn exchange(user: Seq<char>, assistant: Seq<char>) -> EntryView {
    EntryView { assistant: Some(assistant), user: Some(user), summary: None }
}

/// A summary standing for all earlier entries.
pub open spec fn summary_entry(summary: Seq<char>) -> EntryView {
    EntryView { assistant: None, user: None, summary: Some(summary) }
}

/// Exactly one of the two shapes: a summary, or a complete exchange.
pub open spec fn entry_well_formed(e: EntryView) -> bool {
    ||| e == summary_entry(e.summary.unwrap())
    ||| e == exchange(e.user.unwrap(), e.assistant.unwrap())
}

/// `label` and `text` followed by `tail` when the part is present; nothing otherwise.
pub open spec fn labeled(part: Option<Seq<char>>, label: Seq<char>, tail: Seq<char>) -> Seq<char> {
    match part {
        Some(text) => label + text + tail,
        None => Seq::empty(),
    }
}

/// The text of one entry: the summary line, then the user line, then the
/// assistant line, each only where present.
pub open spec fn render_entry(e: EntryView) -> Seq<char> {
    labeled(e.summary, "Summary of previous context: "@, Seq::empty())
        + labeled(e.user, "user: "@, "\n"@)
        + labeled(e.assistant, "assistant: "@, Seq::empty())
}

/// The text of a history: the entries' texts in order, joined by newlines.
pub open spec fn render_history(h: Seq<EntryView>) -> Seq<char>
    decreases h.len(),
{
    if h.len() == 0 {
        Seq::empty()
    } else if h.len() == 1 {
        render_entry(h[0])
    } else {
        render_history(h.drop_last()) + "\n"@ + render_entry(h.last())
    }
}

/// The views of a sequence of entries.
pub open spec fn history_view(h: Seq<SingleConversation>) -> Seq<EntryView> {
    h.map_values(|e: SingleConversation| e@)
}

/// Appends `label`, `text` and `tail` to `out` when `part` is present.
fn append_labeled(out: &mut String, part: &Option<String>, label: &str, tail: &str)
    ensures
        final(out)@ == old(out)@ + labeled(opt_view(*part), label@, tail@),
{
    match part {
        Some(text) => {
            out.append(label);
            out.append(text.as_str());
            out.append(tail);
        },
        None => {
            assert(old(out)@ + Seq::<char>::empty() =~= old(out)@);
        },
    }
}

/// An optional string with the same text.
fn copy_text(o: &Option<String>) -> (r: Option<String>)
    ensures
        opt_view(r) == opt_view(*o),
{
    match o {
        Some(s) => Some(s.clone()),
        None => None,
    }
}

impl SingleConversation {
    /// An exchange of a user input and the assistant's reply.
    pub fn new(user: &str, assistant: &str) -> (r: SingleConversation)
        ensures
            r@ == exchange(user@, assistant@),
            entry_well_formed(r@),
    {
        SingleConversation {
            assistant: Some(assistant.to_owned()),
            user: Some(user.to_owned()),
            summary: None,
        }
    }

    /// A summary of the conversation so far.
    pub fn new_summary(summary: &str) -> (r: SingleConversation)
        ensures
            r@ == summary_entry(summary@),
            entry_well_formed(r@),
    {
        SingleConversation { assistant: None, user: None, summary: Some(summary.to_owned()) }
    }

    /// An entry with the same texts.
    pub fn copy(&self) -> (r: SingleConversation)
        ensures
            r@ == self@,
    {
        SingleConversation {
            assistant: copy_text(&self.assistant),
            user: copy_text(&self.user),
            summary: copy_text(&self.summary),
        }
    }

    /// Renders the entry: `Summary of previous context: {summary}` for a
    /// summary, `user: {user}\nassistant: {assistant}` for an exchange.
    pub fn to_string(&self) -> (r: String)
        ensures
            r@ == render_entry(self@),
    {
        let mut out = String::new();
        append_labeled(&mut out, &self.summary, "Summary of previous context: ", "");
        append_labeled(&mut out, &self.user, "user: ", "\n");
        append_labeled(&mut out, &self.assistant, "assistant: ", "");
        proof {
            reveal_strlit("");
            assert(out@ =~= render_entry(self@));
        }
        out
    }
}

/// Renders a whole history, one entry after another, separated by newlines.
pub fn combine_conversation(conversation: &Vec<SingleConversation>) -> (r: String)
    ensures
        r@ == render_history(history_view(conversation@)),
{
    let mut out = String::new();
    let n = conversation.len();
    let mut i: usize = 0;
    while i < n
        invariant
            n == conversation@.len(),
            0 <= i <= n,
            out@ == render_history(history_view(conversation@.subrange(0, i as int))),
        decreases n - i,
    {
        let text = conversation[i].to_string();
        let ghost before = history_view(conversation@.subrange(0, i as int));
        let ghost after = history_view(conversation@.subrange(0, i + 1));
        proof {
            assert(after.drop_last() =~= before);
            assert(after.last() == conversation@[i as int]@);
        }
        if i > 0 {
            out.append("\n");
            out.append(text.as_str());
            assert(out@ =~= render_history(after));
        } else {
            out.append(text.as_str());
            assert(out@ =~= render_history(after));
        }
        i = i + 1;
    }
    assert(conversation@.subrange(0, n as int) =~= conversation@);
    out
}

/// A history with the same entries.
pub fn copy_history(h: &Vec<SingleConversation>) -> (r: Vec<SingleConversation>)
    ensures
        history_view(r@) == history_view(h@),
{
    let mut out: Vec<SingleConversation> = Vec::new();
    let n = h.len();
    let mut i: usize = 0;
    while i < n
        invariant
            n == h@.len(),
            0 <= i <= n,
            out@.len() == i,
            forall|j: int| 0 <= j < i ==> #[trigger] out@[j]@ == h@[j]@,
        decreases n - i,
    {
        out.push(h[i].copy());
        i = i + 1;
    }
    assert(history_view(out@) =~= history_view(h@));
    out
}

} // verus!
