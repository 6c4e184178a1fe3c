//! The per-user conversation store.
use crate::conversation::{copy_history, history_view, EntryView, SingleConversation};
use vstd::prelude::*;

verus! {

/// The identity of a player, as the bytes of their principal.
#[derive(Clone, Debug)]
pub struct UserId {
    pub bytes: Vec<u8>,
}

impl View for UserId {
    type V = Seq<u8>;

    open spec fn view(&self) -> Seq<u8> {
        self.bytes@
    }
}

impl UserId {
    /// The identity with these bytes.
    pub fn new(bytes: Vec<u8>) -> (r: UserId)
        ensures
            r@ == bytes@,
    {
        UserId { bytes }
    }

    /// Whether two identities hold the same bytes.
    pub fn same_as(&self, other: &UserId) -> (r: bool)
        ensures
            r == (self@ == other@),
    {
        let n = self.bytes.len();
        if n != other.bytes.len() {
            return false;
        }
        let mut i: usize = 0;
        while i < n
            invariant
                n == self@.len(),
                n == other@.len(),
                0 <= i <= n,
                forall|j: int| 0 <= j < i ==> self@[j] == other@[j],
            decreases n - i,
        {
            if self.bytes[i] != other.bytes[i] {
                return false;
            }
            i = i + 1;
        }
        assert(self@ =~= other@);
        true
    }

    /// An identity with the same bytes.
    pub fn copy(&self) -> (r: UserId)
        ensures
            r@ == self@,
    {
        let mut bytes: Vec<u8> = Vec::new();
        let n = self.bytes.len();
        let mut i: usize = 0;
        while i < n
            invariant
                n == self@.len(),
                0 <= i <= n,
                bytes@ =~= self@.subrange(0, i as int),
            decreases n - i,
        {
            bytes.push(self.bytes[i]);
            i = i + 1;
        }
        UserId { bytes }
    }
}

/// What the store holds: each known user's history.
pub type StoreView = Map<Seq<u8>, Seq<EntryView>>;

/// The history of `user`: the stored one, or an empty one if none is stored.
pub open spec fn history_of(store: StoreView, user: Seq<u8>) -> Seq<EntryView> {
    if store.contains_key(user) {
        store[user]
    } else {
        Seq::empty()
    }
}

/// Each user's conversation history, kept in the order of its turns.
pub struct ConversationStore {
    users: Vec<UserId>,
    histories: Vec<Vec<SingleConversation>>,
    contents: Ghost<StoreView>,
}

impl View for ConversationStore {
    type V = StoreView;

    closed spec fn view(&self) -> StoreView {
        self.contents@
    }
}

impl ConversationStore {
    /// Users are stored once each, beside their histories, and the two
    /// vectors hold exactly what the store holds.
    pub closed spec fn wf(&self) -> bool {
        &&& self.users@.len() == self.histories@.len()
        &&& forall|i: int, j: int|
            0 <= i < j < self.users@.len() ==> #[trigger] self.users@[i]@ != #[trigger] self.users@[j]@
        &&& forall|i: int|
            0 <= i < self.users@.len() ==> {
                &&& #[trigger] self.contents@.contains_key(self.users@[i]@)
                &&& self.contents@[self.users@[i]@] == history_view(self.histories@[i]@)
            }
        &&& forall|k: Seq<u8>|
            #[trigger] self.contents@.contains_key(k) ==> exists|i: int|
                0 <= i < self.users@.len() && #[trigger] self.users@[i]@ == k
    }

    /// An empty store.
    pub fn new() -> (r: ConversationStore)
        ensures
            r.wf(),
            r@ == Map::<Seq<u8>, Seq<EntryView>>::empty(),
    {
        ConversationStore { users: Vec::new(), histories: Vec::new(), contents: Ghost(Map::empty()) }
    }

    /// Forgets every history.
    pub fn clear(&mut self)
        ensures
            final(self).wf(),
            final(self)@ == Map::<Seq<u8>, Seq<EntryView>>::empty(),
    {
        self.users.clear();
        self.histories.clear();
        self.contents = Ghost(Map::empty());
    }

    /// Where `user` is stored, if anywhere.
    fn find(&self, user: &UserId) -> (r: Option<usize>)
        requires
            self.wf(),
        ensures
            match r {
                Some(i) => i < self.users@.len() && self.users@[i as int]@ == user@,
                None => !self@.contains_key(user@),
            },
    {
        let n = self.users.len();
        let mut i: usize = 0;
        while i < n
            invariant
                self.wf(),
                n == self.users@.len(),
                0 <= i <= n,
                forall|j: int| 0 <= j < i ==> self.users@[j]@ != user@,
            decreases n - i,
        {
            if self.users[i].same_as(user) {
                return Some(i);
            }
            i = i + 1;
        }
        None
    }
}

/// The history stored for `user`, or an empty one if there is none.
pub fn get_history(store: &ConversationStore, user: &UserId) -> (r: Vec<SingleConversation>)
    requires
        store.wf(),
    ensures
        history_view(r@) == history_of(store@, user@),
{
    match store.find(user) {
        Some(i) => copy_history(&store.histories[i]),
        None => {
            let r: Vec<SingleConversation> = Vec::new();
            assert(history_view(r@) =~= Seq::<EntryView>::empty());
            r
        },
    }
}

/// Replaces the history stored for `user` with `history`.
pub fn update_history(store: &mut ConversationStore, user: UserId, history: Vec<SingleConversation>)
    requires
        old(store).wf(),
    ensures
        final(store).wf(),
        final(store)@ == old(store)@.insert(user@, history_view(history@)),
{
    let ghost entries = history_view(history@);
    let ghost key = user@;
    match store.find(&user) {
        Some(i) => {
            store.histories[i] = history;
            store.contents = Ghost(store.contents@.insert(key, entries));
            assert forall|k: Seq<u8>| #[trigger] store.contents@.contains_key(k) implies exists|j: int|
                0 <= j < store.users@.len() && #[trigger] store.users@[j]@ == k by {
                if k == key {
                    assert(store.users@[i as int]@ == k);
                } else {
                    assert(old(store).contents@.contains_key(k));
                    let j = choose|j: int| 0 <= j < old(store).users@.len() && #[trigger] old(store).users@[j]@ == k;
                    assert(store.users@[j]@ == k);
                }
            }
        },
        None => {
            store.users.push(user);
            store.histories.push(history);
            store.contents = Ghost(store.contents@.insert(key, entries));
            let ghost n = store.users@.len() - 1;
            assert(store.users@[n]@ == key);
            assert forall|k: Seq<u8>| #[trigger] store.contents@.contains_key(k) implies exists|j: int|
                0 <= j < store.users@.len() && #[trigger] store.users@[j]@ == k by {
                if k == key {
                    assert(store.users@[n]@ == k);
                } else {
                    assert(old(store).contents@.contains_key(k));
                    let j = choose|j: int| 0 <= j < old(store).users@.len() && #[trigger] old(store).users@[j]@ == k;
                    assert(store.users@[j]@ == k);
                }
            }
        },
    }
}

} // verus!
