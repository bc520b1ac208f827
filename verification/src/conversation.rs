//! The history of conversations: a store of message logs by id, with expiry
//! by age.
//!
//! Times are counted in nanoseconds since the Unix epoch. A conversation
//! records when it was created and when it was last updated. Its age is
//! counted from the last update, so a conversation that is in use does not
//! expire. The time of the last update never moves back: where the clock
//! of the machine steps back, or where a copy that has gone stale is written
//! back, the conversation keeps the time that it had.
//!
//! The store has one owner. Whoever holds it exclusively can change it, so
//! every operation is atomic; callers that share a store put it behind a
//! lock of their own.

use crate::system::{fresh_id, is_hyphenated_uuid, now_nanos};
use crate::text::{
    joined3, first_index, lemma_first_index, lemma_first_index_push, lemma_first_index_unique,
    text_eq,
};
use vstd::prelude::*;

verus! {

/// One message of a conversation.
#[derive(Debug)]
pub struct ConversationMessage {
    /// Who speaks: `user`, `assistant` or `system`.
    pub role: String,
    /// What is said.
    pub content: String,
    /// When the message was added.
    pub timestamp: u128,
}

/// `ConversationMessage` with its texts as character sequences.
pub struct MessageRecord {
    pub role: Seq<char>,
    pub content: Seq<char>,
    pub timestamp: u128,
}

impl View for ConversationMessage {
    type V = MessageRecord;

    open spec fn view(&self) -> MessageRecord {
        MessageRecord { role: self.role@, content: self.content@, timestamp: self.timestamp }
    }
}

impl Clone for ConversationMessage {
    fn clone(&self) -> (r: Self)
        ensures
            r@ == self@,
    {
        ConversationMessage {
            role: self.role.clone(),
            content: self.content.clone(),
            timestamp: self.timestamp,
        }
    }
}

/// The records of a list of messages, in order.
pub open spec fn records(messages: Seq<ConversationMessage>) -> Seq<MessageRecord> {
    messages.map_values(|m: ConversationMessage| m@)
}

/// The keys of a list of pairs, in order.
pub open spec fn pair_keys(entries: Seq<(String, String)>) -> Seq<Seq<char>> {
    entries.map_values(|e: (String, String)| e.0@)
}

/// The mapping that a list of pairs stands for: each key that occurs, with
/// the value of its first pair.
pub open spec fn pair_map(entries: Seq<(String, String)>) -> Map<Seq<char>, Seq<char>> {
    Map::new(
        |k: Seq<char>| pair_keys(entries).contains(k),
        |k: Seq<char>| entries[first_index(pair_keys(entries), k)].1@,
    )
}

/// A mapping from text to text, such as the metadata of a conversation.
#[derive(Debug)]
pub struct Metadata {
    entries: Vec<(String, String)>,
}

impl View for Metadata {
    type V = Map<Seq<char>, Seq<char>>;

    closed spec fn view(&self) -> Map<Seq<char>, Seq<char>> {
        pair_map(self.entries@)
    }
}

impl Metadata {
    /// No key occurs twice.
    #[verifier::type_invariant]
    spec fn distinct_keys(&self) -> bool {
        pair_keys(self.entries@).no_duplicates()
    }

    /// The empty mapping.
    pub fn new() -> (r: Self)
        ensures
            r@ == Map::<Seq<char>, Seq<char>>::empty(),
    {
        Metadata { entries: Vec::new() }
    }

    /// The place of the pair with `key`, if there is one.
    fn find(&self, key: &str) -> (r: Option<usize>)
        ensures
            r matches Some(i) ==> i < self.entries@.len() && i == first_index(
                pair_keys(self.entries@),
                key@,
            ),
            r is Some <==> pair_keys(self.entries@).contains(key@),
    {
        let mut i: usize = 0;
        while i < self.entries.len()
            invariant
                0 <= i <= self.entries.len(),
                forall|j: int| 0 <= j < i ==> pair_keys(self.entries@)[j] != key@,
            decreases self.entries.len() - i,
        {
            if text_eq(self.entries[i].0.as_str(), key) {
                proof {
                    lemma_first_index_unique(pair_keys(self.entries@), key@, i as int);
                }
                return Some(i);
            }
            i = i + 1;
        }
        None
    }

    /// The value under `key`, if there is one.
    pub fn get(&self, key: &str) -> (r: Option<&String>)
        ensures
            r is Some <==> self@.contains_key(key@),
            r matches Some(value) ==> value@ == self@[key@],
    {
        match self.find(key) {
            Some(i) => Some(&self.entries[i].1),
            None => None,
        }
    }

    /// Puts `value` under `key`, in place of what was there.
    pub fn insert(&mut self, key: String, value: String)
        ensures
            final(self)@ == old(self)@.insert(key@, value@),
    {
        proof {
            use_type_invariant(&*self);
        }
        let found = self.find(key.as_str());
        let mut entries: Vec<(String, String)> = Vec::new();
        core::mem::swap(&mut self.entries, &mut entries);
        let ghost before = entries@;
        match found {
            Some(i) => {
                entries[i].1 = value;
                proof {
                    let after = entries@;
                    lemma_first_index(pair_keys(before), key@);
                    assert(pair_keys(after) =~= pair_keys(before));
                    assert forall|k: Seq<char>| pair_map(after).contains_key(k) implies pair_map(
                        after,
                    )[k] == pair_map(before).insert(key@, value@)[k] by {
                        lemma_first_index(pair_keys(before), k);
                    }
                }
            },
            None => {
                entries.push((key, value));
                proof {
                    let after = entries@;
                    assert(pair_keys(after) =~= pair_keys(before).push(key@));
                    assert forall|k: Seq<char>|
                        pair_map(after).contains_key(k) == pair_map(before).insert(
                            key@,
                            value@,
                        ).contains_key(k) by {
                        lemma_first_index_push(pair_keys(before), key@, k);
                    }
                    assert forall|k: Seq<char>| pair_map(after).contains_key(k) implies pair_map(
                        after,
                    )[k] == pair_map(before).insert(key@, value@)[k] by {
                        lemma_first_index_push(pair_keys(before), key@, k);
                        lemma_first_index(pair_keys(before), k);
                    }
                }
            },
        }
        self.entries = entries;
    }

    /// Whether the mapping is empty.
    pub fn is_empty(&self) -> (r: bool)
        ensures
            r == (self@ == Map::<Seq<char>, Seq<char>>::empty()),
    {
        let r = self.entries.len() == 0;
        proof {
            if r {
                assert(self@ =~= Map::<Seq<char>, Seq<char>>::empty());
            } else {
                assert(pair_keys(self.entries@)[0] == self.entries@[0].0@);
                assert(self@.contains_key(self.entries@[0].0@));
            }
        }
        r
    }

    /// The pairs of the mapping, each key once, in the order in which the
    /// keys were first put in.
    pub fn pairs(&self) -> (r: Vec<(String, String)>)
        ensures
            pair_map(r@) == self@,
            pair_keys(r@).no_duplicates(),
    {
        proof {
            use_type_invariant(self);
        }
        let r = copy_pairs(&self.entries);
        proof {
            lemma_same_pairs(r@, self.entries@);
        }
        r
    }
}

/// A copy of a list of pairs.
fn copy_pairs(pairs: &Vec<(String, String)>) -> (r: Vec<(String, String)>)
    ensures
        r@.len() == pairs@.len(),
        forall|j: int|
            0 <= j < r@.len() ==> r@[j].0@ == pairs@[j].0@ && r@[j].1@ == pairs@[j].1@,
{
    let mut entries: Vec<(String, String)> = Vec::new();
    let mut i: usize = 0;
    while i < pairs.len()
        invariant
            0 <= i <= pairs.len(),
            entries@.len() == i,
            forall|j: int|
                0 <= j < i ==> entries@[j].0@ == pairs@[j].0@ && entries@[j].1@ == pairs@[j].1@,
        decreases pairs.len() - i,
    {
        entries.push((pairs[i].0.clone(), pairs[i].1.clone()));
        i = i + 1;
    }
    entries
}

/// Two lists of pairs that agree place by place in the texts of their keys
/// and values have the same keys and stand for the same mapping.
proof fn lemma_same_pairs(a: Seq<(String, String)>, b: Seq<(String, String)>)
    requires
        a.len() == b.len(),
        forall|j: int| 0 <= j < a.len() ==> a[j].0@ == b[j].0@ && a[j].1@ == b[j].1@,
    ensures
        pair_keys(a) == pair_keys(b),
        pair_map(a) == pair_map(b),
{
    assert(pair_keys(a) =~= pair_keys(b));
    assert forall|k: Seq<char>| pair_map(a).contains_key(k) implies pair_map(a)[k] == pair_map(
        b,
    )[k] by {
        lemma_first_index(pair_keys(b), k);
    }
}

impl Clone for Metadata {
    fn clone(&self) -> (r: Self)
        ensures
            r@ == self@,
    {
        proof {
            use_type_invariant(self);
        }
        let entries = copy_pairs(&self.entries);
        proof {
            lemma_same_pairs(entries@, self.entries@);
        }
        Metadata { entries }
    }
}

/// A conversation: an id, the messages in the order in which they were
/// added, metadata, and the times of creation and of the last update.
#[derive(Debug)]
pub struct Conversation {
    /// The id under which a store files the conversation.
    pub id: String,
    /// The messages, oldest first.
    pub messages: Vec<ConversationMessage>,
    /// Free-form notes on the conversation.
    pub metadata: Metadata,
    /// When the conversation was created.
    pub created_at: u128,
    /// When the conversation was last updated.
    pub updated_at: u128,
}

/// `Conversation` with its texts as character sequences.
pub struct ConversationModel {
    pub id: Seq<char>,
    pub messages: Seq<MessageRecord>,
    pub metadata: Map<Seq<char>, Seq<char>>,
    pub created_at: u128,
    pub updated_at: u128,
}

impl View for Conversation {
    type V = ConversationModel;

    open spec fn view(&self) -> ConversationModel {
        ConversationModel {
            id: self.id@,
            messages: records(self.messages@),
            metadata: self.metadata@,
            created_at: self.created_at,
            updated_at: self.updated_at,
        }
    }
}

impl ConversationModel {
    /// The conversation with `id` as it is created at the time `now`: no
    /// messages, no metadata, created and updated at `now`.
    pub open spec fn started(id: Seq<char>, now: u128) -> ConversationModel {
        ConversationModel {
            id,
            messages: Seq::empty(),
            metadata: Map::empty(),
            created_at: now,
            updated_at: now,
        }
    }

    /// The time that an update at the time `now` bears: `now`, unless the
    /// conversation was updated later than that already.
    pub open spec fn stamp(self, now: u128) -> u128 {
        if now > self.updated_at {
            now
        } else {
            self.updated_at
        }
    }

    /// The conversation after a message was added at the time `now`.
    pub open spec fn appended(
        self,
        role: Seq<char>,
        content: Seq<char>,
        now: u128,
    ) -> ConversationModel {
        ConversationModel {
            messages: self.messages.push(
                MessageRecord { role, content, timestamp: self.stamp(now) },
            ),
            updated_at: self.stamp(now),
            ..self
        }
    }

    /// The conversation as an update at the time `now` files it in place of
    /// `previous`, the conversation that was filed under its id, if there
    /// was one. Everything is taken as it is but the time of the last
    /// update: that is the latest of `now`, the time that the conversation
    /// bears and the time that the previous one bore.
    pub open spec fn filed(
        self,
        previous: Option<ConversationModel>,
        now: u128,
    ) -> ConversationModel {
        ConversationModel {
            updated_at: match previous {
                Some(old) => later(self.stamp(now), old.updated_at),
                None => self.stamp(now),
            },
            ..self
        }
    }

    /// The conversation with `value` noted under `key`.
    pub open spec fn noted(self, key: Seq<char>, value: Seq<char>) -> ConversationModel {
        ConversationModel { metadata: self.metadata.insert(key, value), ..self }
    }

    /// Whether the conversation is older than `max_age` at the time `now`,
    /// counted from its last update.
    pub open spec fn expired(self, now: u128, max_age: u128) -> bool {
        now > self.updated_at && now - self.updated_at > max_age
    }

    /// Whether the times of the conversation are in order: the messages in
    /// the order of their times, none before the creation and none after the
    /// last update.
    pub open spec fn ordered(self) -> bool {
        &&& self.created_at <= self.updated_at
        &&& forall|i: int|
            0 <= i < self.messages.len() ==> self.created_at <= (
            #[trigger] self.messages[i]).timestamp <= self.updated_at
        &&& forall|i: int, j: int|
            0 <= i <= j < self.messages.len() ==> (#[trigger] self.messages[i]).timestamp <= (
            #[trigger] self.messages[j]).timestamp
    }
}

/// The later of two times.
pub open spec fn later(a: u128, b: u128) -> u128 {
    if a >= b {
        a
    } else {
        b
    }
}

/// The conversation that a store holds under `id`, if it holds one.
pub open spec fn entry(store: Map<Seq<char>, ConversationModel>, id: Seq<char>) -> Option<
    ConversationModel,
> {
    if store.contains_key(id) {
        Some(store[id])
    } else {
        None
    }
}

/// An update does not move a conversation back in time: what is filed is
/// not older than the conversation that was filed before, than the
/// conversation that is handed in, or than the time of the update; and it
/// keeps the times of a conversation in order.
pub proof fn lemma_update_does_not_go_back(
    c: ConversationModel,
    previous: Option<ConversationModel>,
    now: u128,
)
    ensures
        c.filed(previous, now).updated_at >= c.updated_at,
        c.filed(previous, now).updated_at >= now,
        previous matches Some(old) ==> c.filed(previous, now).updated_at >= old.updated_at,
        c.ordered() ==> c.filed(previous, now).ordered(),
{
}

/// A new conversation has its times in order, and adding a message keeps
/// them so: the message is not older than any before it, and the last
/// update does not move back.
pub proof fn lemma_times_stay_ordered(
    c: ConversationModel,
    role: Seq<char>,
    content: Seq<char>,
    now: u128,
)
    ensures
        ConversationModel::started(c.id, now).ordered(),
        c.appended(role, content, now).updated_at >= c.updated_at,
        c.ordered() ==> c.appended(role, content, now).ordered(),
{
}

/// The conversation after a list of messages was added, one after the
/// other, each with its role, its content and the time at which it was
/// added.
pub open spec fn appended_all(
    c: ConversationModel,
    added: Seq<(Seq<char>, Seq<char>, u128)>,
) -> ConversationModel
    decreases added.len(),
{
    if added.len() == 0 {
        c
    } else {
        appended_all(c, added.drop_last()).appended(
            added.last().0,
            added.last().1,
            added.last().2,
        )
    }
}

/// No message is lost: after any number of messages was added, the
/// conversation holds what it held before and behind that each message that
/// was added, in the order of adding.
pub proof fn lemma_every_append_counts(
    c: ConversationModel,
    added: Seq<(Seq<char>, Seq<char>, u128)>,
)
    ensures
        appended_all(c, added).messages.len() == c.messages.len() + added.len(),
        appended_all(c, added).messages.take(c.messages.len() as int) == c.messages,
        forall|i: int|
            0 <= i < added.len() ==> (#[trigger] appended_all(c, added).messages[c.messages.len()
                + i]).role == added[i].0 && appended_all(c, added).messages[c.messages.len()
                + i].content == added[i].1,
        appended_all(c, added).id == c.id,
    decreases added.len(),
{
    if added.len() > 0 {
        lemma_every_append_counts(c, added.drop_last());
    }
}

impl Conversation {
    /// A conversation with a fresh id, created now.
    pub fn new() -> (r: Self)
        ensures
            r@ == ConversationModel::started(r.id@, r.created_at),
            is_hyphenated_uuid(r.id@),
    {
        Conversation::with_id(fresh_id(), now_nanos())
    }

    /// The conversation with `id` as it is created at the time `now`.
    pub fn with_id(id: String, now: u128) -> (r: Self)
        ensures
            r@ == ConversationModel::started(id@, now),
    {
        let r = Conversation {
            id,
            messages: Vec::new(),
            metadata: Metadata::new(),
            created_at: now,
            updated_at: now,
        };
        assert(records(r.messages@) =~= Seq::<MessageRecord>::empty());
        r
    }

    /// Adds a message now.
    pub fn add_message(&mut self, role: &str, content: &str)
        ensures
            exists|now: u128| final(self)@ == old(self)@.appended(role@, content@, now),
    {
        let now = now_nanos();
        self.add_message_at(role, content, now);
    }

    /// Adds a message at the time `now`. The message and the conversation
    /// bear that time, or the time of the last update if that is later.
    pub fn add_message_at(&mut self, role: &str, content: &str, now: u128)
        ensures
            final(self)@ == old(self)@.appended(role@, content@, now),
    {
        let stamp = if now > self.updated_at {
            now
        } else {
            self.updated_at
        };
        let ghost before = self.messages@;
        self.messages.push(
            ConversationMessage {
                role: role.to_owned(),
                content: content.to_owned(),
                timestamp: stamp,
            },
        );
        self.updated_at = stamp;
        assert(records(self.messages@) =~= records(before).push(
            MessageRecord { role: role@, content: content@, timestamp: stamp },
        ));
    }

    /// The messages, oldest first.
    pub fn get_messages(&self) -> (r: &[ConversationMessage])
        ensures
            r@ == self.messages@,
    {
        self.messages.as_slice()
    }

    /// Notes `value` under `key` in the metadata.
    pub fn set_metadata(&mut self, key: &str, value: &str)
        ensures
            final(self)@ == old(self)@.noted(key@, value@),
    {
        self.metadata.insert(key.to_owned(), value.to_owned());
    }

    /// Whether the conversation is older than `max_age` at the time `now`,
    /// counted from its last update.
    pub fn is_expired(&self, now: u128, max_age: u128) -> (r: bool)
        ensures
            r == self@.expired(now, max_age),
    {
        now > self.updated_at && now - self.updated_at > max_age
    }
}

impl Clone for Conversation {
    fn clone(&self) -> (r: Self)
        ensures
            r@ == self@,
    {
        let mut messages: Vec<ConversationMessage> = Vec::new();
        let mut i: usize = 0;
        while i < self.messages.len()
            invariant
                0 <= i <= self.messages.len(),
                records(messages@) == records(self.messages@).take(i as int),
            decreases self.messages.len() - i,
        {
            messages.push(self.messages[i].clone());
            assert(records(self.messages@).take(i + 1) =~= records(self.messages@).take(
                i as int,
            ).push(self.messages@[i as int]@));
            i = i + 1;
        }
        assert(records(self.messages@).take(i as int) =~= records(self.messages@));
        Conversation {
            id: self.id.clone(),
            messages,
            metadata: self.metadata.clone(),
            created_at: self.created_at,
            updated_at: self.updated_at,
        }
    }
}

impl Default for Conversation {
    fn default() -> (r: Self)
        ensures
            r@ == ConversationModel::started(r.id@, r.created_at),
    {
        Conversation::new()
    }
}

/// The ids of a list of conversations, in order.
spec fn conversation_ids(entries: Seq<Conversation>) -> Seq<Seq<char>> {
    entries.map_values(|c: Conversation| c.id@)
}

/// The mapping that a list of conversations stands for: each id that
/// occurs, with the first conversation that bears it.
spec fn store_map(entries: Seq<Conversation>) -> Map<Seq<char>, ConversationModel> {
    Map::new(
        |id: Seq<char>| conversation_ids(entries).contains(id),
        |id: Seq<char>| entries[first_index(conversation_ids(entries), id)]@,
    )
}

/// What a sweep at the time `now` leaves of a store: the conversations that
/// are not older than `max_age`, unchanged.
pub open spec fn swept(
    store: Map<Seq<char>, ConversationModel>,
    now: u128,
    max_age: u128,
) -> Map<Seq<char>, ConversationModel> {
    Map::new(
        |id: Seq<char>| store.contains_key(id) && !store[id].expired(now, max_age),
        |id: Seq<char>| store[id],
    )
}

/// The conversations of a list that are not older than `max_age` at the
/// time `now`, in their order.
spec fn surviving(entries: Seq<Conversation>, now: u128, max_age: u128) -> Seq<
    Conversation,
>
    decreases entries.len(),
{
    if entries.len() == 0 {
        Seq::empty()
    } else if entries.last()@.expired(now, max_age) {
        surviving(entries.drop_last(), now, max_age)
    } else {
        surviving(entries.drop_last(), now, max_age).push(entries.last())
    }
}

/// A store after a list of messages was added to the conversation with
/// `id`, one after the other, each with its role, its content and the time
/// at which it was added.
pub open spec fn appended_to(
    store: Map<Seq<char>, ConversationModel>,
    id: Seq<char>,
    added: Seq<(Seq<char>, Seq<char>, u128)>,
) -> Map<Seq<char>, ConversationModel>
    decreases added.len(),
{
    if added.len() == 0 {
        store
    } else {
        let before = appended_to(store, id, added.drop_last());
        before.insert(
            id,
            before[id].appended(added.last().0, added.last().1, added.last().2),
        )
    }
}

/// No append is lost: where a store holds a conversation, any number of
/// messages can be added to it one after the other. The store holds the
/// conversation all along, so each append succeeds; the conversation ends
/// up with every message that was added, in the order of adding, behind
/// those it had; and no other conversation is touched.
pub proof fn lemma_no_append_is_lost(
    store: Map<Seq<char>, ConversationModel>,
    id: Seq<char>,
    added: Seq<(Seq<char>, Seq<char>, u128)>,
)
    requires
        store.contains_key(id),
    ensures
        forall|n: int|
            0 <= n <= added.len() ==> (#[trigger] appended_to(
                store,
                id,
                added.take(n),
            )).contains_key(id),
        appended_to(store, id, added) == store.insert(id, appended_all(store[id], added)),
        appended_to(store, id, added)[id].messages.len() == store[id].messages.len()
            + added.len(),
    decreases added.len(),
{
    if added.len() > 0 {
        lemma_no_append_is_lost(store, id, added.drop_last());
    }
}

/// The number of nanoseconds in an hour.
pub open spec fn nanos_per_hour() -> u128 {
    3_600_000_000_000
}

/// The ids of a list with one more conversation at its end.
proof fn lemma_ids_push(entries: Seq<Conversation>, c: Conversation)
    ensures
        conversation_ids(entries.push(c)) == conversation_ids(entries).push(c.id@),
        conversation_ids(entries.push(c)).drop_last() == conversation_ids(entries),
{
}

/// A conversation with an id that the store does not hold, added at the
/// end, is added to the mapping.
proof fn lemma_store_push(entries: Seq<Conversation>, c: Conversation)
    requires
        !conversation_ids(entries).contains(c.id@),
    ensures
        store_map(entries.push(c)) == store_map(entries).insert(c.id@, c@),
{
    let ids = conversation_ids(entries);
    let after = entries.push(c);
    lemma_ids_push(entries, c);
    assert forall|id: Seq<char>| #[trigger]
        store_map(after).contains_key(id) == store_map(entries).insert(c.id@, c@).contains_key(
            id,
        ) by {
        lemma_first_index_push(ids, c.id@, id);
    }
    assert forall|id: Seq<char>| store_map(after).contains_key(id) implies #[trigger] store_map(
        after,
    )[id] == store_map(entries).insert(c.id@, c@)[id] by {
        lemma_first_index_push(ids, c.id@, id);
        lemma_first_index(ids, id);
    }
}

/// A conversation put in the place of the one that bears its id replaces
/// that one in the mapping.
proof fn lemma_store_replace(entries: Seq<Conversation>, i: int, c: Conversation)
    requires
        0 <= i < entries.len(),
        i == first_index(conversation_ids(entries), c.id@),
        entries[i].id@ == c.id@,
    ensures
        conversation_ids(entries.update(i, c)) == conversation_ids(entries),
        store_map(entries.update(i, c)) == store_map(entries).insert(c.id@, c@),
{
    let ids = conversation_ids(entries);
    let after = entries.update(i, c);
    assert(conversation_ids(after) =~= ids);
    assert forall|id: Seq<char>| store_map(after).contains_key(id) implies #[trigger] store_map(
        after,
    )[id] == store_map(entries).insert(c.id@, c@)[id] by {
        lemma_first_index(ids, id);
    }
    assert(ids[i] == c.id@);
}

/// In a list without repeated ids the last conversation bears an id that
/// none before it bears, and the list in front of it is without repeated
/// ids too.
proof fn lemma_last_id_is_new(entries: Seq<Conversation>)
    requires
        entries.len() > 0,
        conversation_ids(entries).no_duplicates(),
    ensures
        entries == entries.drop_last().push(entries.last()),
        conversation_ids(entries.drop_last()).no_duplicates(),
        !conversation_ids(entries.drop_last()).contains(entries.last().id@),
{
    let ids = conversation_ids(entries);
    let front_ids = conversation_ids(entries.drop_last());
    assert(entries =~= entries.drop_last().push(entries.last()));
    assert(front_ids =~= ids.drop_last());
    if front_ids.contains(entries.last().id@) {
        let k = choose|k: int| 0 <= k < front_ids.len() && front_ids[k] == entries.last().id@;
        assert(ids[k] == ids[entries.len() - 1]);
    }
}

/// A store without repeated ids holds as many conversations as its list is
/// long.
proof fn lemma_store_len(entries: Seq<Conversation>)
    requires
        conversation_ids(entries).no_duplicates(),
    ensures
        store_map(entries).dom().finite(),
        store_map(entries).len() == entries.len(),
    decreases entries.len(),
{
    if entries.len() == 0 {
        assert(store_map(entries).dom() =~= Set::<Seq<char>>::empty());
    } else {
        lemma_last_id_is_new(entries);
        lemma_store_len(entries.drop_last());
        lemma_store_push(entries.drop_last(), entries.last());
    }
}

/// What survives a sweep of a list without repeated ids: a list without
/// repeated ids that stands for the swept mapping.
proof fn lemma_surviving(entries: Seq<Conversation>, now: u128, max_age: u128)
    requires
        conversation_ids(entries).no_duplicates(),
    ensures
        conversation_ids(surviving(entries, now, max_age)).no_duplicates(),
        store_map(surviving(entries, now, max_age)) == swept(store_map(entries), now, max_age),
        surviving(entries, now, max_age).len() <= entries.len(),
    decreases entries.len(),
{
    if entries.len() > 0 {
        let front = entries.drop_last();
        let c = entries.last();
        lemma_last_id_is_new(entries);
        lemma_surviving(front, now, max_age);
        lemma_store_push(front, c);
        let kept_front = surviving(front, now, max_age);
        assert(!store_map(kept_front).contains_key(c.id@));
        if !c@.expired(now, max_age) {
            lemma_store_push(kept_front, c);
            lemma_ids_push(kept_front, c);
        }
    }
}

/// The store of conversations.
pub struct ConversationManager {
    conversations: Vec<Conversation>,
    max_age: u128,
}

impl View for ConversationManager {
    type V = Map<Seq<char>, ConversationModel>;

    closed spec fn view(&self) -> Map<Seq<char>, ConversationModel> {
        store_map(self.conversations@)
    }
}

impl ConversationManager {
    /// No two conversations of the store bear the same id.
    #[verifier::type_invariant]
    spec fn distinct_ids(&self) -> bool {
        conversation_ids(self.conversations@).no_duplicates()
    }

    /// The age, in nanoseconds since its last update, beyond which a
    /// conversation is swept out.
    pub closed spec fn retention(&self) -> u128 {
        self.max_age
    }

    /// An empty store that keeps a conversation for `max_age_hours` hours
    /// after its last update.
    pub fn new(max_age_hours: u64) -> (r: Self)
        ensures
            r@ == Map::<Seq<char>, ConversationModel>::empty(),
            r.retention() == max_age_hours * nanos_per_hour(),
    {
        let max_age: u128 = (max_age_hours as u128) * 3_600_000_000_000;
        ConversationManager { conversations: Vec::new(), max_age }
    }

    /// The place of the conversation with `id`, if the store holds one.
    fn find(&self, id: &str) -> (r: Option<usize>)
        ensures
            r matches Some(i) ==> i < self.conversations@.len() && i == first_index(
                conversation_ids(self.conversations@),
                id@,
            ) && self.conversations@[i as int].id@ == id@,
            r is Some <==> conversation_ids(self.conversations@).contains(id@),
    {
        let mut i: usize = 0;
        while i < self.conversations.len()
            invariant
                0 <= i <= self.conversations.len(),
                forall|j: int| 0 <= j < i ==> conversation_ids(self.conversations@)[j] != id@,
            decreases self.conversations.len() - i,
        {
            if text_eq(self.conversations[i].id.as_str(), id) {
                proof {
                    lemma_first_index_unique(
                        conversation_ids(self.conversations@),
                        id@,
                        i as int,
                    );
                }
                return Some(i);
            }
            i = i + 1;
        }
        None
    }

    /// How many conversations the store holds.
    pub fn len(&self) -> (r: usize)
        ensures
            r == self@.len(),
    {
        proof {
            use_type_invariant(self);
            lemma_store_len(self.conversations@);
        }
        self.conversations.len()
    }

    /// Creates a conversation with a fresh id, files it and returns a copy
    /// of it. Should the store hold a conversation with that id, which is as
    /// good as impossible, the new one takes its place as an update would.
    pub fn create_conversation(&mut self) -> (r: Result<Conversation, String>)
        ensures
            r matches Ok(c) && is_hyphenated_uuid(c.id@) && c@ == ConversationModel::started(
                c.id@,
                c.created_at,
            ).filed(entry(old(self)@, c.id@), c.created_at) && final(self)@ == old(self)@.insert(
                c.id@,
                c@,
            ),
            r matches Ok(c) ==> (!old(self)@.contains_key(c.id@) ==> c@
                == ConversationModel::started(c.id@, c.created_at)),
            final(self).retention() == old(self).retention(),
    {
        let conversation = Conversation::new();
        let mut copy = conversation.clone();
        let now = conversation.created_at;
        copy.updated_at = self.file(conversation, now);
        Ok(copy)
    }

    /// Creates the conversation with `id` at the time `now`, files it and
    /// returns a copy of it: an empty conversation, created and updated at
    /// `now`. Where the store holds a conversation with that id, the new one
    /// takes its place as an update would: it is not older than the one
    /// that was there.
    pub fn create_conversation_with(&mut self, id: String, now: u128) -> (r: Result<
        Conversation,
        String,
    >)
        ensures
            r matches Ok(c) && c@ == ConversationModel::started(id@, now).filed(
                entry(old(self)@, id@),
                now,
            ) && final(self)@ == old(self)@.insert(id@, c@),
            r matches Ok(c) ==> (!old(self)@.contains_key(id@) ==> c@
                == ConversationModel::started(id@, now)),
            final(self).retention() == old(self).retention(),
    {
        let conversation = Conversation::with_id(id, now);
        let mut copy = conversation.clone();
        copy.updated_at = self.file(conversation, now);
        Ok(copy)
    }

    /// A copy of the conversation with `id`, if the store holds one. The
    /// conversation that is filed under an id bears that id. What is done to
    /// the copy does not reach the store until it is written back with
    /// `update_conversation`.
    pub fn get_conversation(&self, id: &str) -> (r: Option<Conversation>)
        ensures
            r is Some <==> self@.contains_key(id@),
            r matches Some(c) ==> c@ == self@[id@] && c.id@ == id@,
    {
        match self.find(id) {
            Some(i) => Some(self.conversations[i].clone()),
            None => None,
        }
    }

    /// Files `conversation` under its id, in place of the conversation that
    /// was filed under that id, if there was one, and marks it as updated
    /// now.
    pub fn update_conversation(&mut self, conversation: Conversation) -> (r: Result<(), String>)
        ensures
            r is Ok,
            exists|now: u128|
                final(self)@ == old(self)@.insert(
                    conversation.id@,
                    conversation@.filed(entry(old(self)@, conversation.id@), now),
                ),
            final(self).retention() == old(self).retention(),
    {
        let now = now_nanos();
        self.update_conversation_at(conversation, now)
    }

    /// Files `conversation` under its id at the time `now`, in place of the
    /// conversation that was filed under that id, if there was one. The
    /// messages, the metadata and the time of creation are those of
    /// `conversation`, whatever the store held. The time of the last update
    /// is the latest of `now`, the time that `conversation` bears and the
    /// time that the store held: a copy that has gone stale does not set a
    /// conversation back in time.
    pub fn update_conversation_at(&mut self, conversation: Conversation, now: u128) -> (r: Result<
        (),
        String,
    >)
        ensures
            r is Ok,
            final(self)@ == old(self)@.insert(
                conversation.id@,
                conversation@.filed(entry(old(self)@, conversation.id@), now),
            ),
            final(self).retention() == old(self).retention(),
    {
        let _ = self.file(conversation, now);
        Ok(())
    }

    /// Files `conversation` as an update at the time `now` does, and returns
    /// the time of the last update that it bears in the store.
    fn file(&mut self, conversation: Conversation, now: u128) -> (stamp: u128)
        ensures
            final(self)@ == old(self)@.insert(
                conversation.id@,
                conversation@.filed(entry(old(self)@, conversation.id@), now),
            ),
            stamp == conversation@.filed(entry(old(self)@, conversation.id@), now).updated_at,
            final(self).retention() == old(self).retention(),
    {
        let found = self.find(conversation.id.as_str());
        let mut stamp = if now > conversation.updated_at {
            now
        } else {
            conversation.updated_at
        };
        if let Some(i) = found {
            if self.conversations[i].updated_at > stamp {
                stamp = self.conversations[i].updated_at;
            }
        }
        let mut filed = conversation;
        filed.updated_at = stamp;
        self.place(found, filed);
        stamp
    }

    /// Puts `conversation` where `found` says: in the place of the
    /// conversation with its id, or behind all others if there is none.
    fn place(&mut self, found: Option<usize>, conversation: Conversation)
        requires
            found matches Some(i) ==> i < old(self).conversations@.len() && i == first_index(
                conversation_ids(old(self).conversations@),
                conversation.id@,
            ) && old(self).conversations@[i as int].id@ == conversation.id@,
            found is None ==> !conversation_ids(old(self).conversations@).contains(
                conversation.id@,
            ),
        ensures
            final(self)@ == old(self)@.insert(conversation.id@, conversation@),
            final(self).retention() == old(self).retention(),
    {
        proof {
            use_type_invariant(&*self);
        }
        let mut entries: Vec<Conversation> = Vec::new();
        core::mem::swap(&mut self.conversations, &mut entries);
        let ghost before = entries@;
        match found {
            Some(i) => {
                entries[i] = conversation;
                proof {
                    lemma_store_replace(before, i as int, conversation);
                }
            },
            None => {
                entries.push(conversation);
                proof {
                    lemma_store_push(before, conversation);
                    lemma_ids_push(before, conversation);
                }
            },
        }
        self.conversations = entries;
    }

    /// Adds a message to the conversation with `id` now.
    pub fn add_message_to_conversation(
        &mut self,
        conversation_id: &str,
        role: &str,
        content: &str,
    ) -> (r: Result<(), String>)
        ensures
            !old(self)@.contains_key(conversation_id@) ==> (r matches Err(why) && why@
                == not_found_text(conversation_id@) && final(self)@ == old(self)@),
            old(self)@.contains_key(conversation_id@) ==> r is Ok && exists|now: u128|
                final(self)@ == old(self)@.insert(
                    conversation_id@,
                    old(self)@[conversation_id@].appended(role@, content@, now),
                ),
            final(self).retention() == old(self).retention(),
    {
        let now = now_nanos();
        self.add_message_to_conversation_at(conversation_id, role, content, now)
    }

    /// Adds a message to the conversation with `id` at the time `now`. If
    /// the store holds no such conversation, nothing is changed and the
    /// error says so.
    pub fn add_message_to_conversation_at(
        &mut self,
        conversation_id: &str,
        role: &str,
        content: &str,
        now: u128,
    ) -> (r: Result<(), String>)
        ensures
            !old(self)@.contains_key(conversation_id@) ==> (r matches Err(why) && why@
                == not_found_text(conversation_id@) && final(self)@ == old(self)@),
            old(self)@.contains_key(conversation_id@) ==> r is Ok && final(self)@
                == old(self)@.insert(
                conversation_id@,
                old(self)@[conversation_id@].appended(role@, content@, now),
            ),
            final(self).retention() == old(self).retention(),
    {
        proof {
            use_type_invariant(&*self);
        }
        match self.find(conversation_id) {
            None => Err(joined3("Conversa ", conversation_id, " não encontrada")),
            Some(i) => {
                let mut entries: Vec<Conversation> = Vec::new();
                core::mem::swap(&mut self.conversations, &mut entries);
                let ghost before = entries@;
                entries[i].add_message_at(role, content, now);
                proof {
                    let c = entries@[i as int];
                    lemma_store_replace(before, i as int, c);
                }
                self.conversations = entries;
                Ok(())
            },
        }
    }

    /// Removes the conversations that are older than the retention now, and
    /// returns how many were removed.
    pub fn cleanup_old_conversations(&mut self) -> (removed: usize)
        ensures
            exists|now: u128|
                final(self)@ == swept(old(self)@, now, old(self).retention()),
            removed == old(self)@.len() - final(self)@.len(),
            final(self).retention() == old(self).retention(),
    {
        let now = now_nanos();
        self.cleanup_old_conversations_at(now)
    }

    /// Removes the conversations that are older than the retention at the
    /// time `now`, counted from their last update, and returns how many were
    /// removed. A conversation that is not older stays as it is.
    pub fn cleanup_old_conversations_at(&mut self, now: u128) -> (removed: usize)
        ensures
            final(self)@ == swept(old(self)@, now, old(self).retention()),
            removed == old(self)@.len() - final(self)@.len(),
            final(self).retention() == old(self).retention(),
    {
        proof {
            use_type_invariant(&*self);
        }
        let mut entries: Vec<Conversation> = Vec::new();
        core::mem::swap(&mut self.conversations, &mut entries);
        let ghost before = entries@;
        let max_age = self.max_age;
        let total = entries.len();
        let mut kept: Vec<Conversation> = Vec::new();
        let mut removed: usize = 0;
        for c in it: entries
            invariant
                it.seq() == before,
                total == before.len(),
                kept@ == surviving(before.take(it.index() as int), now, max_age),
                removed + kept@.len() == it.index(),
        {
            proof {
                let k = it.index() as int;
                assert(before.take(k + 1).drop_last() =~= before.take(k));
            }
            if c.is_expired(now, max_age) {
                removed = removed + 1;
            } else {
                kept.push(c);
            }
        }
        proof {
            assert(before.take(before.len() as int) =~= before);
            lemma_surviving(before, now, max_age);
            lemma_store_len(before);
            lemma_store_len(kept@);
        }
        self.conversations = kept;
        removed
    }
}

/// The error text for an id that the store does not hold.
pub open spec fn not_found_text(id: Seq<char>) -> Seq<char> {
    "Conversa "@ + id + " não encontrada"@
}

} // verus!
