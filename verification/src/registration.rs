//! The registration flow: a "start" interaction issues the requesting chat
//! identity its token, or hands back the one it already has.
//!
//! The flow is idempotent and race-tolerant by construction: the candidate
//! record is inserted under the store's uniqueness constraint — a collision
//! is the expected re-registration case and is absorbed, never surfaced —
//! and the reply always carries the token the store authoritatively holds
//! for the conversation afterwards.

use vstd::prelude::*;

use crate::store::{
    can_insert, has_chat_id, has_id, has_token, lemma_create_then_find, spec_find_by_chat_id,
    store_inv, StorageError, UserStore,
};
use crate::user::{User, UserView};

verus! {

/// The originating user of an inbound event, when the platform identifies
/// one: the platform-assigned id and an optional display name.
pub struct Sender {
    pub id: u64,
    pub name: Option<String>,
}

/// An inbound "start" interaction: the originating user (absent for a
/// channel broadcast) and the conversation it arrived in.
pub struct StartEvent {
    pub from: Option<Sender>,
    pub chat_id: u64,
}

/// What the flow answers into the originating conversation: the
/// authoritative token, or a generic failure note that leaks no internal
/// detail.
pub enum RegistrationReply {
    Token(String),
    Failure,
}

/// The flow's move on receiving a "start" event: ignore it, or insert a
/// candidate record.
pub enum RegistrationStep {
    Ignore,
    CreateRecord(User),
}

/// The candidate record built from an identified sender: the sender's
/// identity, its display name or the empty string, the freshly issued token,
/// and the event's conversation handle.
pub open spec fn spec_candidate(sender: Sender, chat_id: u64, token: Seq<char>) -> UserView {
    UserView {
        id: sender.id,
        name: match sender.name {
            Some(n) => n@,
            None => Seq::<char>::empty(),
        },
        token,
        chat_id,
    }
}

/// What the store holds after one registration attempt with this candidate:
/// the candidate appended when no key collides, the store unchanged
/// otherwise.
pub open spec fn spec_register_store(s: Seq<UserView>, candidate: UserView) -> Seq<UserView> {
    if can_insert(s, candidate) {
        s.push(candidate)
    } else {
        s
    }
}

/// The token a registration reply carries: that of the record the store
/// holds for the conversation, if any.
pub open spec fn spec_reply_token(s: Seq<UserView>, chat_id: u64) -> Option<Seq<char>> {
    match spec_find_by_chat_id(s, chat_id) {
        Some(u) => Some(u.token),
        None => None,
    }
}

/// Begins the state machine for a "start" event. An event with no
/// originating user (a channel broadcast) is ignored — no store access, no
/// reply. Otherwise the candidate record is built from the event and the
/// freshly issued token.
pub fn registration_begin(event: &StartEvent, fresh_token: String) -> (step: RegistrationStep)
    ensures
        match event.from {
            None => step == RegistrationStep::Ignore,
            Some(sender) => step matches RegistrationStep::CreateRecord(u) && u@ == spec_candidate(
                sender,
                event.chat_id,
                fresh_token@,
            ),
        },
{
    match &event.from {
        None => RegistrationStep::Ignore,
        Some(sender) => RegistrationStep::CreateRecord(
            User {
                id: sender.id,
                name: match &sender.name {
                    Some(n) => n.clone(),
                    None => String::new(),
                },
                token: fresh_token,
                chat_id: event.chat_id,
            },
        ),
    }
}

/// Ends the state machine: the reply carries the token of the record the
/// store holds for the conversation. A failed or empty lookup yields the
/// generic failure reply; no internal detail crosses the chat boundary.
pub fn registration_reply(lookup: Result<Option<User>, StorageError>) -> (reply: RegistrationReply)
    ensures
        match lookup {
            Ok(Some(u)) => reply matches RegistrationReply::Token(t) && t@ == u.token@,
            _ => reply == RegistrationReply::Failure,
        },
{
    match lookup {
        Ok(Some(user)) => RegistrationReply::Token(user.token),
        _ => RegistrationReply::Failure,
    }
}

/// The registration flow for one inbound "start" event, against a store.
///
/// A broadcast with no originating user changes nothing and replies nothing.
/// Otherwise the candidate record is inserted when none of its keys
/// collides — a collision is the expected re-registration steady state and
/// is absorbed — and the reply carries the token of the record the store
/// then holds for the conversation: the fresh one on first registration, the
/// pre-existing one thereafter.
pub fn register(store: &mut UserStore, event: &StartEvent, fresh_token: String) -> (reply: Option<
    RegistrationReply,
>)
    requires
        old(store).inv(),
    ensures
        final (store).inv(),
        event.from is None ==> final (store)@ == old(store)@ && reply is None,
        event.from matches Some(sender) ==> {
            let candidate = spec_candidate(sender, event.chat_id, fresh_token@);
            &&& final (store)@ == spec_register_store(old(store)@, candidate)
            &&& (match spec_reply_token(final (store)@, event.chat_id) {
                Some(t) => reply matches Some(RegistrationReply::Token(tok)) && tok@ == t,
                None => reply == Some(RegistrationReply::Failure),
            })
        },
{
    match registration_begin(event, fresh_token) {
        RegistrationStep::Ignore => None,
        RegistrationStep::CreateRecord(user) => {
            // A duplicate key here is the expected steady state (the user
            // already registered); any create outcome still leads to the
            // authoritative lookup below.
            let _ = store.create(&user);
            let lookup = store.find_by_chat_id(event.chat_id);
            Some(registration_reply(lookup))
        },
    }
}

/// How many records of `s` belong to the identity `id`.
pub open spec fn count_with_id(s: Seq<UserView>, id: u64) -> nat
    decreases s.len(),
{
    if s.len() == 0 {
        0
    } else {
        (if s[0].id == id {
            1nat
        } else {
            0nat
        }) + count_with_id(s.drop_first(), id)
    }
}

proof fn lemma_count_id_absent(s: Seq<UserView>, id: u64)
    requires
        !has_id(s, id),
    ensures
        count_with_id(s, id) == 0,
    decreases s.len(),
{
    if s.len() > 0 {
        assert(forall|i: int| 0 <= i < s.drop_first().len() ==> s.drop_first()[i] == s[i + 1]);
        lemma_count_id_absent(s.drop_first(), id);
    }
}

proof fn lemma_count_id_push(s: Seq<UserView>, u: UserView, id: u64)
    ensures
        count_with_id(s.push(u), id) == count_with_id(s, id) + (
        if u.id == id {
            1nat
        } else {
            0nat
        }),
    decreases s.len(),
{
    if s.len() == 0 {
        assert(count_with_id(s, id) == 0);
        assert(s.push(u)[0] == u);
        assert(s.push(u).drop_first() =~= Seq::<UserView>::empty());
        assert(count_with_id(s.push(u).drop_first(), id) == 0);
    } else {
        assert(s.push(u)[0] == s[0]);
        assert(s.push(u).drop_first() =~= s.drop_first().push(u));
        lemma_count_id_push(s.drop_first(), u, id);
    }
}

/// Registration is idempotent: registering the same identity and
/// conversation twice — with a fresh token each time — leaves exactly one
/// record for that identity, the second attempt stores nothing, and both
/// replies carry the same token, the one issued first.
pub proof fn lemma_register_twice_one_token(
    s: Seq<UserView>,
    sender: Sender,
    chat_id: u64,
    t1: Seq<char>,
    t2: Seq<char>,
)
    requires
        store_inv(s),
        !has_id(s, sender.id),
        !has_chat_id(s, chat_id),
        !has_token(s, t1),
    ensures
        ({
            let s1 = spec_register_store(s, spec_candidate(sender, chat_id, t1));
            let s2 = spec_register_store(s1, spec_candidate(sender, chat_id, t2));
            &&& s2 == s1
            &&& count_with_id(s2, sender.id) == 1
            &&& spec_reply_token(s1, chat_id) == Some(t1)
            &&& spec_reply_token(s2, chat_id) == Some(t1)
        }),
{
    let c1 = spec_candidate(sender, chat_id, t1);
    let c2 = spec_candidate(sender, chat_id, t2);
    let s1 = spec_register_store(s, c1);
    assert(can_insert(s, c1));
    assert(s1 == s.push(c1));
    assert(has_id(s1, sender.id)) by {
        assert(s1[s.len() as int] == c1);
    }
    assert(spec_register_store(s1, c2) == s1);
    lemma_count_id_absent(s, sender.id);
    lemma_count_id_push(s, c1, sender.id);
    lemma_create_then_find(s, c1);
}

} // verus!
