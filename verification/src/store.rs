//! The user store: a table of user records in which identity, token and
//! conversation handle are each globally unique.
//!
//! `create` refuses a record that collides with any existing record on any
//! of the three keys, so a record is immutable once stored and tokens are
//! never reused. Lookup is by token (relay flow) and by conversation handle
//! (registration flow).

use vstd::prelude::*;

use crate::user::{User, UserView};

verus! {

/// An opaque storage fault (I/O, corruption, connection loss). The detail
/// stays at the storage boundary; only the kind crosses into the core.
#[derive(Debug, Clone, Copy, PartialEq, Eq)]
pub struct StorageError;

/// Why an insertion failed: a collision on one of the three unique keys
/// (expected during re-registration), or some other storage fault.
#[derive(Debug, Clone, Copy, PartialEq, Eq)]
pub enum CreateError {
    DuplicateKey,
    Storage(StorageError),
}

/// Some record in `s` already uses this identity.
pub open spec fn has_id(s: Seq<UserView>, id: u64) -> bool {
    exists|i: int| 0 <= i < s.len() && s[i].id == id
}

/// Some record in `s` already uses this token.
pub open spec fn has_token(s: Seq<UserView>, token: Seq<char>) -> bool {
    exists|i: int| 0 <= i < s.len() && s[i].token == token
}

/// Some record in `s` already uses this conversation handle.
pub open spec fn has_chat_id(s: Seq<UserView>, chat_id: u64) -> bool {
    exists|i: int| 0 <= i < s.len() && s[i].chat_id == chat_id
}

/// `u` collides with no record of `s` on any of the three unique keys.
pub open spec fn can_insert(s: Seq<UserView>, u: UserView) -> bool {
    !has_id(s, u.id) && !has_token(s, u.token) && !has_chat_id(s, u.chat_id)
}

/// The store's invariant: identities, tokens and conversation handles are
/// each pairwise distinct across all records.
pub open spec fn store_inv(s: Seq<UserView>) -> bool {
    forall|i: int, j: int|
        0 <= i < j < s.len() ==> s[i].id != s[j].id && s[i].token != s[j].token
            && s[i].chat_id != s[j].chat_id
}

/// The first record of `s` whose token is `token`, if any.
pub open spec fn spec_find_by_token(s: Seq<UserView>, token: Seq<char>) -> Option<UserView>
    decreases s.len(),
{
    if s.len() == 0 {
        None
    } else if s[0].token == token {
        Some(s[0])
    } else {
        spec_find_by_token(s.drop_first(), token)
    }
}

/// The first record of `s` whose conversation handle is `chat_id`, if any.
pub open spec fn spec_find_by_chat_id(s: Seq<UserView>, chat_id: u64) -> Option<UserView>
    decreases s.len(),
{
    if s.len() == 0 {
        None
    } else if s[0].chat_id == chat_id {
        Some(s[0])
    } else {
        spec_find_by_chat_id(s.drop_first(), chat_id)
    }
}

/// The view of an optional record.
pub open spec fn view_found(o: Option<User>) -> Option<UserView> {
    match o {
        Some(u) => Some(u@),
        None => None,
    }
}

proof fn lemma_find_token_none(s: Seq<UserView>, token: Seq<char>)
    requires
        forall|k: int| 0 <= k < s.len() ==> s[k].token != token,
    ensures
        spec_find_by_token(s, token) is None,
    decreases s.len(),
{
    if s.len() > 0 {
        lemma_find_token_none(s.drop_first(), token);
    }
}

proof fn lemma_find_token_first(s: Seq<UserView>, token: Seq<char>, i: int)
    requires
        0 <= i < s.len(),
        s[i].token == token,
        forall|k: int| 0 <= k < i ==> s[k].token != token,
    ensures
        spec_find_by_token(s, token) == Some(s[i]),
    decreases i,
{
    if i > 0 {
        lemma_find_token_first(s.drop_first(), token, i - 1);
    }
}

proof fn lemma_find_chat_none(s: Seq<UserView>, chat_id: u64)
    requires
        forall|k: int| 0 <= k < s.len() ==> s[k].chat_id != chat_id,
    ensures
        spec_find_by_chat_id(s, chat_id) is None,
    decreases s.len(),
{
    if s.len() > 0 {
        lemma_find_chat_none(s.drop_first(), chat_id);
    }
}

proof fn lemma_find_chat_first(s: Seq<UserView>, chat_id: u64, i: int)
    requires
        0 <= i < s.len(),
        s[i].chat_id == chat_id,
        forall|k: int| 0 <= k < i ==> s[k].chat_id != chat_id,
    ensures
        spec_find_by_chat_id(s, chat_id) == Some(s[i]),
    decreases i,
{
    if i > 0 {
        lemma_find_chat_first(s.drop_first(), chat_id, i - 1);
    }
}

/// Tokens are never shared: under the store invariant, two distinct records
/// always carry distinct tokens.
pub proof fn lemma_tokens_never_reused(s: Seq<UserView>, i: int, j: int)
    requires
        store_inv(s),
        0 <= i < s.len(),
        0 <= j < s.len(),
        i != j,
    ensures
        s[i].token != s[j].token,
{
}

/// Round trip: after inserting a record that collides with nothing, looking
/// it up by its token or by its conversation handle returns exactly it.
pub proof fn lemma_create_then_find(s: Seq<UserView>, u: UserView)
    requires
        can_insert(s, u),
    ensures
        spec_find_by_token(s.push(u), u.token) == Some(u),
        spec_find_by_chat_id(s.push(u), u.chat_id) == Some(u),
{
    assert forall|k: int| 0 <= k < s.len() implies s.push(u)[k].token != u.token
        && s.push(u)[k].chat_id != u.chat_id by {
        assert(s[k] == s.push(u)[k]);
    }
    lemma_find_token_first(s.push(u), u.token, s.len() as int);
    lemma_find_chat_first(s.push(u), u.chat_id, s.len() as int);
}

/// In-memory model of the persisted user table. Its view is the sequence of
/// stored records, oldest first; `inv` is the three-key uniqueness invariant
/// that every operation preserves.
pub struct UserStore {
    users: Vec<User>,
}

impl View for UserStore {
    type V = Seq<UserView>;

    closed spec fn view(&self) -> Seq<UserView> {
        self.users@.map_values(|u: User| u@)
    }
}

impl UserStore {
    /// The uniqueness invariant over the stored records.
    pub open spec fn inv(&self) -> bool {
        store_inv(self@)
    }

    /// An empty store: the idempotent schema-creation step of a durable
    /// backend corresponds to starting from (or keeping) this state.
    pub fn new() -> (s: UserStore)
        ensures
            s@ =~= Seq::<UserView>::empty(),
            s.inv(),
    {
        UserStore { users: Vec::new() }
    }

    /// How many records are stored.
    pub fn len(&self) -> (n: usize)
        ensures
            n == self@.len(),
    {
        self.users.len()
    }

    /// Inserts a record. Succeeds exactly when none of the record's three
    /// keys (identity, token, conversation handle) is already present;
    /// otherwise reports `DuplicateKey` and leaves the store unchanged.
    pub fn create(&mut self, user: &User) -> (r: Result<(), CreateError>)
        requires
            old(self).inv(),
        ensures
            final(self).inv(),
            can_insert(old(self)@, user@) ==> r is Ok && final(self)@ == old(self)@.push(user@),
            !can_insert(old(self)@, user@) ==> r == Result::<(), CreateError>::Err(
                CreateError::DuplicateKey,
            ) && final(self)@ == old(self)@,
    {
        let n = self.users.len();
        let mut i: usize = 0;
        while i < n
            invariant
                *self == *old(self),
                old(self).inv(),
                n == self@.len(),
                i <= n,
                forall|k: int|
                    0 <= k < i ==> self@[k].id != user@.id && self@[k].token != user@.token
                        && self@[k].chat_id != user@.chat_id,
            decreases n - i,
        {
            let stored = &self.users[i];
            if stored.id == user.id || stored.token == user.token || stored.chat_id == user.chat_id
            {
                proof {
                    assert(self@[i as int].id == user@.id || self@[i as int].token == user@.token
                        || self@[i as int].chat_id == user@.chat_id);
                }
                return Err(CreateError::DuplicateKey);
            }
            i += 1;
        }
        let ghost before = self@;
        self.users.push(user.duplicate());
        proof {
            assert(self@ =~= before.push(user@));
            assert forall|a: int, b: int| 0 <= a < b < self@.len() implies self@[a].id
                != self@[b].id && self@[a].token != self@[b].token && self@[a].chat_id
                != self@[b].chat_id by {
                if b < before.len() {
                    assert(self@[a] == before[a] && self@[b] == before[b]);
                } else {
                    assert(self@[b] == user@);
                    assert(before[a].id != user@.id && before[a].token != user@.token
                        && before[a].chat_id != user@.chat_id);
                }
            }
        }
        Ok(())
    }

    /// Looks a record up by its token. Never fails; returns a copy of the
    /// first record carrying the token, or `None` when no record does.
    pub fn find_by_token(&self, token: &String) -> (r: Result<Option<User>, StorageError>)
        ensures
            r matches Ok(o) && view_found(o) == spec_find_by_token(self@, token@),
    {
        let n = self.users.len();
        let mut i: usize = 0;
        while i < n
            invariant
                n == self@.len(),
                i <= n,
                forall|k: int| 0 <= k < i ==> self@[k].token != token@,
            decreases n - i,
        {
            let stored = &self.users[i];
            if stored.token == *token {
                proof {
                    lemma_find_token_first(self@, token@, i as int);
                }
                return Ok(Some(stored.duplicate()));
            }
            i += 1;
        }
        proof {
            lemma_find_token_none(self@, token@);
        }
        Ok(None)
    }

    /// Looks a record up by its conversation handle. Never fails; returns a
    /// copy of the first record bound to the handle, or `None` when no
    /// record is.
    pub fn find_by_chat_id(&self, chat_id: u64) -> (r: Result<Option<User>, StorageError>)
        ensures
            r matches Ok(o) && view_found(o) == spec_find_by_chat_id(self@, chat_id),
    {
        let n = self.users.len();
        let mut i: usize = 0;
        while i < n
            invariant
                n == self@.len(),
                i <= n,
                forall|k: int| 0 <= k < i ==> self@[k].chat_id != chat_id,
            decreases n - i,
        {
            let stored = &self.users[i];
            if stored.chat_id == chat_id {
                proof {
                    lemma_find_chat_first(self@, chat_id, i as int);
                }
                return Ok(Some(stored.duplicate()));
            }
            i += 1;
        }
        proof {
            lemma_find_chat_none(self@, chat_id);
        }
        Ok(None)
    }
}

} // verus!
