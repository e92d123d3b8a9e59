//! The persisted user record: one identity, one conversation, one token.

use vstd::prelude::*;

verus! {

/// Mathematical view of a user record: the numeric keys as they are, the
/// strings as character sequences.
pub struct UserView {
    pub id: u64,
    pub name: Seq<char>,
    pub token: Seq<char>,
    pub chat_id: u64,
}

/// The sole persisted entity: a platform identity bound to a conversation
/// handle and to the secret token that authorizes relaying to it.
///
/// `id` is the platform-assigned user id, `name` a best-effort display name
/// (possibly empty), `token` the opaque secret issued at registration, and
/// `chat_id` the conversation handle outbound messages are addressed to.
/// `id`, `token` and `chat_id` are each unique across a store's records.
#[derive(Debug)]
pub struct User {
    pub id: u64,
    pub name: String,
    pub token: String,
    pub chat_id: u64,
}

impl View for User {
    type V = UserView;

    open spec fn view(&self) -> UserView {
        UserView { id: self.id, name: self.name@, token: self.token@, chat_id: self.chat_id }
    }
}

impl User {
    /// A field-for-field copy of the record.
    pub fn duplicate(&self) -> (r: User)
        ensures
            r@ == self@,
    {
        User {
            id: self.id,
            name: self.name.clone(),
            token: self.token.clone(),
            chat_id: self.chat_id,
        }
    }
}

} // verus!
