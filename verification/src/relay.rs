//! The relay flow: resolve a bearer token to a conversation, forward the
//! message, and report a structured outcome. The transport call itself never
//! fails: every failure mode collapses into the response body, and internal
//! failure detail never crosses the boundary.

use vstd::prelude::*;

use crate::store::{spec_find_by_token, StorageError, UserStore};
use crate::user::User;

verus! {

/// An outbound delivery failure (platform unreachable, rejection, rate
/// limit). The cause stays at the platform boundary.
#[derive(Debug, Clone, Copy, PartialEq, Eq)]
pub struct PlatformError;

/// A relay request: the bearer token and the message to forward. The message
/// is opaque text; it is never interpreted.
pub struct SendMessage {
    pub token: String,
    pub message: String,
}

/// The structured outcome reported to the HTTP caller, in all cases.
pub struct SendMessageResponse {
    pub success: bool,
    pub message: String,
}

/// The response after a successful delivery: success, empty message.
pub open spec fn is_delivered_response(r: SendMessageResponse) -> bool {
    r.success && r.message@ == Seq::<char>::empty()
}

/// The response when no record holds the presented token.
pub open spec fn is_invalid_token_response(r: SendMessageResponse) -> bool {
    !r.success && r.message@ == "invalid token."@
}

/// The generic response when the token lookup itself failed; the storage
/// fault is not revealed.
pub open spec fn is_storage_fault_response(r: SendMessageResponse) -> bool {
    !r.success && r.message@ == "invalid parameter."@
}

/// The generic response when the platform refused the delivery; the cause is
/// not revealed.
pub open spec fn is_delivery_failed_response(r: SendMessageResponse) -> bool {
    !r.success && r.message@ == "failed to send message."@
}

/// The relay's next move once the token has been looked up: deliver to the
/// found record's conversation handle, or answer the caller at once.
pub enum RelayStep {
    Deliver(u64),
    Respond(SendMessageResponse),
}

/// One outbound delivery as handed to the platform: the conversation handle
/// addressed and the text forwarded, unchanged.
pub struct Delivery {
    pub chat_id: u64,
    pub message: String,
}

/// Decides the relay's next move from the token lookup outcome. A found
/// record leads to a delivery to its conversation handle; an unknown token
/// is answered "invalid token."; a storage fault is answered with the
/// generic "invalid parameter." and no detail.
pub fn relay_plan(lookup: Result<Option<User>, StorageError>) -> (step: RelayStep)
    ensures
        match lookup {
            Ok(Some(u)) => step == RelayStep::Deliver(u.chat_id),
            Ok(None) => step matches RelayStep::Respond(r) && is_invalid_token_response(r),
            Err(_) => step matches RelayStep::Respond(r) && is_storage_fault_response(r),
        },
{
    match lookup {
        Ok(Some(user)) => RelayStep::Deliver(user.chat_id),
        Ok(None) => RelayStep::Respond(
            SendMessageResponse {
                success: false,
                message: String::from_str("invalid token."),
            },
        ),
        Err(_) => RelayStep::Respond(
            SendMessageResponse {
                success: false,
                message: String::from_str("invalid parameter."),
            },
        ),
    }
}

/// Turns the platform's answer to a delivery into the caller's response:
/// success with an empty message, or the generic delivery-failure message.
pub fn relay_conclude(delivery: Result<(), PlatformError>) -> (r: SendMessageResponse)
    ensures
        delivery is Ok ==> is_delivered_response(r),
        delivery is Err ==> is_delivery_failed_response(r),
{
    match delivery {
        Ok(_) => SendMessageResponse { success: true, message: String::new() },
        Err(_) => SendMessageResponse {
            success: false,
            message: String::from_str("failed to send message."),
        },
    }
}

/// The relay flow, end to end, against a store. The token is resolved; only
/// when a record holds it is the message handed to the platform, addressed
/// to that record's conversation handle. `delivery` stands for the
/// platform's answer to that attempt and is consulted only then. Returns the
/// caller's response and the delivery that was handed out, if any; the store
/// is only read.
pub fn relay(store: &UserStore, request: &SendMessage, delivery: Result<(), PlatformError>) -> (out:
    (SendMessageResponse, Option<Delivery>))
    ensures
        match spec_find_by_token(store@, request.token@) {
            Some(u) => out.1 matches Some(d) && d.chat_id == u.chat_id && d.message@
                == request.message@ && (delivery is Ok ==> is_delivered_response(out.0)) && (
            delivery is Err ==> is_delivery_failed_response(out.0)),
            None => out.1 is None && is_invalid_token_response(out.0),
        },
{
    let lookup = store.find_by_token(&request.token);
    match relay_plan(lookup) {
        RelayStep::Deliver(chat_id) => {
            let response = relay_conclude(delivery);
            (response, Some(Delivery { chat_id, message: request.message.clone() }))
        },
        RelayStep::Respond(response) => (response, None),
    }
}

} // verus!
