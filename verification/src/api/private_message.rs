//! Calls about private messages.

use crate::api::{ApiCall, Sensitive};
use vstd::prelude::*;

verus! {

/// The call that lists the visitor's private messages, all of them or the
/// unread ones only.
pub fn list_private_messages(unread_only: bool, auth: Sensitive) -> (call: ApiCall)
    ensures
        call == (ApiCall::ListPrivateMessages { unread_only, auth }),
{
    ApiCall::ListPrivateMessages { unread_only, auth }
}

/// The call that marks a private message as read.
pub fn mark_private_message_read(private_message_id: i32, auth: Sensitive) -> (call: ApiCall)
    ensures
        call == (ApiCall::MarkPrivateMessageAsRead { private_message_id, read: true, auth }),
{
    ApiCall::MarkPrivateMessageAsRead { private_message_id, read: true, auth }
}

/// The call that sends a private message.
pub fn create_private_message(content: String, recipient_id: i32, auth: Sensitive) -> (call:
    ApiCall)
    ensures
        call == (ApiCall::CreatePrivateMessage { content, recipient_id, auth }),
{
    ApiCall::CreatePrivateMessage { content, recipient_id, auth }
}

} // verus!
