//! The sponsored message: a pull-fetched, one-shot entity.
//!
//! The remote request itself lives with the transport layer outside this
//! crate; what it hands back is a raw payload, and the one-shot
//! construction below resolves it against the chat registry exactly as
//! `Entity` construction does. Nothing partially constructed is ever
//! observable: the value exists only once fully populated.

use vstd::prelude::*;

use crate::chat_list::{chat_pos, chats_contain, ChatList};
use crate::types::{ChatRef, MessageContent, MessageContentV, ResolveError};
use crate::update::RawSponsoredMessage;

verus! {

/// A sponsored message, fully fixed at construction.
pub struct SponsoredMessage {
    message_id: i64,
    sponsor_chat: ChatRef,
    content: MessageContent,
}

/// The mathematical state of a sponsored message.
pub ghost struct SponsoredMessageV {
    pub message_id: i64,
    pub sponsor_chat: ChatRef,
    pub content: MessageContentV,
}

impl View for SponsoredMessage {
    type V = SponsoredMessageV;

    closed spec fn view(&self) -> SponsoredMessageV {
        SponsoredMessageV {
            message_id: self.message_id,
            sponsor_chat: self.sponsor_chat,
            content: self.content@,
        }
    }
}

impl SponsoredMessage {
    /// Builds a sponsored message from a fetched raw payload, resolving
    /// the sponsor chat's bare id into a live reference. A failed fetch
    /// or an unresolvable sponsor affects no existing state.
    pub fn from_raw(raw: &RawSponsoredMessage, chats: &ChatList) -> (r: Result<
        SponsoredMessage,
        ResolveError,
    >)
        requires
            chats.wf(),
        ensures
            match r {
                Ok(s) => {
                    &&& chats_contain(chats@, raw.sponsor_chat_id)
                    &&& s@.message_id == raw.message_id
                    &&& s@.sponsor_chat.position < chats@.len()
                    &&& chats@[s@.sponsor_chat.position as int].id == raw.sponsor_chat_id
                    &&& s@.content == raw.content@
                },
                Err(e) => !chats_contain(chats@, raw.sponsor_chat_id) && e
                    == (ResolveError::ChatNotFound { chat_id: raw.sponsor_chat_id }),
            },
    {
        match chats.resolve(raw.sponsor_chat_id) {
            Ok(sponsor_chat) => {
                proof {
                    assert(chats_contain(chats@, raw.sponsor_chat_id)) by {
                        assert(chats@[sponsor_chat.position as int].id == raw.sponsor_chat_id);
                    }
                }
                Ok(
                    SponsoredMessage {
                        message_id: raw.message_id,
                        sponsor_chat,
                        content: raw.content.clone(),
                    },
                )
            }
            Err(e) => Err(e),
        }
    }

    /// The sponsored message's id.
    pub fn message_id(&self) -> (r: i64)
        ensures
            r == self@.message_id,
    {
        self.message_id
    }

    /// The sponsoring chat's live reference.
    pub fn sponsor_chat(&self) -> (r: ChatRef)
        ensures
            r == self@.sponsor_chat,
    {
        self.sponsor_chat
    }

    /// The content.
    pub fn content(&self) -> (r: &MessageContent)
        ensures
            r@ == self@.content,
    {
        &self.content
    }
}

} // verus!
