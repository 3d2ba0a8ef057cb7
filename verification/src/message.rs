use vstd::prelude::*;

verus! {

/// One observed chat message, as recorded durably by the store.
///
/// `id` is the store-assigned surrogate identifier: unique, strictly
/// increasing in insertion order, and never reused. `guild_id`,
/// `channel_id` and `platform_message_id` are opaque identifiers from
/// the source platform; together they locate the original message.
/// `image_hash` is reserved for a future perceptual-hash duplicate
/// signal; no current code path populates it.
pub struct StoredMessage {
    pub id: u64,
    pub guild_id: String,
    pub channel_id: String,
    pub platform_message_id: String,
    pub author_id: String,
    pub content: String,
    pub image_hash: Option<String>,
}

impl Clone for StoredMessage {
    fn clone(&self) -> (r: Self)
        ensures
            r == *self,
    {
        let image_hash = match &self.image_hash {
            Some(h) => Some(h.clone()),
            None => None,
        };
        StoredMessage {
            id: self.id,
            guild_id: self.guild_id.clone(),
            channel_id: self.channel_id.clone(),
            platform_message_id: self.platform_message_id.clone(),
            author_id: self.author_id.clone(),
            content: self.content.clone(),
            image_hash,
        }
    }
}

/// One inbound event from the chat gateway.
///
/// `guild_id` is absent for messages without a guild context (direct
/// messages); only guild-scoped messages are ever persisted.
pub struct IncomingMessage {
    pub author_id: String,
    pub is_bot: bool,
    pub guild_id: Option<String>,
    pub channel_id: String,
    pub platform_message_id: String,
    pub content: String,
}

} // verus!
