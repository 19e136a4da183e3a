//! The incoming message as the listener hands it to the handler.

use vstd::prelude::*;

verus! {

/// One incoming chat message. It lives for one handling call only.
pub struct IncomingMessage {
    /// Whether the authoring account is a bot account.
    pub author_bot: bool,
    /// Membership metadata, present when the message originates from a
    /// multi-member channel context rather than a direct one. The handler
    /// only asks whether it is present, so it is carried opaquely.
    pub membership: Option<String>,
    /// The channel the message arrived on, and where a reply would go.
    pub channel_id: u64,
    /// The raw message text.
    pub content: String,
}

} // verus!
