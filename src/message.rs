use vstd::prelude::*;

verus! {

/// A freeform message from a direct chat with the bot.
pub struct Incoming {
    /// The direct chat; its identifier equals the sender's user identifier.
    pub chat_id: i64,
    /// The text body; a photo or a sticker has none.
    pub text: Option<String>,
}

impl Incoming {
    /// The text body, if it has one that is not empty.
    pub open spec fn body(&self) -> Option<Seq<char>> {
        match self.text {
            Some(t) => if t@.len() > 0 { Some(t@) } else { None },
            None => None,
        }
    }
}

/// A text message that must be sent to a chat.
pub struct Outgoing {
    pub chat_id: i64,
    pub text: String,
}

} // verus!
