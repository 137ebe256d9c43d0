use vstd::prelude::*;

verus! {

/// Static settings, read once at start-up and never changed.
pub struct Config {
    /// Sent for `/start` and `/help`.
    pub help_msg: String,
    /// Sent for `/source`.
    pub source_msg: String,
    /// Sent to a sender who is not a member of the channel.
    pub subscribe_msg: String,
    /// Sent to the sender once the message reached the channel.
    pub sent_msg: String,
    /// The channel that receives relayed messages.
    pub channel_id: i64,
    /// Whether the sender must be a member of the channel.
    pub check_subscription: bool,
}

} // verus!
