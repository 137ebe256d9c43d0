use vstd::prelude::*;

verus! {

/// Where a user stands in a chat, as the platform reports it.
#[derive(Clone, Copy, Debug, PartialEq, Eq, Structural)]
pub enum MemberStatus {
    Owner,
    Administrator,
    Member,
    /// Restricted in what they may do; `is_member` says whether they are
    /// still in the chat.
    Restricted { is_member: bool },
    Left,
    /// Kicked, for a time or for good.
    Banned,
}

impl MemberStatus {
    /// The user is in the chat now: not gone, not banned, not a restricted
    /// user who has left.
    pub open spec fn present(self) -> bool {
        match self {
            MemberStatus::Left => false,
            MemberStatus::Banned => false,
            MemberStatus::Restricted { is_member } => is_member,
            _ => true,
        }
    }

    pub fn is_present(&self) -> (r: bool)
        ensures
            r == self.present(),
    {
        match self {
            MemberStatus::Left => false,
            MemberStatus::Banned => false,
            MemberStatus::Restricted { is_member } => *is_member,
            _ => true,
        }
    }
}

} // verus!
