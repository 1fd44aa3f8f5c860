//! Request opcodes this client sends. The opcode space is open: unknown
//! opcodes on the wire are data, not an error, unless a caller restricts
//! the accepted responses of an exchange.

use vstd::prelude::*;

verus! {

/// A request the client knows how to issue.
#[derive(Clone, Copy, Debug, PartialEq, Eq, Structural)]
pub enum RequestCommand {
    BadgeInfo,
    PictureSize,
}

impl RequestCommand {
    /// The opcode byte of this request on the wire.
    pub open spec fn code_spec(self) -> u8 {
        match self {
            RequestCommand::BadgeInfo => 0xC6,
            RequestCommand::PictureSize => 0xDA,
        }
    }

    /// The opcode byte of this request on the wire.
    pub fn code(self) -> (r: u8)
        ensures
            r == self.code_spec(),
    {
        match self {
            RequestCommand::BadgeInfo => 0xC6,
            RequestCommand::PictureSize => 0xDA,
        }
    }
}

} // verus!
