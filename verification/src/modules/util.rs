use vstd::prelude::*;

verus! {

/// Consistent embed colors between commands
#[derive(Clone, Copy, Debug, PartialEq, Eq, Structural)]
pub enum EmbedColor {
    Success,
    Failure,
    Pending,
}

impl EmbedColor {
    /// The RGB value of each color.
    pub open spec fn spec_hex(self) -> u32 {
        match self {
            EmbedColor::Success => 0xb4f050,
            EmbedColor::Failure => 0xff1a1a,
            EmbedColor::Pending => 0x1aa3ff,
        }
    }

    pub fn hex(&self) -> (r: u32)
        ensures
            r == self.spec_hex(),
    {
        match self {
            EmbedColor::Success => 0xb4f050,
            EmbedColor::Failure => 0xff1a1a,
            EmbedColor::Pending => 0x1aa3ff,
        }
    }
}

} // verus!
