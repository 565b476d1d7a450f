use vstd::prelude::*;

verus! {

/// Errors raised while turning wire values into packet types.
#[derive(Debug, Clone, Copy, PartialEq, Eq, Structural)]
pub enum PacketError {
    /// A primitive value does not name any variant of the expected enum.
    InvalidEnumPrimitive(u32),
    /// A discriminant does not match the expected one.
    InvalidEnumDiscriminant(usize),
}

} // verus!
