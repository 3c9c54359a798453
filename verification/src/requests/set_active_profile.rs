//! The profile switch: opcode 0x50, sub-opcode 0x02, with the profile index
//! at offset 2. Only profiles 0..=2 exist; anything else is rejected before a
//! frame is built.

use vstd::prelude::*;

use crate::error::InputError;

verus! {

/// The write request that selects the active profile.
#[derive(Debug, Clone, Copy, PartialEq, Eq, Structural)]
pub struct SetActiveProfile {
    pub profile: u8,
}

/// The profile-switch frame: opcode 0x50, sub-opcode 0x02, the profile index
/// at offset 2, zeroes everywhere else.
pub open spec fn profile_frame(p: u8) -> Seq<u8> {
    Seq::new(
        64,
        |i: int|
            if i == 0 {
                0x50u8
            } else if i == 1 {
                0x02u8
            } else if i == 2 {
                p
            } else {
                0u8
            },
    )
}

/// For every valid profile index, the encoded frame carries the opcode pair
/// 0x50, 0x02 at offsets 0 and 1, the index itself at offset 2, and zeroes
/// everywhere else.
pub proof fn lemma_profile_frame_layout(p: u8)
    requires
        p <= 2,
    ensures
        profile_frame(p).len() == 64,
        profile_frame(p)[0] == 0x50,
        profile_frame(p)[1] == 0x02,
        profile_frame(p)[2] == p,
        forall|i: int| 3 <= i < 64 ==> profile_frame(p)[i] == 0,
{
}

impl SetActiveProfile {
    /// Validates the profile index before any frame is built.
    pub fn new(profile: u8) -> (r: Result<SetActiveProfile, InputError>)
        ensures
            profile <= 2 ==> r == Ok::<_, InputError>(SetActiveProfile { profile }),
            profile > 2 ==> r == Err::<SetActiveProfile, _>(InputError::InvalidProfile(profile)),
    {
        if profile > 2 {
            Err(InputError::InvalidProfile(profile))
        } else {
            Ok(SetActiveProfile { profile })
        }
    }

    /// Encodes the request into its 64-byte frame.
    pub fn as_byte_vec(&self) -> (buf: [u8; 64])
        requires
            self.profile <= 2,
        ensures
            buf@ == profile_frame(self.profile),
    {
        let mut buf = [0u8; 64];
        buf[0] = 0x50;
        buf[1] = 0x02;
        buf[2] = self.profile;
        proof {
            assert(buf@ =~= profile_frame(self.profile));
        }
        buf
    }

    /// The switch is applied exactly when the reply echoes the request header.
    pub fn decode(reply: &[u8; 64]) -> (applied: bool)
        ensures
            applied == (reply@[0] == 0x50 && reply@[1] == 0x02),
    {
        reply[0] == 0x50 && reply[1] == 0x02
    }
}

} // verus!
