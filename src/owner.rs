//! A stand-alone check that an account is owned by an expected program.
use crate::context::{keys_equal, AccountInfo};
use vstd::prelude::*;

verus! {

/// Why an owner check failed.
#[derive(Clone, Copy, Debug, PartialEq, Eq, Structural)]
pub enum OwnerCheckError {
    /// No account was given.
    NotEnoughAccountKeys,
    /// The data is not a 32-byte key.
    InvalidInstructionData,
    /// The account's owner is not the expected one.
    OwnerMismatch,
}

impl OwnerCheckError {
    /// The custom error code of an owner mismatch.
    pub const OWNER_MISMATCH_CODE: u32 = 0x100;
}

/// Checks that the first account is owned by the 32-byte key that the
/// instruction data holds.
pub fn assert_owner(accounts: &Vec<AccountInfo>, instruction_data: &[u8]) -> (r: Result<
    (),
    OwnerCheckError,
>)
    ensures
        accounts@.len() == 0 ==> r == Err::<(), OwnerCheckError>(
            OwnerCheckError::NotEnoughAccountKeys,
        ),
        accounts@.len() > 0 && instruction_data@.len() != 32 ==> r == Err::<(), OwnerCheckError>(
            OwnerCheckError::InvalidInstructionData,
        ),
        accounts@.len() > 0 && instruction_data@.len() == 32 ==> if instruction_data@
            == accounts@[0].owner@ {
            r is Ok
        } else {
            r == Err::<(), OwnerCheckError>(OwnerCheckError::OwnerMismatch)
        },
{
    if accounts.len() == 0 {
        return Err(OwnerCheckError::NotEnoughAccountKeys);
    }
    if instruction_data.len() != 32 {
        return Err(OwnerCheckError::InvalidInstructionData);
    }
    let mut expected = [0u8; 32];
    let mut i: usize = 0;
    while i < 32
        invariant
            0 <= i <= 32,
            instruction_data@.len() == 32,
            expected@.len() == 32,
            forall|j: int| 0 <= j < i ==> expected@[j] == instruction_data@[j],
        decreases 32 - i,
    {
        expected[i] = instruction_data[i];
        i = i + 1;
    }
    assert(expected@ =~= instruction_data@);
    if keys_equal(&expected, &accounts[0].owner) {
        Ok(())
    } else {
        Err(OwnerCheckError::OwnerMismatch)
    }
}

} // verus!
