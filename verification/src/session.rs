//! The session key and the rules for the file that keeps it.
//!
//! The key is 32 bytes. Its file is created exclusively with mode 640, and
//! after writing the mode is looked at again; a file that is already there
//! must hold exactly 32 bytes.

use crate::entropy::fill_random;
use vstd::prelude::*;

verus! {

/// The length of the session key in bytes.
pub const SESSION_KEY_LEN: usize = 32;

/// The permission bits of the session key file: owner read and write, group
/// read.
pub const SESSION_KEY_MODE: u32 = 0o640;

/// The permission bits of the socket file: owner read and write.
pub const SOCKET_MODE: u32 = 0o600;

/// The bits of a file mode that are permissions.
pub const PERMISSION_MASK: u32 = 0o777;

/// Why the session key could not be had.
#[derive(Clone, Copy, Debug, PartialEq, Eq)]
pub enum SessionKeyError {
    /// The key file holds `found` bytes, not 32.
    InvalidLength { found: usize },
    /// The key file's permission bits are `mode`, not 640.
    WrongPermissions { mode: u32 },
    /// The system generator failed.
    Entropy,
}

/// The key that a key file with these contents holds: the contents, if they
/// are exactly 32 bytes.
pub fn session_key_from_file(contents: &[u8]) -> (outcome: Result<[u8; 32], SessionKeyError>)
    ensures
        outcome is Ok <==> contents@.len() == 32,
        outcome matches Ok(key) ==> key@ == contents@,
        outcome matches Err(error) ==> error == (SessionKeyError::InvalidLength { found: contents@.len() as usize }),
{
    if contents.len() != SESSION_KEY_LEN {
        return Err(SessionKeyError::InvalidLength { found: contents.len() });
    }
    let mut key = [0u8; 32];
    let mut i: usize = 0;
    while i < 32
        invariant
            i <= 32,
            contents@.len() == 32,
            forall|j: int| 0 <= j < i ==> key@[j] == contents@[j],
        decreases 32 - i,
    {
        key[i] = contents[i];
        i += 1;
    }
    assert(key@ =~= contents@);
    Ok(key)
}

/// Whether a freshly written key file may be used: its permission bits must
/// be exactly 640, whatever the other bits of its mode.
pub fn check_key_file_mode(mode: u32) -> (outcome: Result<(), SessionKeyError>)
    ensures
        outcome is Ok <==> mode & 0o777 == 0o640,
        outcome matches Err(error) ==> error == (SessionKeyError::WrongPermissions { mode: mode & 0o777 }),
{
    let permissions = mode & PERMISSION_MASK;
    if permissions != SESSION_KEY_MODE {
        return Err(SessionKeyError::WrongPermissions { mode: permissions });
    }
    Ok(())
}

/// A fresh session key from the system generator.
pub fn generate_session_key() -> (outcome: Result<[u8; 32], SessionKeyError>)
    ensures
        outcome matches Err(error) ==> error == SessionKeyError::Entropy,
{
    match fill_random::<32>() {
        Some(key) => Ok(key),
        None => Err(SessionKeyError::Entropy),
    }
}

} // verus!
