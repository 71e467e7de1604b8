//! Stable numeric codes that the setup engine attaches to its errors.
//!
//! The HTTP layer maps an engine error by matching first on these codes
//! and then, for any code it does not name, on the error's category.

use vstd::prelude::*;

verus! {

/// Create-space: passphrase and its confirmation differ.
pub const CREATE_SPACE_PASSPHRASE_MISMATCH_CODE: u32 = 1201;
/// Create-space: no device name was given.
pub const CREATE_SPACE_DEVICE_NAME_REQUIRED_CODE: u32 = 1202;
/// Create-space: a space already exists on this device.
pub const CREATE_SPACE_ALREADY_INITIALIZED_CODE: u32 = 1203;
/// Create-space: setup was already completed on this device.
pub const CREATE_SPACE_ALREADY_SETUP_CODE: u32 = 1204;

/// Cancel-invitation: there is no in-flight invitation.
pub const CANCEL_INVITATION_NOT_ISSUED_CODE: u32 = 1301;
/// Cancel-join: the join attempt is unknown.
pub const CANCEL_JOIN_SPACE_NOT_FOUND_CODE: u32 = 1341;

/// Join-space: the invitation code is unknown.
pub const JOIN_SPACE_INVITATION_NOT_FOUND_CODE: u32 = 1401;
/// Join-space: the invitation has expired.
pub const JOIN_SPACE_INVITATION_EXPIRED_CODE: u32 = 1402;
/// Join-space: the sponsor device cannot be reached.
pub const JOIN_SPACE_SPONSOR_UNREACHABLE_CODE: u32 = 1403;
/// Join-space: the sponsor runs a build too old to pair with.
pub const JOIN_SPACE_SPONSOR_UPGRADE_REQUIRED_CODE: u32 = 1404;
/// Join-space: the invitation service is not available.
pub const JOIN_SPACE_SERVICE_UNAVAILABLE_CODE: u32 = 1405;
/// Join-space: the passphrase is wrong.
pub const JOIN_SPACE_PASSPHRASE_MISMATCH_CODE: u32 = 1406;
/// Join-space: the space key material is corrupted.
pub const JOIN_SPACE_CORRUPTED_KEY_CODE: u32 = 1407;
/// Join-space: no device name was given.
pub const JOIN_SPACE_DEVICE_NAME_REQUIRED_CODE: u32 = 1408;
/// Join-space: the sponsor did not recognise the invitation code.
pub const JOIN_SPACE_SPONSOR_REJECTED_CODE: u32 = 1409;
/// Join-space: the sponsor declined the pairing request.
pub const JOIN_SPACE_SPONSOR_DECLINED_CODE: u32 = 1410;
/// Join-space: the sponsor timed out the handshake.
pub const JOIN_SPACE_SPONSOR_TIMEOUT_CODE: u32 = 1411;
/// Join-space: the handshake timed out locally.
pub const JOIN_SPACE_TIMEOUT_CODE: u32 = 1412;
/// Join-space: the connection was lost mid-handshake.
pub const JOIN_SPACE_CONNECTION_LOST_CODE: u32 = 1413;
/// Switch-space: this device has not completed first-time setup.
pub const JOIN_SPACE_NOT_SETUP_CODE: u32 = 1414;
/// Switch-space: an earlier migration is still in flight.
pub const JOIN_SPACE_PENDING_MIGRATION_CODE: u32 = 1415;
/// Switch-space: the current space session is locked.
pub const JOIN_SPACE_NOT_UNLOCKED_CODE: u32 = 1416;
/// Switch-space: unreadable local history needs explicit confirmation.
pub const JOIN_SPACE_UNREADABLE_HISTORY_REQUIRES_CONFIRMATION_CODE: u32 = 1417;
/// Switch-space: a backup record failed to decrypt.
pub const JOIN_SPACE_INVALID_CIPHERTEXT_CODE: u32 = 1418;
/// Switch-space: storage failed while switching.
pub const JOIN_SPACE_STORAGE_CODE: u32 = 1419;

} // verus!
