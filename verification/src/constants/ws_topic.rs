use vstd::prelude::*;

verus! {

/// Process-wide control notifications that ask consumers to refresh read models.
pub const SYSTEM: &'static str = "system";
pub const STATUS: &'static str = "status";
pub const PEERS: &'static str = "peers";
pub const PAIRED_DEVICES: &'static str = "paired-devices";
pub const PAIRING: &'static str = "pairing";
pub const PAIRING_SESSION: &'static str = "pairing/session";
pub const PAIRING_VERIFICATION: &'static str = "pairing/verification";
pub const SETUP: &'static str = "setup";
pub const CLIPBOARD: &'static str = "clipboard";
pub const FILE_TRANSFER: &'static str = "file-transfer";
pub const ENCRYPTION: &'static str = "encryption";
/// Search index events topic (Phase 92).
pub const SEARCH: &'static str = "search";
pub const WORKSPACE_CONVERGENCE: &'static str = "workspace-convergence";
pub const DEVICE_TRUST: &'static str = "device-trust";
pub const NETWORK_RECOVERY: &'static str = "network-recovery";

} // verus!
