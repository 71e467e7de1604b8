use vstd::prelude::*;

verus! {

/// POST /clipboard/restore/:entry_id — restore clipboard entry to OS clipboard
pub const CLIPBOARD_RESTORE: &'static str = "/clipboard/restore";
/// GET /clipboard/entries — list clipboard entries with pagination
pub const CLIPBOARD_ENTRIES: &'static str = "/clipboard/entries";
/// GET /clipboard/stats — clipboard statistics
pub const CLIPBOARD_STATS: &'static str = "/clipboard/stats";
/// GET /settings — daemon settings
pub const SETTINGS: &'static str = "/settings";
/// POST /settings/relay-probe — probe a candidate relay URL (ADR-008 P3-3 B2'-1)
pub const SETTINGS_RELAY_PROBE: &'static str = "/settings/relay-probe";
/// POST /settings/relay-credential/status — query URL-scoped credential state.
pub const SETTINGS_RELAY_CREDENTIAL_STATUS: &'static str = "/settings/relay-credential/status";
/// PUT /settings/relay — save relay settings and credential together.
pub const SETTINGS_RELAY_SAVE: &'static str = "/settings/relay";
/// GET/PUT /diagnostics/debug — inspect or update persistent local debug mode.
pub const DIAGNOSTICS_DEBUG: &'static str = "/diagnostics/debug";
/// POST /diagnostics/log-export — export recent GUI/daemon/CLI logs to Downloads.
pub const DIAGNOSTICS_LOG_EXPORT: &'static str = "/diagnostics/log-export";
/// GET /encryption/state — encryption state
pub const ENCRYPTION_STATE: &'static str = "/encryption/state";
/// POST /encryption/unlock — unlock encryption with passphrase
pub const ENCRYPTION_UNLOCK: &'static str = "/encryption/unlock";
/// POST /encryption/lock — lock encryption
pub const ENCRYPTION_LOCK: &'static str = "/encryption/lock";
/// GET /storage/stats — storage statistics
pub const STORAGE_STATS: &'static str = "/storage/stats";
/// POST /storage/clear-cache — clear storage cache
pub const STORAGE_CLEAR_CACHE: &'static str = "/storage/clear-cache";
/// GET /clipboard/blobs/:blob_id — serve raw blob binary content
pub const CLIPBOARD_BLOBS: &'static str = "/clipboard/blobs";
/// GET /clipboard/thumbnails/:rep_id — serve raw thumbnail binary content
pub const CLIPBOARD_THUMBNAILS: &'static str = "/clipboard/thumbnails";
/// GET /search/query — execute a structured search query (Phase 92)
pub const SEARCH_QUERY: &'static str = "/search/query";
/// GET /search/status — get search index availability status (Phase 92)
pub const SEARCH_STATUS: &'static str = "/search/status";
/// POST /search/rebuild — trigger manual search index rebuild (Phase 92)
pub const SEARCH_REBUILD: &'static str = "/search/rebuild";
/// GET /search/tags — list tags present in the index with entry counts
pub const SEARCH_TAGS: &'static str = "/search/tags";
/// GET /upgrade/status — detect upgrade by comparing version cursor to
/// the running build (P1 thin upgrade detection).
pub const UPGRADE_STATUS: &'static str = "/upgrade/status";
/// POST /upgrade/ack — advance the version cursor to the running build.
pub const UPGRADE_ACK: &'static str = "/upgrade/ack";
/// POST /clipboard/dispatch — dispatch plaintext to online peers (ADR-008 P2.5 / D7)
pub const CLIPBOARD_DISPATCH: &'static str = "/clipboard/dispatch";
/// POST /clipboard/resend — resend a previously captured entry (ADR-008 P2.5 / D7)
pub const CLIPBOARD_RESEND: &'static str = "/clipboard/resend";
/// POST /clipboard/capture-current — capture whatever is on the OS
/// clipboard right now into history, without waiting for a change event
/// (issue #1169: preserves a concurrent write before a startup restore).
pub const CLIPBOARD_CAPTURE_CURRENT: &'static str = "/clipboard/capture-current";
/// POST /clipboard/cancel-transfer/:transfer_id — cancel an in-flight inbound transfer
pub const CLIPBOARD_CANCEL_TRANSFER: &'static str = "/clipboard/cancel-transfer";
/// POST /lifecycle/restart — request a controlled restart/promotion (ADR-008 P5-L L8d-1)
pub const LIFECYCLE_RESTART: &'static str = "/lifecycle/restart";
/// GET/POST /network/recovery — query or manually request network recovery.
pub const NETWORK_RECOVERY: &'static str = "/network/recovery";
/// POST /config/export — export the current configuration to an encrypted `.ucbundle` (issue #1110)
pub const CONFIG_EXPORT: &'static str = "/config/export";
/// POST /config/import/preview — decrypt only the bundle manifest for operator confirmation (issue #1110)
pub const CONFIG_IMPORT_PREVIEW: &'static str = "/config/import/preview";
/// POST /config/import — validate + stage a configuration bundle for the next boot to apply (issue #1110)
pub const CONFIG_IMPORT: &'static str = "/config/import";

} // verus!
