use vstd::prelude::*;

verus! {

/// A consumer missed incremental events and must re-query any active read models.
pub const SYSTEM_REFRESH_REQUIRED: &'static str = "system.refresh_required";
pub const STATUS_SNAPSHOT: &'static str = "status.snapshot";
pub const STATUS_UPDATED: &'static str = "status.updated";
pub const PEERS_SNAPSHOT: &'static str = "peers.snapshot";
pub const PEERS_CHANGED: &'static str = "peers.changed";
pub const PEERS_NAME_UPDATED: &'static str = "peers.nameUpdated";
pub const PEERS_CONNECTION_CHANGED: &'static str = "peers.connectionChanged";
pub const PAIRED_DEVICES_SNAPSHOT: &'static str = "paired-devices.snapshot";
pub const PAIRED_DEVICES_CHANGED: &'static str = "paired-devices.changed";
pub const PAIRING_SNAPSHOT: &'static str = "pairing.snapshot";
pub const PAIRING_UPDATED: &'static str = "pairing.updated";
pub const PAIRING_VERIFICATION_REQUIRED: &'static str = "pairing.verification_required";
pub const PAIRING_COMPLETE: &'static str = "pairing.complete";
pub const PAIRING_FAILED: &'static str = "pairing.failed";
/// Setup pairing invitation issued (Slice4 P3 T3.1) — sponsor side after `issue_pairing_invitation`.
pub const SETUP_INVITATION_ISSUED: &'static str = "setup.invitationIssued";
/// Setup pairing completed (Slice4 P3 T3.1) — both sponsor and joiner receive once handshake terminates.
pub const SETUP_PAIRING_COMPLETED: &'static str = "setup.pairingCompleted";
pub const SETUP_RE_PAIRING_REQUIRED: &'static str = "setup.rePairingRequired";
/// Setup invitation revoked (Slice4 P3 T3.1) — invitation cancelled or expired before redemption.
pub const SETUP_INVITATION_REVOKED: &'static str = "setup.invitationRevoked";
pub const CLIPBOARD_NEW_CONTENT: &'static str = "clipboard.new_content";
/// 接收端收到 inbound clipboard,V3 envelope 已解码,blob 拉取尚未完成。
/// 携带最终 entry_id —— 前端在剪贴板列表中插入占位卡片,与
/// `file-transfer.progress` 一起显示传输进度。后续 `clipboard.new_content`
/// 到达时占位卡片自然被真实 entry 替换(同 entry_id)。
pub const CLIPBOARD_INCOMING_PENDING: &'static str = "clipboard.incoming_pending";
pub const CLIPBOARD_RECEIVE_ATTEMPT_STATE_CHANGED: &'static str =
    "clipboard.receive_attempt_state_changed";
pub const FILE_TRANSFER_STATUS_CHANGED: &'static str = "file-transfer.status_changed";
pub const FILE_TRANSFER_PROGRESS: &'static str = "file-transfer.progress";
/// 某条 entry 对某个对端的投递状态发生变化(ADR-008 P3-3 GAP-WS-1)。
/// 仅携带 `(entry_id, target_device_id)`,**不带 status** —— 订阅方按
/// entry_id 过滤后 refetch `GET /clipboard/entries/{id}/delivery`,view 是
/// status 的唯一真相源(语义见 `DeliveryHostEvent`)。在 `clipboard` topic 上
/// 发,与 GUI 详情页的 delivery badge 配套;LAN 客户端不订阅即可忽略。
pub const CLIPBOARD_DELIVERY_STATUS_CHANGED: &'static str = "clipboard.delivery_status_changed";
pub const ENCRYPTION_SESSION_READY: &'static str = "encryption.session_ready";
/// Search availability snapshot event (Phase 92).
pub const SEARCH_STATUS_SNAPSHOT: &'static str = "search.status_snapshot";
/// Search rebuild progress event (Phase 92).
pub const SEARCH_REBUILD_PROGRESS: &'static str = "search.rebuild_progress";
pub const WORKSPACE_CONVERGENCE_CHANGED: &'static str = "workspace-convergence.changed";
pub const DEVICE_TRUST_CHANGED: &'static str = "device-trust.changed";
pub const NETWORK_RECOVERY_CHANGED: &'static str = "network-recovery.changed";
/// Lightweight inbound clipboard notice for CLI `watch` (ADR-008 P2.5).
/// Emitted alongside `CLIPBOARD_NEW_CONTENT`; carries only display summaries
/// and delivery metadata, never the full clipboard payload.
pub const CLIPBOARD_INBOUND_NOTICE: &'static str = "clipboard.inbound_notice";

} // verus!
