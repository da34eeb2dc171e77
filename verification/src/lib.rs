//! Verified core of the kimcli command-line agent: the pure logic behind its
//! resume hints, curated-plugin bookkeeping, update diagnostics, pet asset
//! cache, and the network-disabled remote plugin entry points.

pub mod text;
pub mod paths;
pub mod thread_id;
pub mod resume_command;
pub mod startup_sync;
pub mod updates;
pub mod doctor_updates;
pub mod asset_pack;
pub mod draft_state;
pub mod remote_catalog;
pub mod remote_legacy;
pub mod share;
pub mod app_cmd;
