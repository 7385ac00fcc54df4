//! Event payloads handed to the external event sink: one notification per
//! file outcome, never persisted.

use vstd::prelude::*;

verus! {

/// Payload of the notification that one file finished downloading.
#[derive(Clone, Debug, PartialEq, Eq)]
pub struct ModDownloadedPayload {
    pub mod_id: String,
    pub pack_id: String,
}

/// Payload of the notification that one file's stream failed.
#[derive(Clone, Debug, PartialEq, Eq)]
pub struct ModDownloadErrorPayload {
    pub mod_id: String,
    pub pack_id: String,
    pub file_name: String,
    pub error: String,
}

/// One notification on the download channel.
#[derive(Clone, Debug, PartialEq, Eq)]
pub enum InstallEvent {
    Downloaded(ModDownloadedPayload),
    DownloadError(ModDownloadErrorPayload),
}

/// The event says that a file of this mod, for this pack, completed.
pub open spec fn is_completion_event(ev: InstallEvent, mod_id: Seq<char>, pack_id: Seq<char>) -> bool {
    &&& ev matches InstallEvent::Downloaded(p)
    &&& p.mod_id@ == mod_id
    &&& p.pack_id@ == pack_id
}

/// The event says that this file of this mod, for this pack, failed with
/// this error.
pub open spec fn is_failure_event(
    ev: InstallEvent,
    mod_id: Seq<char>,
    pack_id: Seq<char>,
    file_name: Seq<char>,
    error: Seq<char>,
) -> bool {
    &&& ev matches InstallEvent::DownloadError(p)
    &&& p.mod_id@ == mod_id
    &&& p.pack_id@ == pack_id
    &&& p.file_name@ == file_name
    &&& p.error@ == error
}

} // verus!
