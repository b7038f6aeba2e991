use vstd::prelude::*;
use crate::rate::Rate;

verus! {

/// What a download session reports, in the order it happens.
#[derive(Clone, Debug, PartialEq, Eq)]
pub enum DownloadEvent {
    Started { url: String, duration_ms: u64 },
    Progress { elapsed_ms: u64, bytes: u64, mbps: Rate },
    Finished { elapsed_ms: u64, bytes: u64, avg_mbps: Rate },
    Error { message: String },
}

/// What an upload session reports, in the order it happens.
#[derive(Clone, Debug, PartialEq, Eq)]
pub enum UploadEvent {
    Started { url: String, duration_ms: u64, chunk_size: usize },
    Progress { elapsed_ms: u64, bytes: u64, mbps: Rate },
    Finished { elapsed_ms: u64, bytes: u64, avg_mbps: Rate },
    Error { message: String },
}

impl DownloadEvent {
    /// Whether the event ends its session.
    pub open spec fn is_terminal(self) -> bool {
        self is Finished || self is Error
    }
}

impl UploadEvent {
    /// Whether the event ends its session.
    pub open spec fn is_terminal(self) -> bool {
        self is Finished || self is Error
    }
}

} // verus!
