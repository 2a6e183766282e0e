use vstd::prelude::*;

verus! {

/// Errors surfaced by the memory-access layer.
///
/// Every operation of this crate is recoverable: an error names the failed
/// operation class and carries the backend's own description, so a caller can
/// tell "device could not be opened" from "no such process" from "read failed".
#[derive(Debug, Clone)]
pub enum DmaError {
    /// The acquisition backend could not be initialized (device absent,
    /// driver missing, memory image unreadable).
    InitFailed(String),
    /// A process could not be found or enumerated.
    ProcessError(String),
    /// A memory read or write against the target address space failed.
    MemoryError(String),
    /// A module or exported symbol could not be found or enumerated.
    ModuleError(String),
    /// Bytes read from the target could not be decoded as text (the read
    /// itself succeeded); never degraded to lossy decoding.
    DecodingError(String),
}

impl DmaError {
    /// The description carried by this error, whichever variant it is.
    pub open spec fn message_view(&self) -> Seq<char> {
        match self {
            DmaError::InitFailed(s) => s@,
            DmaError::ProcessError(s) => s@,
            DmaError::MemoryError(s) => s@,
            DmaError::ModuleError(s) => s@,
            DmaError::DecodingError(s) => s@,
        }
    }

    /// Returns the description carried by this error.
    pub fn message(&self) -> (r: String)
        ensures
            r@ == self.message_view(),
    {
        match self {
            DmaError::InitFailed(s) => s.clone(),
            DmaError::ProcessError(s) => s.clone(),
            DmaError::MemoryError(s) => s.clone(),
            DmaError::ModuleError(s) => s.clone(),
            DmaError::DecodingError(s) => s.clone(),
        }
    }
}

} // verus!
