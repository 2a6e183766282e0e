use crate::backend;
use crate::error::DmaError;
use crate::layout::FixedLayout;
use crate::text::has_prefix;
use crate::text::prefixed_message;
use vstd::prelude::*;
use vstd::string::StringExecFns;

verus! {

/// The capture state of an executed batch, entry by entry: each prepared
/// address together with the bytes the transaction produced for it, or
/// `None` for an entry the device could not satisfy.
pub open spec fn capture_view_of(entries: Seq<(u64, Option<Vec<u8>>)>) -> Seq<
    (u64, Option<Seq<u8>>),
> {
    Seq::new(
        entries.len(),
        |i: int|
            (
                entries[i].0,
                match entries[i].1 {
                    Some(b) => Some(b@),
                    None => None,
                },
            ),
    )
}

/// Address-keyed lookup in a capture state: `None` when no entry carries
/// `address`, otherwise the first such entry's capture (which is itself
/// `None` when that entry failed).
pub open spec fn lookup_capture(
    entries: Seq<(u64, Option<Seq<u8>>)>,
    address: u64,
) -> Option<Option<Seq<u8>>>
    decreases entries.len(),
{
    if entries.len() == 0 {
        None
    } else if entries[0].0 == address {
        Some(entries[0].1)
    } else {
        lookup_capture(entries.drop_first(), address)
    }
}

/// What retrieval of `size` bytes at `address` from a capture state must
/// return: the first `size` captured bytes when the address was prepared,
/// its entry succeeded and captured at least `size` bytes; an error in every
/// other case.
pub open spec fn retrieval_post(
    entries: Seq<(u64, Option<Seq<u8>>)>,
    address: u64,
    size: usize,
    r: Result<Vec<u8>, DmaError>,
) -> bool {
    match lookup_capture(entries, address) {
        Some(Some(b)) => if b.len() >= size {
            r matches Ok(v) && v@ == b.subrange(0, size as int)
        } else {
            r is Err
        },
        _ => r is Err,
    }
}

/// Skipping entries that do not carry `address` leaves the lookup result
/// unchanged.
proof fn lemma_lookup_skip(entries: Seq<(u64, Option<Seq<u8>>)>, address: u64, i: int)
    requires
        0 <= i <= entries.len(),
        forall|j: int| 0 <= j < i ==> entries[j].0 != address,
    ensures
        lookup_capture(entries, address) == lookup_capture(entries.skip(i), address),
    decreases i,
{
    if i > 0 {
        assert(entries[0].0 != address);
        lemma_lookup_skip(entries.drop_first(), address, i - 1);
        assert(entries.drop_first().skip(i - 1) =~= entries.skip(i));
    } else {
        assert(entries.skip(0) =~= entries);
    }
}

/// Looking up the address of an entry that no earlier entry shares returns
/// exactly that entry's capture.
pub proof fn lemma_lookup_found(entries: Seq<(u64, Option<Seq<u8>>)>, i: int)
    requires
        0 <= i < entries.len(),
        forall|j: int| 0 <= j < i ==> entries[j].0 != entries[i].0,
    ensures
        lookup_capture(entries, entries[i].0) == Some(entries[i].1),
{
    lemma_lookup_skip(entries, entries[i].0, i);
    assert(entries.skip(i)[0] == entries[i]);
}

/// Partial-failure isolation: in a capture state over pairwise distinct
/// addresses in which exactly one entry failed, retrieval by address comes
/// up empty for exactly that entry and serves the captured bytes of every
/// other entry.
pub proof fn lemma_partial_failure_isolation(entries: Seq<(u64, Option<Seq<u8>>)>, k: int)
    requires
        0 <= k < entries.len(),
        forall|i: int, j: int| 0 <= i < j < entries.len() ==> entries[i].0 != entries[j].0,
        forall|i: int| 0 <= i < entries.len() ==> ((#[trigger] entries[i].1) is None <==> i == k),
    ensures
        lookup_capture(entries, entries[k].0) == Some(None::<Seq<u8>>),
        forall|i: int|
            0 <= i < entries.len() && i != k ==> lookup_capture(entries, (#[trigger] entries[i]).0)
                == Some(entries[i].1) && entries[i].1 is Some,
{
    assert forall|i: int| 0 <= i < entries.len() implies lookup_capture(
        entries,
        (#[trigger] entries[i]).0,
    ) == Some(entries[i].1) by {
        lemma_lookup_found(entries, i);
    }
}

/// Retrieval idempotence: two retrievals of the same address and size from
/// the same capture state agree — same success, same bytes — because the
/// result is a function of that state alone.
pub proof fn lemma_retrieval_idempotent(
    entries: Seq<(u64, Option<Seq<u8>>)>,
    address: u64,
    size: usize,
    r1: Result<Vec<u8>, DmaError>,
    r2: Result<Vec<u8>, DmaError>,
)
    requires
        retrieval_post(entries, address, size, r1),
        retrieval_post(entries, address, size, r2),
    ensures
        r1 is Ok <==> r2 is Ok,
        r1 matches Ok(v1) ==> (r2 matches Ok(v2) ==> v1@ == v2@),
{
}

/// Retrieves `size` bytes for `address` out of an executed batch's capture
/// entries, without touching the device: the first entry carrying `address`
/// serves the request. Fails when no entry carries the address, when the
/// entry's execution failed, or when it captured fewer than `size` bytes.
pub fn read_captured(entries: &Vec<(u64, Option<Vec<u8>>)>, address: u64, size: usize) -> (r:
    Result<Vec<u8>, DmaError>)
    ensures
        retrieval_post(capture_view_of(entries@), address, size, r),
        r matches Ok(v) ==> v@.len() == size,
        r matches Err(e) ==> e is MemoryError,
{
    let ghost cv = capture_view_of(entries@);
    let mut i: usize = 0;
    while i < entries.len()
        invariant
            0 <= i <= entries@.len(),
            cv == capture_view_of(entries@),
            forall|j: int| 0 <= j < i ==> (#[trigger] cv[j]).0 != address,
        decreases entries@.len() - i,
    {
        let entry = &entries[i];
        if entry.0 == address {
            proof {
                lemma_lookup_skip(cv, address, i as int);
                assert(cv.skip(i as int)[0] == cv[i as int]);
            }
            match &entry.1 {
                None => {
                    return Err(
                        DmaError::MemoryError(
                            String::from_str("scatter entry failed during execute"),
                        ),
                    );
                },
                Some(b) => {
                    if b.len() < size {
                        return Err(
                            DmaError::MemoryError(
                                String::from_str("scatter entry holds fewer bytes than requested"),
                            ),
                        );
                    }
                    let mut out: Vec<u8> = Vec::new();
                    let mut k: usize = 0;
                    while k < size
                        invariant
                            0 <= k <= size,
                            size <= b@.len(),
                            out@ =~= b@.subrange(0, k as int),
                        decreases size - k,
                    {
                        out.push(b[k]);
                        k = k + 1;
                    }
                    return Ok(out);
                },
            }
        }
        i = i + 1;
    }
    proof {
        lemma_lookup_skip(cv, address, cv.len() as int);
        assert(cv.skip(cv.len() as int) =~= Seq::<(u64, Option<Seq<u8>>)>::empty());
    }
    Err(DmaError::MemoryError(String::from_str("address was not prepared in this batch")))
}

/// A scatter batch: accumulates pending read requests against one process,
/// executes them as a single backend transaction, and afterwards serves each
/// address's captured bytes from its own state, with no further device I/O.
///
/// The two-phase discipline — prepare any number of requests, execute once,
/// then retrieve — is tracked by this struct: nothing is retrievable before
/// `execute`, and one entry's failure inside a transaction degrades only
/// that entry's retrieval. Batches are reusable: `clear` returns the batch
/// to its initial empty state, and a further `execute` re-issues whatever is
/// pending.
pub struct ScatterHandle<'a> {
    scatter: memprocfs::VmmScatterMemory<'a>,
    pending: Vec<(u64, usize)>,
    pending_writes: Vec<(u64, Vec<u8>)>,
    results: Vec<(u64, Option<Vec<u8>>)>,
    executed: bool,
}

impl<'a> ScatterHandle<'a> {
    /// The pending requests, in preparation order: (address, byte count).
    pub closed spec fn pending_view(&self) -> Seq<(u64, usize)> {
        self.pending@
    }

    /// The pending write requests, in preparation order:
    /// (address, payload bytes).
    pub closed spec fn pending_writes_view(&self) -> Seq<(u64, Seq<u8>)> {
        Seq::new(self.pending_writes@.len(), |i: int| (self.pending_writes@[i].0, self.pending_writes@[i].1@))
    }

    /// The capture state of the last `execute`, entry by entry.
    pub closed spec fn captured_view(&self) -> Seq<(u64, Option<Seq<u8>>)> {
        capture_view_of(self.results@)
    }

    /// Whether an `execute` has completed since the last `clear` (or since
    /// the batch was opened) without a transaction-level failure.
    pub closed spec fn executed_view(&self) -> bool {
        self.executed
    }

    /// Wraps a fresh backend scatter transaction into an empty batch.
    pub(crate) fn from_backend(scatter: memprocfs::VmmScatterMemory<'a>) -> (r: ScatterHandle<'a>)
        ensures
            r.pending_view().len() == 0,
            r.pending_writes_view().len() == 0,
            r.captured_view().len() == 0,
            !r.executed_view(),
    {
        ScatterHandle {
            scatter,
            pending: Vec::new(),
            pending_writes: Vec::new(),
            results: Vec::new(),
            executed: false,
        }
    }

    /// Appends a pending request to read `size` bytes at `address`, and
    /// registers the range with the backend's transaction. No device I/O
    /// happens yet; preparing the same address twice is permitted and both
    /// requests are later served from the same executed capture.
    pub fn prepare_read(&mut self, address: u64, size: usize)
        ensures
            final(self).pending_view() == old(self).pending_view().push((address, size)),
            final(self).pending_writes_view() == old(self).pending_writes_view(),
            final(self).captured_view() == old(self).captured_view(),
            final(self).executed_view() == old(self).executed_view(),
    {
        let _ = backend::scatter_prepare(&self.scatter, address, size);
        self.pending.push((address, size));
    }

    /// Appends a pending request to write `data` at `address`, and
    /// registers it with the backend's transaction. No device I/O happens
    /// yet: the write is applied when the batch executes, with the same
    /// per-entry partial-success granularity as reads (the backend reports
    /// no per-write outcome).
    pub fn prepare_write(&mut self, address: u64, data: &[u8])
        ensures
            final(self).pending_writes_view() == old(self).pending_writes_view().push(
                (address, data@),
            ),
            final(self).pending_view() == old(self).pending_view(),
            final(self).captured_view() == old(self).captured_view(),
            final(self).executed_view() == old(self).executed_view(),
    {
        let _ = backend::scatter_prepare_write(&self.scatter, address, data);
        let payload: Vec<u8> = vstd::slice::slice_to_vec(data);
        self.pending_writes.push((address, payload));
    }

    /// Registers a caller-owned (address, buffer, bytes-read) tuple with the
    /// backend's transaction; the backend fills the buffer directly when the
    /// transaction executes, so such a request is not tracked by this
    /// batch's own pending list or served by its retrieval calls.
    pub fn prepare_read_ex(&mut self, data: &'a mut (u64, Vec<u8>, u32))
        ensures
            final(self).pending_view() == old(self).pending_view(),
            final(self).pending_writes_view() == old(self).pending_writes_view(),
            final(self).captured_view() == old(self).captured_view(),
            final(self).executed_view() == old(self).executed_view(),
    {
        let _ = backend::scatter_prepare_ex(&mut self.scatter, data);
    }

    /// Submits every pending request to the device as one batched
    /// transaction and captures each entry's outcome. On success the capture
    /// state mirrors the pending list entry for entry: same address in the
    /// same position, and a successful entry captures exactly the requested
    /// number of bytes. Entries may fail individually without failing the
    /// batch; only a transaction-level failure returns an error, after which
    /// nothing is retrievable. Executing again re-issues all pending
    /// requests.
    pub fn execute(&mut self) -> (r: Result<(), DmaError>)
        ensures
            final(self).pending_view() == old(self).pending_view(),
            final(self).pending_writes_view() == old(self).pending_writes_view(),
            r is Ok ==> ({
                let cap = final(self).captured_view();
                let pend = old(self).pending_view();
                &&& final(self).executed_view()
                &&& cap.len() == pend.len()
                &&& forall|i: int| 0 <= i < pend.len() ==> (#[trigger] cap[i]).0 == pend[i].0
                &&& forall|i: int|
                    0 <= i < pend.len() ==> ((#[trigger] cap[i]).1 matches Some(b) ==> b.len()
                        == pend[i].1)
            }),
            r is Err ==> !final(self).executed_view() && final(self).captured_view().len() == 0,
            r matches Err(e) ==> e is MemoryError && has_prefix(
                e.message_view(),
                "Scatter execute failed: "@,
            ),
    {
        match backend::scatter_execute(&self.scatter) {
            Err(e) => {
                self.results = Vec::new();
                self.executed = false;
                let context = String::from_str("Scatter execute failed: ");
                return Err(DmaError::MemoryError(prefixed_message(context, e.as_str())));
            },
            Ok(_) => {},
        }
        let mut results: Vec<(u64, Option<Vec<u8>>)> = Vec::new();
        let mut i: usize = 0;
        while i < self.pending.len()
            invariant
                *self == *old(self),
                0 <= i <= self.pending@.len(),
                results@.len() == i,
                forall|j: int|
                    0 <= j < i ==> (#[trigger] results@[j]).0 == self.pending@[j].0,
                forall|j: int|
                    0 <= j < i ==> ((#[trigger] results@[j]).1 matches Some(b) ==> b@.len()
                        == self.pending@[j].1),
            decreases self.pending@.len() - i,
        {
            let (address, size): (u64, usize) = self.pending[i];
            match backend::scatter_read(&self.scatter, address, size) {
                Ok(bytes) => results.push((address, Some(bytes))),
                Err(_) => results.push((address, None)),
            }
            i = i + 1;
        }
        self.results = results;
        self.executed = true;
        Ok(())
    }

    /// Retrieves `size` bytes for `address` from the last `execute`'s
    /// capture, without device I/O and without changing the batch. Fails
    /// when the address was never prepared (in particular before any
    /// `execute`, when the capture is empty), when its entry failed, or when
    /// fewer bytes were captured than requested.
    pub fn read(&mut self, address: u64, size: usize) -> (r: Result<Vec<u8>, DmaError>)
        ensures
            *final(self) == *old(self),
            retrieval_post(old(self).captured_view(), address, size, r),
            r matches Ok(v) ==> v@.len() == size,
            r matches Err(e) ==> e is MemoryError,
    {
        read_captured(&self.results, address, size)
    }

    /// Retrieves the captured bytes for `address` and reads them back as a
    /// fixed-layout value, without device I/O and without changing the
    /// batch. Fails in exactly the cases `read` fails for `T`'s byte width.
    pub fn read_as<T: FixedLayout>(&mut self, address: u64) -> (r: Result<T, DmaError>)
        ensures
            *final(self) == *old(self),
            (match lookup_capture(old(self).captured_view(), address) {
                Some(Some(b)) => if b.len() >= T::layout_size() {
                    r matches Ok(v) && v == T::from_le_spec(
                        b.subrange(0, T::layout_size() as int),
                    )
                } else {
                    r is Err
                },
                _ => r is Err,
            }),
            r matches Err(e) ==> e is MemoryError,
    {
        let size: usize = T::byte_size();
        match read_captured(&self.results, address, size) {
            Ok(bytes) => Ok(T::from_le_bytes(bytes.as_slice())),
            Err(e) => Err(e),
        }
    }

    /// Discards all pending and captured entries, in the backend's
    /// transaction and in this batch, returning it to its initial empty
    /// state for reuse.
    pub fn clear(&mut self)
        ensures
            final(self).pending_view().len() == 0,
            final(self).pending_writes_view().len() == 0,
            final(self).captured_view().len() == 0,
            !final(self).executed_view(),
    {
        let _ = backend::scatter_clear(&self.scatter);
        self.pending = Vec::new();
        self.pending_writes = Vec::new();
        self.results = Vec::new();
        self.executed = false;
    }
}

} // verus!
